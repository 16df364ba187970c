//! Streaming digest computation.
//!
//! A `StreamingDigestComputer` absorbs a file's bytes in bounded chunks and
//! produces the file's fingerprint: the SHA-256 digest of the whole byte
//! stream, rendered as lowercase hexadecimal.  Chunk boundaries are an
//! implementation detail of the reader and never alter the digest.

use vstd::prelude::*;
use sha2::Digest;

verus! {

#[verifier::external_type_specification]
#[verifier::external_body]
pub struct ExSha256(sha2::Sha256);

/// The byte stream a hasher has absorbed so far.
pub uninterp spec fn absorbed_bytes(h: sha2::Sha256) -> Seq<u8>;

/// The SHA-256 digest of a byte sequence, as the 32 raw digest bytes.
pub uninterp spec fn sha256_of(bytes: Seq<u8>) -> Seq<u8>;

/// Relies on `sha2::Sha256::new` (through the `Digest` trait): a fresh hasher
/// has absorbed no bytes.
#[verifier::external_body]
fn sha256_new() -> (h: sha2::Sha256)
    ensures
        absorbed_bytes(h) == Seq::<u8>::empty(),
{
    sha2::Sha256::new()
}

/// Relies on `sha2::Sha256::update` (through the `Digest` trait): absorbing a
/// chunk appends it to the byte stream already absorbed.
#[verifier::external_body]
fn sha256_update(h: &mut sha2::Sha256, chunk: &[u8])
    ensures
        absorbed_bytes(*final(h)) == absorbed_bytes(*old(h)) + chunk@,
{
    h.update(chunk);
}

/// Relies on `sha2::Sha256::finalize` (through the `Digest` trait): the
/// 32-byte digest is a function of the absorbed byte stream alone.
#[verifier::external_body]
fn sha256_finalize(h: sha2::Sha256) -> (r: Vec<u8>)
    ensures
        r@ == sha256_of(absorbed_bytes(h)),
        r@.len() == 32,
{
    h.finalize().to_vec()
}

/// The lowercase hexadecimal digit for a value below sixteen.
pub open spec fn hex_digit(n: int) -> char {
    if n == 0 { '0' }
    else if n == 1 { '1' }
    else if n == 2 { '2' }
    else if n == 3 { '3' }
    else if n == 4 { '4' }
    else if n == 5 { '5' }
    else if n == 6 { '6' }
    else if n == 7 { '7' }
    else if n == 8 { '8' }
    else if n == 9 { '9' }
    else if n == 10 { 'a' }
    else if n == 11 { 'b' }
    else if n == 12 { 'c' }
    else if n == 13 { 'd' }
    else if n == 14 { 'e' }
    else { 'f' }
}

/// The lowercase hexadecimal rendering of a byte sequence: two digits per
/// byte, high digit first.
pub open spec fn hex_of(bytes: Seq<u8>) -> Seq<char>
    decreases bytes.len(),
{
    if bytes.len() == 0 {
        Seq::<char>::empty()
    } else {
        seq![hex_digit(bytes[0] as int / 16), hex_digit(bytes[0] as int % 16)] + hex_of(bytes.drop_first())
    }
}

/// Appending a byte to a sequence appends its two digits to the rendering.
pub proof fn lemma_hex_of_push(bytes: Seq<u8>, b: u8)
    ensures
        hex_of(bytes.push(b)) == hex_of(bytes) + seq![hex_digit(b as int / 16), hex_digit(b as int % 16)],
    decreases bytes.len(),
{
    assert(bytes.push(b)[0] == if bytes.len() == 0 { b } else { bytes[0] });
    if bytes.len() == 0 {
        assert(bytes.push(b).drop_first() =~= Seq::<u8>::empty());
        assert(hex_of(Seq::<u8>::empty()) == Seq::<char>::empty());
        assert(hex_of(bytes.push(b)) =~= hex_of(bytes) + seq![hex_digit(b as int / 16), hex_digit(b as int % 16)]);
    } else {
        assert(bytes.push(b).drop_first() =~= bytes.drop_first().push(b));
        lemma_hex_of_push(bytes.drop_first(), b);
        assert(hex_of(bytes.push(b)) =~= hex_of(bytes) + seq![hex_digit(b as int / 16), hex_digit(b as int % 16)]);
    }
}

/// The rendering consists of hexadecimal digits alone; in particular it
/// never holds a NUL character, so a digest can always be stored faithfully.
pub proof fn lemma_hex_of_no_nul(bytes: Seq<u8>)
    ensures
        crate::store::has_no_nul(hex_of(bytes)),
    decreases bytes.len(),
{
    if bytes.len() > 0 {
        lemma_hex_of_no_nul(bytes.drop_first());
    }
}

/// The rendering is twice as long as the byte sequence.
pub proof fn lemma_hex_of_len(bytes: Seq<u8>)
    ensures
        hex_of(bytes).len() == 2 * bytes.len(),
    decreases bytes.len(),
{
    if bytes.len() > 0 {
        lemma_hex_of_len(bytes.drop_first());
    }
}

/// Appends the single lowercase hexadecimal digit for `n` to `s`.
fn push_hex_digit(s: &mut String, n: u8)
    requires
        n < 16,
    ensures
        final(s)@ == old(s)@ + seq![hex_digit(n as int)],
{
    let d: &str = if n == 0 { "0" }
        else if n == 1 { "1" }
        else if n == 2 { "2" }
        else if n == 3 { "3" }
        else if n == 4 { "4" }
        else if n == 5 { "5" }
        else if n == 6 { "6" }
        else if n == 7 { "7" }
        else if n == 8 { "8" }
        else if n == 9 { "9" }
        else if n == 10 { "a" }
        else if n == 11 { "b" }
        else if n == 12 { "c" }
        else if n == 13 { "d" }
        else if n == 14 { "e" }
        else { "f" };
    proof {
        reveal_strlit("0");
        reveal_strlit("1");
        reveal_strlit("2");
        reveal_strlit("3");
        reveal_strlit("4");
        reveal_strlit("5");
        reveal_strlit("6");
        reveal_strlit("7");
        reveal_strlit("8");
        reveal_strlit("9");
        reveal_strlit("a");
        reveal_strlit("b");
        reveal_strlit("c");
        reveal_strlit("d");
        reveal_strlit("e");
        reveal_strlit("f");
        assert(d@ =~= seq![hex_digit(n as int)]);
    }
    s.append(d);
}

/// Renders a byte sequence as lowercase hexadecimal, two digits per byte.
pub fn to_hex(bytes: &Vec<u8>) -> (r: String)
    ensures
        r@ == hex_of(bytes@),
        r@.len() == 2 * bytes@.len(),
{
    let mut r = String::new();
    let mut i: usize = 0;
    while i < bytes.len()
        invariant
            i <= bytes@.len(),
            r@ == hex_of(bytes@.take(i as int)),
        decreases bytes@.len() - i,
    {
        let b = bytes[i];
        push_hex_digit(&mut r, b / 16);
        push_hex_digit(&mut r, b % 16);
        proof {
            lemma_hex_of_push(bytes@.take(i as int), b);
            assert(bytes@.take(i as int).push(b) =~= bytes@.take(i + 1 as int));
        }
        i = i + 1;
    }
    proof {
        assert(bytes@.take(i as int) =~= bytes@);
        lemma_hex_of_len(bytes@);
    }
    r
}

/// The view of a sequence of chunks: their bytes in order, as one stream.
pub open spec fn chunks_bytes(chunks: Seq<Vec<u8>>) -> Seq<u8>
    decreases chunks.len(),
{
    if chunks.len() == 0 {
        Seq::<u8>::empty()
    } else {
        chunks[0]@ + chunks_bytes(chunks.drop_first())
    }
}

/// Appending a chunk to a chunk sequence appends its bytes to the stream.
pub proof fn lemma_chunks_bytes_push(chunks: Seq<Vec<u8>>, c: Vec<u8>)
    ensures
        chunks_bytes(chunks.push(c)) == chunks_bytes(chunks) + c@,
    decreases chunks.len(),
{
    if chunks.len() == 0 {
        assert(chunks.push(c)[0] == c);
        assert(chunks.push(c).drop_first() =~= Seq::<Vec<u8>>::empty());
        assert(chunks_bytes(Seq::<Vec<u8>>::empty()) == Seq::<u8>::empty());
        assert(chunks_bytes(chunks.push(c)) =~= chunks_bytes(chunks) + c@);
    } else {
        assert(chunks.push(c)[0] == chunks[0]);
        assert(chunks.push(c).drop_first() =~= chunks.drop_first().push(c));
        lemma_chunks_bytes_push(chunks.drop_first(), c);
        assert(chunks_bytes(chunks.push(c)) =~= chunks_bytes(chunks) + c@);
    }
}

/// Reads a byte stream in bounded chunks and fingerprints it.
pub struct StreamingDigestComputer {
    hasher: sha2::Sha256,
}

impl StreamingDigestComputer {
    /// The byte stream absorbed so far.
    pub closed spec fn bytes(self) -> Seq<u8> {
        absorbed_bytes(self.hasher)
    }

    pub fn new() -> (c: StreamingDigestComputer)
        ensures
            c.bytes() == Seq::<u8>::empty(),
    {
        StreamingDigestComputer { hasher: sha256_new() }
    }

    /// Feeds one non-empty chunk of the stream into the running accumulator.
    pub fn absorb(&mut self, chunk: &[u8])
        ensures
            final(self).bytes() == old(self).bytes() + chunk@,
    {
        sha256_update(&mut self.hasher, chunk);
    }

    /// Finalizes the accumulator into the fixed-length lowercase hexadecimal
    /// fingerprint of the absorbed stream.
    pub fn finish_hex(self) -> (r: String)
        ensures
            r@ == hex_of(sha256_of(self.bytes())),
            r@.len() == 64,
    {
        let raw = sha256_finalize(self.hasher);
        let r = to_hex(&raw);
        r
    }

    /// Digests a stream given as a sequence of chunks.  The fingerprint
    /// depends only on the bytes of the stream, never on where the chunk
    /// boundaries fall.
    pub fn digest_chunks(chunks: &Vec<Vec<u8>>) -> (r: String)
        ensures
            r@ == hex_of(sha256_of(chunks_bytes(chunks@))),
            r@.len() == 64,
    {
        let mut c = StreamingDigestComputer::new();
        let mut i: usize = 0;
        proof {
            assert(chunks@.take(0) =~= Seq::<Vec<u8>>::empty());
            assert(chunks_bytes(chunks@.take(0)) == Seq::<u8>::empty());
        }
        while i < chunks.len()
            invariant
                i <= chunks@.len(),
                c.bytes() == chunks_bytes(chunks@.take(i as int)),
            decreases chunks@.len() - i,
        {
            c.absorb(chunks[i].as_slice());
            proof {
                lemma_chunks_bytes_push(chunks@.take(i as int), chunks@[i as int]);
                assert(chunks@.take(i as int).push(chunks@[i as int]) =~= chunks@.take(i + 1 as int));
            }
            i = i + 1;
        }
        proof {
            assert(chunks@.take(i as int) =~= chunks@);
        }
        c.finish_hex()
    }
}

/// Chunking transparency: two ways of cutting the same byte stream into
/// chunks always yield the same fingerprint, because the fingerprint is a
/// function of the flattened stream alone.
pub proof fn lemma_chunking_transparency(c1: Seq<Vec<u8>>, c2: Seq<Vec<u8>>)
    requires
        chunks_bytes(c1) == chunks_bytes(c2),
    ensures
        hex_of(sha256_of(chunks_bytes(c1))) == hex_of(sha256_of(chunks_bytes(c2))),
{
}

/// Tracks the bytes consumed by the read loop and decides the pacing delay:
/// the delay is owed only between intermediate reads, while the bytes already
/// consumed are still fewer than the file's total size, never after the
/// terminal read.
pub fn advance_read_total(total_read: usize, bytes_read: usize, file_total: usize) -> (r: (usize, bool))
    requires
        total_read + bytes_read <= usize::MAX,
    ensures
        r.0 == total_read + bytes_read,
        r.1 == (r.0 < file_total),
{
    let new_total = total_read + bytes_read;
    (new_total, new_total < file_total)
}

} // verus!
