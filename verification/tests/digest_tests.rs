use fshash::digest::{advance_read_total, to_hex, StreamingDigestComputer};

const HELLO_SHA256: &str = "2cf24dba5fb0a30e26e83b2ac5b9e29e1b161e5c1fa7425e73043362938b9824";
const EMPTY_SHA256: &str = "e3b0c44298fc1c149afbf4c8996fb92427ae41e4649b934ca495991b7852b855";

#[test]
fn digest_of_known_input() {
    let chunks = vec![b"hello".to_vec()];
    let d = StreamingDigestComputer::digest_chunks(&chunks);
    assert_eq!(d, HELLO_SHA256);
}

#[test]
fn digest_of_empty_stream() {
    let d = StreamingDigestComputer::digest_chunks(&Vec::new());
    assert_eq!(d, EMPTY_SHA256);
    let e = StreamingDigestComputer::new().finish_hex();
    assert_eq!(e, EMPTY_SHA256);
}

#[test]
fn chunking_does_not_change_the_digest() {
    let whole = vec![b"hello".to_vec()];
    let split = vec![b"he".to_vec(), b"l".to_vec(), b"lo".to_vec()];
    let empty_chunks = vec![b"hel".to_vec(), Vec::new(), b"lo".to_vec()];
    let a = StreamingDigestComputer::digest_chunks(&whole);
    let b = StreamingDigestComputer::digest_chunks(&split);
    let c = StreamingDigestComputer::digest_chunks(&empty_chunks);
    assert_eq!(a, b);
    assert_eq!(a, c);
    assert_eq!(a, HELLO_SHA256);
}

#[test]
fn streaming_absorb_equals_one_shot() {
    let mut s = StreamingDigestComputer::new();
    s.absorb(b"he");
    s.absorb(b"llo");
    assert_eq!(s.finish_hex(), HELLO_SHA256);
}

#[test]
fn hex_rendering_is_lowercase_two_digits_per_byte() {
    assert_eq!(to_hex(&vec![]), "");
    assert_eq!(to_hex(&vec![0x00]), "00");
    assert_eq!(to_hex(&vec![0x0f]), "0f");
    assert_eq!(to_hex(&vec![0xde, 0xad, 0xbe, 0xef]), "deadbeef");
    assert_eq!(to_hex(&vec![0x12, 0x34, 0xab, 0xff]), "1234abff");
}

#[test]
fn pacing_runs_only_between_intermediate_reads() {
    // While consumed bytes are fewer than the file's size, the delay is owed.
    let (total, pace) = advance_read_total(0, 4096, 10000);
    assert_eq!(total, 4096);
    assert!(pace);
    let (total, pace) = advance_read_total(4096, 4096, 10000);
    assert_eq!(total, 8192);
    assert!(pace);
    // The terminal, size-exhausting read owes no delay.
    let (total, pace) = advance_read_total(8192, 1808, 10000);
    assert_eq!(total, 10000);
    assert!(!pace);
    // A read past the recorded size owes none either.
    let (_, pace) = advance_read_total(10000, 5, 10000);
    assert!(!pace);
}
