//! Incremental file-fingerprinting library.
//!
//! The crate fingerprints regular files with a streaming SHA-256 digest and
//! remembers each result in an embedded relational store, so that a file whose
//! modification timestamp is unchanged is not hashed again.  Traversal is
//! driven by an explicit work stack and consults an exclusion filter that
//! matches paths by exact equality.

pub mod cache;
pub mod digest;
pub mod exclude;
pub mod store;
pub mod walker;
