//! A sequence lock: a primitive for a small `Copy` value that is read often
//! and written rarely. Writers serialise among themselves and bracket each
//! write with two steps of a sequence counter; readers look without taking
//! exclusive access and retry when a write overlapped them.
//!
//! `protocol` states the counter discipline and proves its laws, `lock` holds
//! the primitive, and `harness` the pieces of a reader/writer stress test.
pub mod harness;
pub mod lock;
pub mod protocol;

pub use lock::{Seqloq, SeqloqGuard};
