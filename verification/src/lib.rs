//! Event-stream decoding and permission-response encoding for a
//! fanotify-style kernel notification channel.
//!
//! The kernel delivers filesystem events as a packed stream of
//! variable-length binary records; callers answer permission events
//! with a fixed eight-byte response. This crate holds the pure part
//! of that protocol: the bit-set flag vocabularies, the record
//! decoder, and the response encoder, each with a machine-checked
//! contract. The syscalls that create the channel, attach marks and
//! move bytes live outside this crate and hand buffers in and out as
//! plain values.

pub mod decode;
pub mod event;
pub mod flags;
pub mod response;
pub mod wire;
