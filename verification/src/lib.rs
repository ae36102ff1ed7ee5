//! Platform services for an engine runtime: read-only file mappings, files bundled in an
//! Android package, and a job system with a prioritised I/O pool.
//!
//! Every decision is a verified function on plain values. What only the operating system can
//! do is described by a `Call`; the caller performs it and hands the `Reply` back.

pub mod android;
pub mod cstr;
pub mod error;
pub mod job;
pub mod mmap;
