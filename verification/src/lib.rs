//! Persistence layer for similarity-search indexes.
//!
//! An index lives behind an opaque native identity inside a foreign engine;
//! this crate turns such an index into a durable byte representation and
//! back, either as a named file on disk or as an in-memory buffer. The
//! boundary calls themselves (writing the file, producing the bytes) are the
//! engine's; what stands here, verified, is everything around them: turning
//! caller text into the NUL-terminated path form the boundary takes,
//! composing the I/O strategy flags of the read path, translating the
//! boundary's status codes into a structured error, and wrapping the
//! boundary's out-parameters into owned values — never a handle or a buffer
//! alongside an error.

pub mod codec;
pub mod error;
pub mod handle;
pub mod io_flags;
pub mod path;
