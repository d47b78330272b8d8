//! Exact-transfer binary helpers.
//!
//! This crate layers typed operations over any byte source or sink that can
//! transfer an exact number of bytes or fail: fixed-size byte blocks,
//! booleans, variable-size byte blocks, and fixed-width integers in big-,
//! little- or native byte order.  Every operation either transfers the full
//! requested byte count or fails; no partial value is ever returned.

pub mod buffers;
pub mod endian;
mod native;
pub mod reader;
pub mod stream;
pub mod writer;

pub use buffers::BoundedWriter;
pub use buffers::FailingReader;
pub use buffers::SliceReader;
pub use buffers::VecWriter;
pub use reader::ReadExactExt;
pub use stream::ByteSink;
pub use stream::ByteSource;
pub use stream::IoError;
pub use writer::WriteAllExt;
