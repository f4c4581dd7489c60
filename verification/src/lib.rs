//! Planning core for memory mapped IO.
//!
//! A region of device or anonymous memory is mapped page by page, while the
//! value stored in it sits at a byte-exact address. This crate decides what
//! is asked of the operating system and what an answer means: which window a
//! mapping request covers, where in the window the value lies, and which
//! window is handed back on release. The calls themselves are made by the
//! caller, who reports their results.

pub mod laws;
pub mod map;
mod os;
pub mod page;
pub mod request;

pub use map::MemoryMap;
pub use map::RawPtr;
pub use page::PageSize;
pub use request::Capability;
pub use request::Flags;
pub use request::MapRequest;
pub use request::OpenRequest;
pub use request::UnmapRequest;
