//! Memory-aware adaptive chunking of byte sources.
//!
//! A reader pulls a source in bounded chunks. Before each read a sizing
//! policy picks the next target size from the sizing mode, the throughput
//! of the previous read, the size of the source and the memory that is
//! available right now; the target never exceeds 85% of that memory.
//!
//! Two front-ends share the same cycle: [`iterator::FileIter`], a blocking
//! pull reader, and [`stream::FileStream`], whose reads are handed to a
//! background unit of work together with exclusive ownership of the source.

pub mod data_chunk;
pub mod data_size_format;
pub mod memory;
pub mod source;
pub mod pack;
pub mod iterator;
pub mod stream;
