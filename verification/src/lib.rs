//! Fetch-and-extract pipeline for published talent-build pages.
//!
//! The library holds the verified core: the markup-extraction rule that
//! locates the first qualifying link in an HTML document and derives the
//! normalized identifier from it, and the classification of each HTTP
//! response into the caller-visible outcome. The asynchronous HTTP layer
//! (client, concurrency gate) lives outside the library and feeds it plain
//! values.

pub mod extract;
pub mod outcome;
