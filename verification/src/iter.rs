//! The iterators over views: element by element, in chunks from the front or
//! from the back, and in overlapping windows.

pub mod chunks;
pub mod chunks_mut;
pub mod iter;
pub mod iter_mut;
pub mod rchunks;
pub mod rchunks_mut;
pub mod windows;

pub use chunks::Chunks;
pub use chunks_mut::ChunksMut;
pub use iter::Iter;
pub use iter_mut::IterMut;
pub use rchunks::RChunks;
pub use rchunks_mut::RChunksMut;
pub use windows::Windows;
