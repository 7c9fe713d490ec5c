pub mod error;
pub mod chunk_type;
pub mod chunk;
pub mod png;
pub mod png_util;
pub mod chunk_spec;

pub use error::ChunkError;
pub use chunk_type::ChunkType;
pub use chunk::Chunk;
pub use png::Png;
pub use png_util::chunk_headers;
