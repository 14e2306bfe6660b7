//! Session layer for streaming LAZ compression and decompression of
//! fixed-size LiDAR point records.
//!
//! The entropy coder itself is a separate engine. This crate holds what sits
//! between raw point buffers and the chunked byte stream: the record schema
//! that fixes the layout of one point, the compressor session with its output
//! buffer and its two states, and the decompressor session. Every call that
//! the engine answers is split in two here: a check that says whether the
//! engine may be asked now, and a transition that takes what the engine
//! handed back and says what the session holds afterwards.

pub mod compressor;
pub mod decompressor;
pub mod engine;
pub mod error;
pub mod round_trip;
pub mod schema;

pub use crate::compressor::CompressorState;
pub use crate::compressor::VlrCompressor;
pub use crate::decompressor::VlrDecompressor;
pub use crate::engine::Content;
pub use crate::engine::LazPerf_BufferResult;
pub use crate::engine::LazPerf_Error;
pub use crate::engine::LazPerf_SizedBuffer;
pub use crate::error::Error;
pub use crate::schema::Field;
pub use crate::schema::RecordSchema;
