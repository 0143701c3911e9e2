//! RAW image reading: the decoded-frame type and the reader collaborator
//! trait.

pub mod reader;
pub mod types;

pub use reader::RawImageReader;
pub use types::RawImageData;
