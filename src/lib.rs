//! Incremental construction of word-processing documents: an append-only
//! model of paragraphs and tables, an image pipeline that re-encodes large
//! pictures, and packaging of the finished model through `docx_rs`.

pub mod model;
pub mod imaging;
pub mod builder;
pub mod package;
