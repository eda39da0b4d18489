//! Structural decoder for Windows Portable Executable (PE) images.
//!
//! The crate decodes the on-disk header chain of a PE binary — DOS header,
//! NT signature, COFF file header, 32/64-bit optional header, section table —
//! and walks the import and export directory tables, all from an in-memory
//! byte buffer and entirely through bounds-checked reads. Every routine
//! returns a typed [`errors::Error`] on malformed input rather than panicking.

pub mod dos_header;
pub mod errors;
pub mod export_table;
pub mod file_header;
pub mod headers;
pub mod import_table;
pub mod optional_header;
pub mod parser;
pub mod section_header;
pub mod utils;
pub mod view;

pub use errors::Error;
