//! Decoder for OFX (Open Financial Exchange) version 1.x documents.
//!
//! OFX 1.x is an SGML-flavored, tag-delimited financial-data interchange
//! format.  A document consists of a fixed `KEY:VALUE` header block followed
//! by a markup body whose leaf elements may omit their closing tags.  This
//! crate parses the header, builds an ordered element tree from the body,
//! and decodes that tree into strongly typed values, rejecting malformed
//! input with a closed set of structured errors.

pub mod datetime;
pub mod de;
pub mod element;
pub mod error;
pub mod header;
pub mod ofx;
pub mod text;

pub use de::from_str;
