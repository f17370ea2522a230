//! Conversion of byte streams between character encodings, and detection of the
//! encoding of an unlabelled byte sample.
//!
//! A [`Translator`] converts between any two [`Encoding`]s: byte by byte
//! through a [`TranslationTable`] where both are single-byte code pages,
//! through UTF-8 where either is UTF-8, UTF-16 or another multibyte encoding.
//! An [`detection::EncodingDetector`] proposes the encoding of a sample.
//!
//! Every function states what it returns over mathematical models: character
//! maps as sequences of 256 optional characters, conversions as functions from
//! bytes to bytes or an error, confidences as exact fractions. The module
//! [`laws`] holds what follows for the library as a whole.

pub mod bom;
pub mod charmap;
pub mod confidence;
pub mod detection;
pub mod encoding;
pub mod error;
pub mod hint;
pub mod labels;
pub mod laws;
pub mod multibyte;
pub mod pages;
pub mod ranking;
pub mod table;
pub mod tables;
pub mod translator;
pub mod utf16;
pub mod utf8;

pub use encoding::Encoding;
pub use error::Error;
pub use table::TranslationTable;
pub use translator::{StreamingTranslator, Translator};
