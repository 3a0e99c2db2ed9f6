//! Packs a PNG image into a single-entry Windows icon container.
//!
//! `png_parser` checks the PNG signature and decodes the fields of the
//! header chunk; `ico_writer` assembles the icon directory, one directory
//! entry, and the raw PNG stream into the output bytes.

pub mod ico_writer;
pub mod png_parser;
