//! Extraction core for a line-oriented dictionary export: classifies code
//! points, sanitizes text fragments, decomposes headline records into reading
//! and script form, extracts lexical fields from styled-markup blocks, detects
//! the boundary between the lexicon and the trailing cross-reference region,
//! resolves redirect records, and assembles structured entries record by
//! record.

pub mod assemble;
pub mod boundary;
pub mod classify;
pub mod cleaner;
pub mod entry;
pub mod headline;
pub mod markup;
pub mod parser;
pub mod redirect;
pub mod sanitize;
pub mod search;
pub mod text;
pub mod web;
