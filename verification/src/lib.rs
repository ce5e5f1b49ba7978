//! Typesetting of a structured curriculum vitae as LaTeX source.
//!
//! A [`record::CVInput`] is turned into one complete LaTeX document by
//! [`document::generate_latex`]. The layout is fixed: a preamble, the
//! personal details, then experience, education, skills, languages and
//! references, in that order. Every piece of text that comes from the
//! record passes through [`escape::escape`] on its way into the document,
//! so that no character of it is read as markup.
//!
//! What each function returns is stated over the text as a sequence of
//! characters; the proof functions beside them state what follows for
//! every record: that the order of entries is kept, what stands in for a
//! missing field, and that escaped text can be read back.

pub mod document;
pub mod escape;
pub mod field;
pub mod record;
pub mod section;
pub mod text;
