//! Rendering of a single field that may be missing.

use vstd::prelude::*;
use crate::escape::{escape, escape_text};
use crate::text::optional_text;

verus! {

/// What stands for a missing phone number, address or level.
pub const NOT_AVAILABLE: &'static str = "N/A";

/// What stands for the end date of a position that is still held.
pub const PRESENT: &'static str = "Present";

/// Where a link leads that has no target: nowhere, but it stays a link.
pub const ANCHOR: &'static str = "#";

/// What stands for a missing objective: nothing.
pub const BLANK: &'static str = "";

/// What is typeset for a field: its text, escaped, where it has one, and
/// else the fallback as it stands. The fallback is markup chosen for the
/// place it goes to, so it is not escaped. A field that holds the empty
/// text has a text, and the fallback does not stand in for it.
pub open spec fn render_text(value: Option<Seq<char>>, fallback: Seq<char>) -> Seq<char> {
    match value {
        Some(text) => escape_text(text),
        None => fallback,
    }
}

/// Renders `value` for embedding in the document, with `fallback` standing
/// in for a missing value.
pub fn render(value: &Option<String>, fallback: &str) -> (out: String)
    ensures
        out@ == render_text(optional_text(*value), fallback@),
{
    match value {
        Some(text) => escape(text.as_str()),
        None => String::from_str(fallback),
    }
}

/// Appends `value`, rendered with `fallback`, to `out`.
pub(crate) fn append_rendered(out: &mut String, value: &Option<String>, fallback: &str)
    ensures
        final(out)@ == old(out)@ + render_text(optional_text(*value), fallback@),
{
    let rendered = render(value, fallback);
    out.append(rendered.as_str());
}

} // verus!
