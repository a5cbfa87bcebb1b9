//! The CSS class of each liturgical colour's season dot.

use vstd::prelude::*;

use crate::text::str_eq;

verus! {

pub open spec fn season_dot_class_text(hex: Seq<char>) -> Seq<char> {
    if hex == "#6B21A8"@ {
        "season-dot-6b21a8"@
    } else if hex == "#B45309"@ {
        "season-dot-b45309"@
    } else if hex == "#15803D"@ {
        "season-dot-15803d"@
    } else if hex == "#B91C1C"@ {
        "season-dot-b91c1c"@
    } else if hex == "#111827"@ {
        "season-dot-111827"@
    } else {
        "season-dot-15803d"@
    }
}

/// The pre-registered class for a liturgical colour hex; green for any
/// other value.
pub fn season_dot_class(hex: &str) -> (r: &'static str)
    ensures
        r@ == season_dot_class_text(hex@),
{
    if str_eq(hex, "#6B21A8") {
        "season-dot-6b21a8"
    } else if str_eq(hex, "#B45309") {
        "season-dot-b45309"
    } else if str_eq(hex, "#15803D") {
        "season-dot-15803d"
    } else if str_eq(hex, "#B91C1C") {
        "season-dot-b91c1c"
    } else if str_eq(hex, "#111827") {
        "season-dot-111827"
    } else {
        "season-dot-15803d"
    }
}

} // verus!
