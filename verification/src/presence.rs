//! The activity line that the bot shows while it is online.

use vstd::prelude::*;
use crate::emoji::{lookup_emoji, with_glyph};
use crate::texts::{activity_message, activity_text};

verus! {

/// The activity line, with the glyph that it names.
pub open spec fn activity_status_message() -> Option<Seq<char>> {
    with_glyph("bridge_at_night"@, |b| activity_message(b))
}

/// The activity line; `None` when the emoji table lacks its glyph.
pub fn activity_status() -> (text: Option<String>)
    ensures
        text matches Some(t) ==> activity_status_message() == Some(t@),
        text is None ==> activity_status_message() is None,
{
    match lookup_emoji("bridge_at_night") {
        Some(b) => Some(activity_text(b.as_str())),
        None => None,
    }
}

} // verus!
