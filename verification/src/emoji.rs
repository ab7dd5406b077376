//! Emoji glyphs, looked up by their GitHub shortcodes in the table of the
//! `emojis` crate.

use vstd::prelude::*;

verus! {

/// What `emojis::get_by_shortcode` finds for a shortcode: the text of the
/// emoji, or `None` when the table has no such shortcode.
pub uninterp spec fn emoji_by_shortcode(shortcode: Seq<char>) -> Option<Seq<char>>;

/// Calls `emojis::get_by_shortcode` and copies out the text of the emoji that
/// it finds (`Emoji::as_str`, which is also what the emoji's `Display` writes).
/// The contract claims that the answer is the entry of a fixed table for this
/// shortcode, so that the same shortcode always gives the same answer; which
/// shortcodes the table holds, and their glyphs, is left unsaid.
#[verifier::external_body]
pub(crate) fn lookup_emoji(shortcode: &str) -> (glyph: Option<String>)
    ensures
        match glyph {
            Some(g) => emoji_by_shortcode(shortcode@) == Some(g@),
            None => emoji_by_shortcode(shortcode@) is None,
        },
{
    match emojis::get_by_shortcode(shortcode) {
        Some(emoji) => Some(emoji.as_str().to_string()),
        None => None,
    }
}

/// A text built around the glyph of `shortcode`, when the table has one.
pub open spec fn with_glyph(shortcode: Seq<char>, text: spec_fn(Seq<char>) -> Seq<char>) -> Option<
    Seq<char>,
> {
    match emoji_by_shortcode(shortcode) {
        Some(g) => Some(text(g)),
        None => None,
    }
}

/// A text built around the glyphs of two shortcodes, when the table has both.
pub open spec fn with_glyphs(
    first: Seq<char>,
    second: Seq<char>,
    text: spec_fn(Seq<char>, Seq<char>) -> Seq<char>,
) -> Option<Seq<char>> {
    match (emoji_by_shortcode(first), emoji_by_shortcode(second)) {
        (Some(a), Some(b)) => Some(text(a, b)),
        _ => None,
    }
}

} // verus!
