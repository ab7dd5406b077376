//! The `/unbridge` command: its checks of the target channel.

use vstd::prelude::*;
use crate::decimal::{
    decimal_value, is_i64_text, lemma_parse_int_value, IntErrorKind, parse_int, parse_i64,
};
use crate::emoji::{emoji_by_shortcode, lookup_emoji, with_glyph};
use crate::texts::{
    invalid_format_message, invalid_format_text, self_unbridge_message, self_unbridge_text,
};

verus! {

/// An answer to `/unbridge`.
#[derive(Debug, Clone, Copy, PartialEq, Eq, Structural)]
pub enum UnbridgeReply {
    /// The argument is not a channel identifier.
    InvalidFormat,
    /// The target is the channel where the command was given.
    SelfUnbridge,
}

/// The answer to `/unbridge` given in channel `current` with `argument`:
/// `None` when the command ends without one.
pub open spec fn unbridge_answer(current: u64, argument: Seq<char>) -> Option<UnbridgeReply> {
    match parse_int(argument) {
        Err(_) => Some(UnbridgeReply::InvalidFormat),
        Ok(target) => if current == target as u64 {
            Some(UnbridgeReply::SelfUnbridge)
        } else {
            None
        },
    }
}

/// Checks the target of `/unbridge`, given in channel `current` with
/// `argument`. An argument that reads as `0` names no channel, and the
/// command stops on it: it is left out.
pub fn unbridge(current: u64, argument: &str) -> (reply: Option<UnbridgeReply>)
    requires
        parse_int(argument@) != Ok::<i64, IntErrorKind>(0),
    ensures
        reply == unbridge_answer(current, argument@),
{
    match parse_i64(argument) {
        Err(_) => Some(UnbridgeReply::InvalidFormat),
        Ok(target) => if current == target as u64 {
            Some(UnbridgeReply::SelfUnbridge)
        } else {
            None
        },
    }
}

/// The text of an answer, with the glyph that it names.
pub open spec fn unbridge_reply_message(reply: UnbridgeReply) -> Option<Seq<char>> {
    match reply {
        UnbridgeReply::InvalidFormat => with_glyph("warning"@, |w| invalid_format_message(w)),
        UnbridgeReply::SelfUnbridge => with_glyph("no_entry"@, |e| self_unbridge_message(e)),
    }
}

/// The text of an answer; `None` when the emoji table lacks its glyph.
pub fn unbridge_reply_text(reply: UnbridgeReply) -> (text: Option<String>)
    ensures
        text matches Some(t) ==> unbridge_reply_message(reply) == Some(t@),
        text is None ==> unbridge_reply_message(reply) is None,
{
    match reply {
        UnbridgeReply::InvalidFormat => match lookup_emoji("warning") {
            Some(w) => Some(invalid_format_text(w.as_str())),
            None => None,
        },
        UnbridgeReply::SelfUnbridge => match lookup_emoji("no_entry") {
            Some(e) => Some(self_unbridge_text(e.as_str())),
            None => None,
        },
    }
}

/// What `/unbridge` answers, in terms of its argument text: a bad channel
/// identifier exactly when the text is not the decimal text of an `i64`;
/// otherwise a refusal exactly when the number is the channel of the
/// command, and nothing at all for any other channel.
pub proof fn lemma_unbridge_answers(current: u64, argument: Seq<char>)
    ensures
        (unbridge_answer(current, argument) == Some(UnbridgeReply::InvalidFormat)) <==> !is_i64_text(
            argument,
        ),
        (unbridge_answer(current, argument) == Some(UnbridgeReply::SelfUnbridge)) <==> (is_i64_text(
            argument,
        ) && (decimal_value(argument)->0 as i64) as u64 == current),
        unbridge_answer(current, argument) is None <==> (is_i64_text(argument) && (decimal_value(
            argument,
        )->0 as i64) as u64 != current),
        forall|t: i64|
            parse_int(argument) == Ok::<i64, IntErrorKind>(t) ==> unbridge_answer(current, argument)
                == if current == t as u64 {
                Some(UnbridgeReply::SelfUnbridge)
            } else {
                None
            },
{
    lemma_parse_int_value(argument);
}

/// A bad channel identifier is answered with the `warning` glyph, a
/// refusal with the `no_entry` glyph; each answer exists exactly when its
/// glyph does and opens with it.
pub proof fn lemma_unbridge_replies(reply: UnbridgeReply)
    ensures
        ({
            let code = match reply {
                UnbridgeReply::InvalidFormat => "warning"@,
                UnbridgeReply::SelfUnbridge => "no_entry"@,
            };
            &&& unbridge_reply_message(reply) is Some <==> emoji_by_shortcode(code) is Some
            &&& unbridge_reply_message(reply) is Some ==> unbridge_reply_message(reply)->0.take(
                emoji_by_shortcode(code)->0.len() as int,
            ) == emoji_by_shortcode(code)->0
        }),
{
    let code = match reply {
        UnbridgeReply::InvalidFormat => "warning"@,
        UnbridgeReply::SelfUnbridge => "no_entry"@,
    };
    if let Some(g) = emoji_by_shortcode(code) {
        assert(unbridge_reply_message(reply)->0.take(g.len() as int) =~= g);
    }
}

} // verus!
