//! The `/list_bridges` command: the answer that lists every bridge that
//! involves a channel.

use vstd::prelude::*;
use crate::emoji::{emoji_by_shortcode, lookup_emoji, with_glyph};
use crate::models::ChannelPair;
use crate::decimal::{parse_int, signed_decimal, IntErrorKind};
use crate::texts::{
    bridge_line_message, bridge_line_text, lemma_bridge_line_shows_stored_ids,
    lemma_texts_name_their_channel, no_bridges_message,
    no_bridges_text,
};

verus! {

/// The answer that no bridge involves `channel`.
pub open spec fn no_bridges_reply_message(channel: i64) -> Option<Seq<char>> {
    with_glyph("interrobang"@, |g| no_bridges_message(g, channel))
}

/// The text of `no_bridges_reply_message`; `None` when the glyph is missing.
pub fn no_bridges_reply_text(channel: i64) -> (text: Option<String>)
    ensures
        text matches Some(t) ==> no_bridges_reply_message(channel) == Some(t@),
        text is None ==> no_bridges_reply_message(channel) is None,
{
    match lookup_emoji("interrobang") {
        Some(g) => Some(no_bridges_text(g.as_str(), channel)),
        None => None,
    }
}

/// The messages that answer `/list_bridges` in channel `current`, given the
/// stored pairs that involve it: one line per pair, in their order, or the
/// answer that there are none.
pub open spec fn list_bridges_messages(current: u64, pairs: Seq<ChannelPair>) -> Option<
    Seq<Seq<char>>,
> {
    if pairs.len() == 0 {
        match no_bridges_reply_message(current as i64) {
            Some(m) => Some(seq![m]),
            None => None,
        }
    } else {
        Some(pairs.map_values(|p: ChannelPair| bridge_line_message(p.channel1, p.channel2)))
    }
}

/// Answers `/list_bridges` in channel `current`, given the stored pairs that
/// involve it; `None` when the emoji table lacks the glyph that is needed.
pub fn list_bridges(current: u64, pairs: &Vec<ChannelPair>) -> (messages: Option<Vec<String>>)
    ensures
        messages matches Some(m) ==> list_bridges_messages(current, pairs@) == Some(
            m@.map_values(|t: String| t@),
        ),
        messages is None ==> list_bridges_messages(current, pairs@) is None,
{
    if pairs.len() == 0 {
        match no_bridges_reply_text(current as i64) {
            Some(t) => {
                let mut m: Vec<String> = Vec::new();
                m.push(t);
                proof {
                    assert(m@.map_values(|t: String| t@) =~= seq![m@[0]@]);
                }
                Some(m)
            },
            None => None,
        }
    } else {
        let mut m: Vec<String> = Vec::new();
        let n = pairs.len();
        for i in 0..n
            invariant
                n == pairs@.len(),
                m@.len() == i,
                forall|j: int|
                    0 <= j < i ==> (#[trigger] m@[j])@ == bridge_line_message(
                        pairs@[j].channel1,
                        pairs@[j].channel2,
                    ),
        {
            m.push(bridge_line_text(pairs[i].channel1, pairs[i].channel2));
        }
        proof {
            assert(m@.map_values(|t: String| t@) =~= pairs@.map_values(
                |p: ChannelPair| bridge_line_message(p.channel1, p.channel2),
            ));
        }
        Some(m)
    }
}

/// The list holds one line per stored pair, in their order, and line `k`
/// shows the two channel identifiers of pair `k` themselves: each number in
/// the line reads back to the stored one.
pub proof fn lemma_list_shows_every_pair(current: u64, pairs: Seq<ChannelPair>)
    requires
        pairs.len() > 0,
    ensures
        list_bridges_messages(current, pairs) is Some,
        list_bridges_messages(current, pairs)->0.len() == pairs.len(),
        forall|k: int|
            0 <= k < pairs.len() ==> (#[trigger] list_bridges_messages(current, pairs)->0[k])
                == "Channel ID `"@ + signed_decimal(pairs[k].channel1 as int) + "` => Channel ID `"@
                + signed_decimal(pairs[k].channel2 as int) + "`"@,
        forall|k: int|
            0 <= k < pairs.len() ==> parse_int(signed_decimal(#[trigger] pairs[k].channel1 as int))
                == Ok::<i64, IntErrorKind>(pairs[k].channel1) && parse_int(
                signed_decimal(pairs[k].channel2 as int),
            ) == Ok::<i64, IntErrorKind>(pairs[k].channel2),
{
    assert forall|k: int| 0 <= k < pairs.len() implies (#[trigger] list_bridges_messages(
        current,
        pairs,
    )->0[k]) == "Channel ID `"@ + signed_decimal(pairs[k].channel1 as int) + "` => Channel ID `"@
        + signed_decimal(pairs[k].channel2 as int) + "`"@ by {
        lemma_bridge_line_shows_stored_ids(pairs[k].channel1, pairs[k].channel2);
    }
    assert forall|k: int| 0 <= k < pairs.len() implies parse_int(
        signed_decimal(#[trigger] pairs[k].channel1 as int),
    ) == Ok::<i64, IntErrorKind>(pairs[k].channel1) && parse_int(
        signed_decimal(pairs[k].channel2 as int),
    ) == Ok::<i64, IntErrorKind>(pairs[k].channel2) by {
        lemma_bridge_line_shows_stored_ids(pairs[k].channel1, pairs[k].channel2);
    }
}

/// With no pair, the list is a single answer (when the `interrobang` glyph
/// exists) that names the channel of the command so that it reads back to
/// it.
pub proof fn lemma_list_without_pairs(current: u64)
    ensures
        list_bridges_messages(current, Seq::empty()) is Some <==> emoji_by_shortcode(
            "interrobang"@,
        ) is Some,
        list_bridges_messages(current, Seq::empty()) is Some ==> ({
            let answer = list_bridges_messages(current, Seq::empty())->0;
            &&& answer.len() == 1
            &&& answer[0] == emoji_by_shortcode("interrobang"@)->0
                + " No bridges found for `this` current Channel ID `"@ + signed_decimal(
                current as i64 as int,
            ) + "`"@
        }),
        parse_int(signed_decimal(current as i64 as int)) == Ok::<i64, IntErrorKind>(
            current as i64,
        ),
{
    if let Some(g) = emoji_by_shortcode("interrobang"@) {
        lemma_texts_name_their_channel(g, current as i64);
    } else {
        lemma_texts_name_their_channel(Seq::empty(), current as i64);
    }
}

} // verus!
