//! Relaying messages: a message posted in a bridged channel is copied, under
//! its author's name, to every channel that the channel is bridged to.

use vstd::prelude::*;
use vstd::string::*;
use vstd::utf8::encode_utf8;
use crate::texts::{mirror_message, mirror_text};

verus! {

/// The key under which the bridges of a channel are looked up when a message
/// is posted in it; `None` for a message of a bot, which is never relayed
/// (so that two bots, or the bot itself, cannot relay each other in a loop).
pub open spec fn relay_key(author_is_bot: bool, channel: u64) -> Option<i64> {
    if author_is_bot {
        None
    } else {
        Some(channel as i64)
    }
}

/// Decides whether a message posted in `channel` is relayed, and under which
/// key its bridges are looked up.
pub fn relay_source(author_is_bot: bool, channel: u64) -> (key: Option<i64>)
    ensures
        key == relay_key(author_is_bot, channel),
{
    if author_is_bot {
        None
    } else {
        Some(channel as i64)
    }
}

/// One copy of a relayed message.
#[derive(Debug, PartialEq, Eq)]
pub struct Mirror {
    /// The channel that receives the copy.
    pub channel: u64,
    /// The text of the copy.
    pub text: String,
}

/// The channel that a stored bridge `(channel1, channel2)` relays to.
pub open spec fn relay_target(pair: (i64, i64)) -> u64 {
    pair.1 as u64
}

/// The copies of a message by `author` with text `content`, one for each
/// bridge `(channel1, channel2)` found for its channel, in their order.
/// A bridge to channel `0` names no channel, and relaying stops on it: it is
/// left out.
pub fn relay_plan(pairs: &Vec<(i64, i64)>, author: &str, content: &str) -> (plan: Vec<Mirror>)
    requires
        forall|i: int| 0 <= i < pairs@.len() ==> (#[trigger] pairs@[i]).1 != 0,
    ensures
        plan@.len() == pairs@.len(),
        forall|i: int|
            0 <= i < plan@.len() ==> (#[trigger] plan@[i]).channel == relay_target(pairs@[i])
                && plan@[i].text@ == mirror_message(author@, content@),
        forall|i: int| 0 <= i < plan@.len() ==> (#[trigger] plan@[i]).channel != 0,
{
    let mut plan: Vec<Mirror> = Vec::new();
    let n = pairs.len();
    for i in 0..n
        invariant
            n == pairs@.len(),
            forall|j: int| 0 <= j < pairs@.len() ==> (#[trigger] pairs@[j]).1 != 0,
            plan@.len() == i,
            forall|j: int|
                0 <= j < i ==> (#[trigger] plan@[j]).channel == relay_target(pairs@[j])
                    && plan@[j].text@ == mirror_message(author@, content@),
            forall|j: int| 0 <= j < i ==> (#[trigger] plan@[j]).channel != 0,
    {
        let target = pairs[i].1;
        proof {
            assert(target != 0 ==> target as u64 != 0) by (bit_vector);
        }
        plan.push(Mirror { channel: target as u64, text: mirror_text(author, content) });
    }
    plan
}

/// `s` cut to its first `width` characters, then filled with spaces up to
/// `width`: `format!("{:<width$}", ..)` of the cut text.
pub open spec fn fit_width(s: Seq<char>, width: nat) -> Seq<char> {
    let head = if s.len() <= width {
        s
    } else {
        s.take(width as int)
    };
    head + Seq::new((width - head.len()) as nat, |i: int| ' ')
}

/// The author's name as the log shows it: eight characters wide.
pub open spec fn author_preview(author: Seq<char>) -> Seq<char> {
    fit_width(author, 8)
}

/// A message as the log shows it: sixteen characters wide; a message longer
/// than sixteen bytes loses its sixteenth character to `...`.
pub open spec fn message_preview(content: Seq<char>) -> Seq<char> {
    let padded = fit_width(content, 16);
    if encode_utf8(content).len() > 16 {
        padded.take(15) + "..."@
    } else {
        padded
    }
}

fn fit_width_text(s: &str, width: usize) -> (t: String)
    ensures
        t@ == fit_width(s@, width as nat),
{
    let n = s.unicode_len();
    let k = if n <= width {
        n
    } else {
        width
    };
    let mut t = s.substring_char(0, k).to_owned();
    proof {
        if n <= width {
            assert(s@.subrange(0, k as int) =~= s@);
        }
    }
    let ghost head = t@;
    let mut filled = k;
    while filled < width
        invariant
            k <= filled <= width,
            head.len() == k,
            t@ == head + Seq::new((filled - k) as nat, |i: int| ' '),
        decreases width - filled,
    {
        t.append(" ");
        proof {
            reveal_strlit(" ");
            assert(head + Seq::new((filled + 1 - k) as nat, |i: int| ' ') =~= head + Seq::new(
                (filled - k) as nat,
                |i: int| ' ',
            ) + seq![' ']);
        }
        filled = filled + 1;
    }
    t
}

/// The author's name and the message as the log line about a relayed
/// message shows them.
pub fn log_preview(author: &str, content: &str) -> (preview: (String, String))
    ensures
        preview.0@ == author_preview(author@),
        preview.1@ == message_preview(content@),
{
    let author_part = fit_width_text(author, 8);
    let padded = fit_width_text(content, 16);
    if content.as_bytes().len() > 16 {
        let mut shown = padded.as_str().substring_char(0, 15).to_owned();
        shown.append("...");
        (author_part, shown)
    } else {
        (author_part, padded)
    }
}

/// Where messages go: a bot's message is never looked up; a person's is
/// looked up under the channel where it was posted (the key reads back to
/// that channel), and a bridge `(channel1, channel2)` relays to `channel2`
/// itself, one way only.
pub proof fn lemma_relay_routes(channel: u64, pair: (i64, i64))
    ensures
        relay_key(true, channel) is None,
        relay_key(false, channel) is Some,
        relay_key(false, channel)->0 as u64 == channel,
        relay_target(pair) as i64 == pair.1,
{
    assert((channel as i64) as u64 == channel) by (bit_vector);
    let t = pair.1;
    assert((t as u64) as i64 == t) by (bit_vector);
}

/// The fitted text is exactly `width` characters: the first characters of
/// `s` (all of them when `s` is short enough), then spaces.
pub proof fn lemma_fit_width(s: Seq<char>, width: nat)
    ensures
        fit_width(s, width).len() == width,
        forall|i: int|
            0 <= i < width ==> #[trigger] fit_width(s, width)[i] == if i < s.len() {
                s[i]
            } else {
                ' '
            },
{
}

/// The log shows the author in eight characters, and the message in sixteen,
/// or, for a message longer than sixteen bytes, in its first fifteen
/// characters (padded with spaces) followed by `...`.
pub proof fn lemma_previews(author: Seq<char>, content: Seq<char>)
    ensures
        author_preview(author).len() == 8,
        encode_utf8(content).len() <= 16 ==> message_preview(content).len() == 16,
        encode_utf8(content).len() > 16 ==> message_preview(content).len() == 18
            && message_preview(content).subrange(15, 18) == seq!['.', '.', '.'],
        forall|i: int|
            0 <= i < 15 ==> #[trigger] message_preview(content)[i] == if i < content.len() {
                content[i]
            } else {
                ' '
            },
{
    lemma_fit_width(author, 8);
    lemma_fit_width(content, 16);
    reveal_strlit("...");
    if encode_utf8(content).len() > 16 {
        let p = fit_width(content, 16).take(15) + "..."@;
        assert(p.subrange(15, 18) =~= seq!['.', '.', '.']);
    }
}

} // verus!
