//! The `/unbridge_all` command: remove every stored bridge that involves the
//! channel where it is given, tell the other side of each removed bridge,
//! and report on every pair.
//!
//! The command alternates between decisions and outside work (removing a
//! pair, posting a notice): a `Sweep` holds where it stands, and each step
//! gives the actions to perform next.

use vstd::prelude::*;
use vstd::string::*;
use crate::decimal::{parse_int, signed_decimal, IntErrorKind};
use crate::emoji::{emoji_by_shortcode, lookup_emoji, with_glyph};
use crate::models::ChannelPair;
use crate::texts::{
    channel_label, channel_label_text, sweep_header_message, sweep_header_text,
    unbridge_failed_line_message, unbridge_failed_line_text, unbridge_notice_message,
    unbridge_notice_text, unbridged_line_message, unbridged_line_text,
    lemma_texts_name_their_channel,
};

verus! {

/// Something for the caller to do.
#[derive(Debug, Clone, Copy, PartialEq, Eq, Structural)]
pub enum SweepAction {
    /// Answer that no bridge involves `channel` (see
    /// `crate::listing::no_bridges_reply_text`); the command is over.
    ReplyNoBridges { channel: i64 },
    /// Remove the stored pair `id`, then tell `Sweep::record` whether that worked.
    Delete { id: i32 },
    /// Tell `target` that the owner of channel `initiator` removed the bridge
    /// (see `unbridge_notice_reply_text`).
    Notify { target: u64, initiator: i64 },
    /// Post the report (`Sweep::report_text`, in the pieces of `report_chunks`);
    /// the command is over.
    SendReport,
}

/// The command in progress.
#[derive(Debug)]
pub struct Sweep {
    current: i64,
    pairs: Vec<ChannelPair>,
    outcomes: Vec<bool>,
}

/// What a `Sweep` stands for: the channel of the command, the pairs that
/// involve it, and whether each pair handled so far was removed.
pub struct SweepView {
    pub current: i64,
    pub pairs: Seq<ChannelPair>,
    pub outcomes: Seq<bool>,
}

impl View for Sweep {
    type V = SweepView;

    closed spec fn view(&self) -> SweepView {
        SweepView { current: self.current, pairs: self.pairs@, outcomes: self.outcomes@ }
    }
}

/// Every pair names a real channel (not `0`) as its target.
pub open spec fn targets_are_channels(pairs: Seq<ChannelPair>) -> bool {
    forall|i: int| 0 <= i < pairs.len() ==> (#[trigger] pairs[i]).channel2 != 0
}

/// The actions that follow the outcome `deleted` for the next pair.
pub open spec fn sweep_actions_after(v: SweepView, deleted: bool) -> Seq<SweepAction> {
    let k = v.outcomes.len() as int;
    let pair = v.pairs[k];
    let notify = if deleted {
        seq![SweepAction::Notify { target: pair.channel2 as u64, initiator: v.current }]
    } else {
        Seq::empty()
    };
    let next = if k + 1 < v.pairs.len() {
        seq![SweepAction::Delete { id: v.pairs[k + 1].id }]
    } else {
        seq![SweepAction::SendReport]
    };
    notify + next
}

/// The report line for one pair, with the glyph that it names.
pub open spec fn sweep_line_message(pair: ChannelPair, deleted: bool, current: i64) -> Option<
    Seq<char>,
> {
    let label1 = channel_label(pair.channel1, current);
    let label2 = channel_label(pair.channel2, current);
    if deleted {
        with_glyph("boom"@, |b| unbridged_line_message(b, label1, label2))
    } else {
        with_glyph("x"@, |x| unbridge_failed_line_message(x, label1, label2))
    }
}

/// The report lines for the pairs handled so far, in order.
pub open spec fn sweep_lines_message(
    current: i64,
    pairs: Seq<ChannelPair>,
    outcomes: Seq<bool>,
) -> Option<Seq<char>>
    decreases outcomes.len(),
{
    if outcomes.len() == 0 {
        Some(Seq::empty())
    } else {
        let k = outcomes.len() - 1;
        match (
            sweep_lines_message(current, pairs, outcomes.drop_last()),
            sweep_line_message(pairs[k], outcomes[k], current),
        ) {
            (Some(lines), Some(line)) => Some(lines + line),
            _ => None,
        }
    }
}

/// The report: its opening, then a line per pair handled.
pub open spec fn sweep_report_message(v: SweepView) -> Option<Seq<char>> {
    match sweep_lines_message(v.current, v.pairs, v.outcomes) {
        Some(lines) => Some(sweep_header_message(v.current) + lines),
        None => None,
    }
}

/// The notice for the other side of a removed pair.
pub open spec fn unbridge_notice_reply_message(initiator: i64) -> Option<Seq<char>> {
    with_glyph("warning"@, |w| unbridge_notice_message(w, initiator))
}

/// Starts `/unbridge_all` in channel `current`, given the stored pairs that
/// involve it. When there are none, the command answers so and is over;
/// otherwise the first pair is removed. The table never holds a pair whose
/// target is `0` (`/bridge` stops on such a target), and the command stops
/// on one: it is left out.
pub fn unbridge_all(current: u64, pairs: Vec<ChannelPair>) -> (r: (Sweep, Vec<SweepAction>))
    requires
        targets_are_channels(pairs@),
    ensures
        r.0.wf(),
        r.0@ == (SweepView { current: current as i64, pairs: pairs@, outcomes: Seq::empty() }),
        r.1@ == if pairs@.len() == 0 {
            seq![SweepAction::ReplyNoBridges { channel: current as i64 }]
        } else {
            seq![SweepAction::Delete { id: pairs@[0].id }]
        },
        r.1@ == sweep_run_actions(current as i64, pairs@, Seq::empty()),
{
    let mut actions: Vec<SweepAction> = Vec::new();
    if pairs.len() == 0 {
        actions.push(SweepAction::ReplyNoBridges { channel: current as i64 });
    } else {
        actions.push(SweepAction::Delete { id: pairs[0].id });
    }
    let sweep = Sweep { current: current as i64, pairs, outcomes: Vec::new() };
    proof {
        assert(sweep@.outcomes =~= Seq::<bool>::empty());
    }
    (sweep, actions)
}

impl Sweep {
    /// The pairs handled so far are a prefix of the pairs, all of which name
    /// a real target channel.
    pub open spec fn wf(&self) -> bool {
        &&& self@.outcomes.len() <= self@.pairs.len()
        &&& targets_are_channels(self@.pairs)
    }

    /// Whether every pair has been handled.
    pub fn is_finished(&self) -> (b: bool)
        ensures
            b == (self@.outcomes.len() == self@.pairs.len()),
    {
        self.outcomes.len() == self.pairs.len()
    }

    /// Records whether removing the next pair worked, and gives what to do
    /// next: when it worked, notify its target channel; then remove the
    /// following pair, or send the report after the last one.
    pub fn record(&mut self, deleted: bool) -> (actions: Vec<SweepAction>)
        requires
            old(self).wf(),
            old(self)@.outcomes.len() < old(self)@.pairs.len(),
        ensures
            final(self).wf(),
            final(self)@ == (SweepView {
                current: old(self)@.current,
                pairs: old(self)@.pairs,
                outcomes: old(self)@.outcomes.push(deleted),
            }),
            actions@ == sweep_actions_after(old(self)@, deleted),
            sweep_run_actions(old(self)@.current, old(self)@.pairs, final(self)@.outcomes)
                == sweep_run_actions(old(self)@.current, old(self)@.pairs, old(self)@.outcomes)
                + actions@,
            forall|i: int|
                0 <= i < actions@.len() ==> (#[trigger] actions@[i] matches SweepAction::Notify {
                    target,
                    ..
                } ==> target != 0),
    {
        let k = self.outcomes.len();
        let pair = self.pairs[k];
        let mut actions: Vec<SweepAction> = Vec::new();
        if deleted {
            let target = pair.channel2;
            proof {
                assert(self@.pairs[k as int] == pair);
                assert(target != 0 ==> target as u64 != 0) by (bit_vector);
            }
            actions.push(SweepAction::Notify { target: target as u64, initiator: self.current });
        }
        let more = k < self.pairs.len() - 1;
        self.outcomes.push(deleted);
        if more {
            actions.push(SweepAction::Delete { id: self.pairs[k + 1].id });
        } else {
            actions.push(SweepAction::SendReport);
        }
        proof {
            let ghost v = old(self)@;
            assert(actions@ =~= sweep_actions_after(v, deleted));
            assert(self@.outcomes.drop_last() =~= v.outcomes);
        }
        actions
    }

    /// The report on the pairs handled so far; `None` when the emoji table
    /// lacks a glyph that it needs.
    pub fn report_text(&self) -> (text: Option<String>)
        requires
            self.wf(),
        ensures
            text matches Some(t) ==> sweep_report_message(self@) == Some(t@),
            text is None ==> sweep_report_message(self@) is None,
    {
        let ghost v = self@;
        let mut text = sweep_header_text(self.current);
        let n = self.outcomes.len();
        let ghost mut lines: Seq<char> = Seq::empty();
        let mut i: usize = 0;
        proof {
            assert(v.outcomes.take(0) =~= Seq::<bool>::empty());
        }
        while i < n
            invariant
                v == self@,
                n == v.outcomes.len(),
                n <= v.pairs.len(),
                i <= n,
                sweep_lines_message(v.current, v.pairs, v.outcomes.take(i as int)) == Some(lines),
                text@ == sweep_header_message(v.current) + lines,
            decreases n - i,
        {
            let pair = self.pairs[i];
            let deleted = self.outcomes[i];
            let label1 = channel_label_text(pair.channel1, self.current);
            let label2 = channel_label_text(pair.channel2, self.current);
            proof {
                assert(v.pairs[i as int] == pair);
                assert(v.outcomes[i as int] == deleted);
                assert(v.outcomes.take(i + 1).drop_last() =~= v.outcomes.take(i as int));
                assert(v.outcomes.take(i + 1)[i as int] == deleted);
            }
            let glyph = if deleted {
                lookup_emoji("boom")
            } else {
                lookup_emoji("x")
            };
            match glyph {
                Some(g) => {
                    let line = if deleted {
                        unbridged_line_text(g.as_str(), label1.as_str(), label2.as_str())
                    } else {
                        unbridge_failed_line_text(g.as_str(), label1.as_str(), label2.as_str())
                    };
                    text.append(line.as_str());
                    proof {
                        lines = lines + line@;
                    }
                },
                None => {
                    proof {
                        lemma_missing_line_persists(v.current, v.pairs, v.outcomes, i + 1);
                        assert(v.outcomes.take(n as int) =~= v.outcomes);
                    }
                    return None;
                },
            }
            i = i + 1;
        }
        proof {
            assert(v.outcomes.take(n as int) =~= v.outcomes);
        }
        Some(text)
    }
}

/// Once a line of the report cannot be written, neither can the report.
proof fn lemma_missing_line_persists(
    current: i64,
    pairs: Seq<ChannelPair>,
    outcomes: Seq<bool>,
    k: int,
)
    requires
        0 <= k <= outcomes.len(),
        sweep_lines_message(current, pairs, outcomes.take(k)) is None,
    ensures
        sweep_lines_message(current, pairs, outcomes.take(outcomes.len() as int)) is None,
    decreases outcomes.len() - k,
{
    if k < outcomes.len() {
        assert(outcomes.take(k + 1).drop_last() =~= outcomes.take(k));
        lemma_missing_line_persists(current, pairs, outcomes, k + 1);
    }
}

/// The text of `unbridge_notice_reply_message`; `None` when the glyph is missing.
pub fn unbridge_notice_reply_text(initiator: i64) -> (text: Option<String>)
    ensures
        text matches Some(t) ==> unbridge_notice_reply_message(initiator) == Some(t@),
        text is None ==> unbridge_notice_reply_message(initiator) is None,
{
    match lookup_emoji("warning") {
        Some(w) => Some(unbridge_notice_text(w.as_str(), initiator)),
        None => None,
    }
}

/// A report longer than this many bytes is posted in pieces.
pub const REPORT_LIMIT: usize = 2000;

/// The size, in bytes, of the pieces of a long report.
pub const PIECE_SIZE: usize = 1900;

/// How many pieces a long report of `len` bytes is cut into.
pub open spec fn piece_count(len: int) -> int {
    (len - 1) / (PIECE_SIZE as int) + 1
}

/// Where piece `k` of a long report of `len` bytes ends.
pub open spec fn piece_end(k: int, len: int) -> int {
    if (PIECE_SIZE as int) * (k + 1) < len {
        (PIECE_SIZE as int) * (k + 1)
    } else {
        len
    }
}

/// The pieces in which a report is posted: the whole report when it is at
/// most `REPORT_LIMIT` bytes long, otherwise its bytes cut into pieces of
/// `PIECE_SIZE` bytes, the last one shorter (as `<[u8]>::chunks` cuts them).
pub open spec fn report_pieces(bytes: Seq<u8>) -> Seq<Seq<u8>> {
    if bytes.len() > REPORT_LIMIT {
        Seq::new(
            piece_count(bytes.len() as int) as nat,
            |k: int| bytes.subrange((PIECE_SIZE as int) * k, piece_end(k, bytes.len() as int)),
        )
    } else {
        seq![bytes]
    }
}

fn copy_bytes(bytes: &[u8], from: usize, to: usize) -> (v: Vec<u8>)
    requires
        from <= to <= bytes@.len(),
    ensures
        v@ == bytes@.subrange(from as int, to as int),
{
    let mut v: Vec<u8> = Vec::new();
    let mut i = from;
    while i < to
        invariant
            from <= i <= to,
            to <= bytes@.len(),
            v@ == bytes@.subrange(from as int, i as int),
        decreases to - i,
    {
        v.push(bytes[i]);
        proof {
            assert(v@ =~= bytes@.subrange(from as int, i + 1));
        }
        i = i + 1;
    }
    v
}

/// The bytes of the report cut into the pieces in which it is posted (each
/// piece is turned back into text, lossily where a cut splits a character,
/// when it is sent).
pub fn report_chunks(report: &str) -> (chunks: Vec<Vec<u8>>)
    ensures
        chunks@.map_values(|c: Vec<u8>| c@) == report_pieces(report.spec_bytes()),
{
    let bytes = report.as_bytes();
    let len = bytes.len();
    let mut chunks: Vec<Vec<u8>> = Vec::new();
    if len <= REPORT_LIMIT {
        chunks.push(copy_bytes(bytes, 0, len));
        proof {
            assert(bytes@.subrange(0, len as int) =~= bytes@);
            assert(chunks@.map_values(|c: Vec<u8>| c@) =~= report_pieces(report.spec_bytes()));
        }
        return chunks;
    }
    let count = (len - 1) / PIECE_SIZE + 1;
    let mut k: usize = 0;
    while k < count
        invariant
            len == bytes@.len(),
            len > REPORT_LIMIT,
            count == piece_count(len as int),
            k <= count,
            chunks@.len() == k,
            forall|j: int|
                0 <= j < k ==> (#[trigger] chunks@[j])@ == bytes@.subrange(
                    (PIECE_SIZE as int) * j,
                    piece_end(j, len as int),
                ),
        decreases count - k,
    {
        proof {
            lemma_piece_bounds(len as int, k as int);
        }
        let start = k * PIECE_SIZE;
        let end = if len - start > PIECE_SIZE {
            start + PIECE_SIZE
        } else {
            len
        };
        chunks.push(copy_bytes(bytes, start, end));
        k = k + 1;
    }
    proof {
        assert(chunks@.map_values(|c: Vec<u8>| c@) =~= report_pieces(report.spec_bytes()));
    }
    chunks
}

/// Every piece but the last starts and ends inside the report.
proof fn lemma_piece_bounds(len: int, k: int)
    requires
        len > 0,
        0 <= k < piece_count(len),
    ensures
        (PIECE_SIZE as int) * k < len,
        k + 1 < piece_count(len) ==> (PIECE_SIZE as int) * (k + 1) < len,
        k + 1 == piece_count(len) ==> (PIECE_SIZE as int) * (k + 1) >= len,
{
    let q = (len - 1) / 1900;
    assert(1900 * q <= len - 1 && len - 1 < 1900 * (q + 1)) by (nonlinear_arith)
        requires
            q == (len - 1) / 1900,
            len > 0,
    ;
    assert(1900 * k <= 1900 * q) by (nonlinear_arith)
        requires
            k <= q,
    ;
    if k + 1 < q + 1 {
        assert(1900 * (k + 1) <= 1900 * q) by (nonlinear_arith)
            requires
                k + 1 <= q,
        ;
    }
}

/// Posting the pieces of a report posts the whole report, in order, in
/// pieces of at most `REPORT_LIMIT` bytes each.
pub proof fn lemma_report_pieces_reassemble(bytes: Seq<u8>)
    ensures
        report_pieces(bytes).flatten() == bytes,
        forall|k: int|
            0 <= k < report_pieces(bytes).len() ==> (#[trigger] report_pieces(bytes)[k]).len()
                <= REPORT_LIMIT,
        bytes.len() <= 2000 ==> report_pieces(bytes).len() == 1,
        bytes.len() > 2000 ==> forall|k: int|
            0 <= k < report_pieces(bytes).len() - 1 ==> (#[trigger] report_pieces(bytes)[k]).len()
                == 1900,
        bytes.len() > 2000 ==> 0 < report_pieces(bytes).last().len() <= 1900,
{
    let pieces = report_pieces(bytes);
    if bytes.len() > REPORT_LIMIT {
        let len = bytes.len() as int;
        let count = piece_count(len);
        assert forall|k: int| 0 <= k < pieces.len() implies (#[trigger] pieces[k]).len()
            <= REPORT_LIMIT by {
            lemma_piece_bounds(len, k);
        }
        assert forall|k: int| 0 <= k < pieces.len() - 1 implies (#[trigger] pieces[k]).len()
            == 1900 by {
            lemma_piece_bounds(len, k);
        }
        lemma_pieces_prefix(bytes, count);
        assert(pieces.take(count) =~= pieces);
        lemma_piece_bounds(len, count - 1);
        assert(bytes.subrange(0, len) =~= bytes);
    } else {
        pieces.lemma_flatten_singleton();
    }
}

/// The first `n` pieces of a long report are its first bytes.
proof fn lemma_pieces_prefix(bytes: Seq<u8>, n: int)
    requires
        bytes.len() > REPORT_LIMIT,
        0 <= n <= piece_count(bytes.len() as int),
    ensures
        report_pieces(bytes).take(n).flatten() == bytes.subrange(
            0,
            if n == 0 {
                0
            } else {
                piece_end(n - 1, bytes.len() as int)
            },
        ),
    decreases n,
{
    let pieces = report_pieces(bytes);
    let len = bytes.len() as int;
    if n == 0 {
        assert(pieces.take(0) =~= Seq::<Seq<u8>>::empty());
        assert(bytes.subrange(0, 0) =~= Seq::<u8>::empty());
    } else {
        lemma_pieces_prefix(bytes, n - 1);
        assert(pieces.take(n) =~= pieces.take(n - 1).push(pieces[n - 1]));
        pieces.take(n - 1).lemma_flatten_push(pieces[n - 1]);
        lemma_piece_bounds(len, n - 1);
        if n > 1 {
            lemma_piece_bounds(len, n - 2);
        }
        let start = if n == 1 {
            0
        } else {
            piece_end(n - 2, len)
        };
        assert(start == 1900 * (n - 1));
        assert(bytes.subrange(0, start) + bytes.subrange(start, piece_end(n - 1, len))
            =~= bytes.subrange(0, piece_end(n - 1, len)));
    }
}

/// The other side of a removed bridge is told: when the pair runs from the
/// channel of the command to another channel, a successful removal is
/// followed first by a notice to that other channel, signed with the
/// channel of the command. (For a pair that runs the other way, into the
/// channel of the command, the notice goes to its second channel all the
/// same, that is, to the channel of the command.)
pub proof fn lemma_notice_reaches_other_side(v: SweepView)
    requires
        v.outcomes.len() < v.pairs.len(),
        v.pairs[v.outcomes.len() as int].channel1 == v.current,
        v.pairs[v.outcomes.len() as int].channel2 != v.current,
    ensures
        ({
            let pair = v.pairs[v.outcomes.len() as int];
            &&& sweep_actions_after(v, true)[0] == SweepAction::Notify {
                target: pair.channel2 as u64,
                initiator: v.current,
            }
            &&& (pair.channel2 as u64) as i64 != v.current
            &&& !(sweep_actions_after(v, false)[0] is Notify)
        }),
{
    let pair = v.pairs[v.outcomes.len() as int];
    let c2 = pair.channel2;
    let cur = v.current;
    assert(c2 != cur ==> (c2 as u64) as i64 != cur) by (bit_vector);
}

/// The removals that a list of actions asks for, in order.
pub open spec fn deleted_ids(actions: Seq<SweepAction>) -> Seq<i32>
    decreases actions.len(),
{
    if actions.len() == 0 {
        Seq::empty()
    } else {
        let rest = deleted_ids(actions.drop_first());
        match actions[0] {
            SweepAction::Delete { id } => seq![id] + rest,
            _ => rest,
        }
    }
}

/// Every action of a sweep of `pairs` in channel `current`, from its start
/// (`unbridge_all`) through the recording of `outcomes` (`Sweep::record`).
pub open spec fn sweep_run_actions(
    current: i64,
    pairs: Seq<ChannelPair>,
    outcomes: Seq<bool>,
) -> Seq<SweepAction>
    decreases outcomes.len(),
{
    if outcomes.len() == 0 {
        if pairs.len() == 0 {
            seq![SweepAction::ReplyNoBridges { channel: current }]
        } else {
            seq![SweepAction::Delete { id: pairs[0].id }]
        }
    } else {
        let earlier = outcomes.drop_last();
        sweep_run_actions(current, pairs, earlier) + sweep_actions_after(
            SweepView { current, pairs, outcomes: earlier },
            outcomes.last(),
        )
    }
}

proof fn lemma_deleted_ids_concat(a: Seq<SweepAction>, b: Seq<SweepAction>)
    ensures
        deleted_ids(a + b) == deleted_ids(a) + deleted_ids(b),
    decreases a.len(),
{
    if a.len() == 0 {
        assert(a + b =~= b);
        assert(deleted_ids(a) =~= Seq::<i32>::empty());
        assert(deleted_ids(a) + deleted_ids(b) =~= deleted_ids(b));
    } else {
        assert((a + b).drop_first() =~= a.drop_first() + b);
        assert((a + b)[0] == a[0]);
        lemma_deleted_ids_concat(a.drop_first(), b);
        match a[0] {
            SweepAction::Delete { id } => {
                assert(seq![id] + (deleted_ids(a.drop_first()) + deleted_ids(b)) =~= (seq![id]
                    + deleted_ids(a.drop_first())) + deleted_ids(b));
            },
            _ => {},
        }
    }
}

/// What one recorded outcome leads to: for pair `k`, a removal that worked
/// is followed by a notice to the pair's second channel, signed with the
/// channel of the command, and a failed one by no notice; then pair `k + 1`
/// is removed, or, after the last pair, the report is sent.
pub proof fn lemma_record_next_actions(v: SweepView, deleted: bool)
    requires
        v.outcomes.len() < v.pairs.len(),
    ensures
        ({
            let k = v.outcomes.len() as int;
            let actions = sweep_actions_after(v, deleted);
            &&& actions.len() == if deleted {
                2int
            } else {
                1int
            }
            &&& deleted ==> actions[0] == SweepAction::Notify {
                target: v.pairs[k].channel2 as u64,
                initiator: v.current,
            }
            &&& actions.last() == if k + 1 < v.pairs.len() {
                SweepAction::Delete { id: v.pairs[k + 1].id }
            } else {
                SweepAction::SendReport
            }
            &&& deleted_ids(actions) == if k + 1 < v.pairs.len() {
                seq![v.pairs[k + 1].id]
            } else {
                Seq::<i32>::empty()
            }
        }),
{
    let k = v.outcomes.len() as int;
    let actions = sweep_actions_after(v, deleted);
    let nx = if k + 1 < v.pairs.len() {
        SweepAction::Delete { id: v.pairs[k + 1].id }
    } else {
        SweepAction::SendReport
    };
    let empty = Seq::<SweepAction>::empty();
    assert(seq![nx].drop_first() =~= empty);
    assert(deleted_ids(empty) =~= Seq::<i32>::empty());
    let tail = deleted_ids(seq![nx]);
    if k + 1 < v.pairs.len() {
        assert(tail =~= seq![v.pairs[k + 1].id]);
    } else {
        assert(tail =~= Seq::<i32>::empty());
    }
    if deleted {
        let n0 = SweepAction::Notify { target: v.pairs[k].channel2 as u64, initiator: v.current };
        assert(actions =~= seq![n0, nx]);
        assert(seq![n0, nx].drop_first() =~= seq![nx]);
        assert(deleted_ids(seq![n0, nx]) == tail);
    } else {
        assert(actions =~= seq![nx]);
    }
}

/// A sweep removes exactly the pairs it fetched, each once, in their order:
/// after the outcomes of the first `n` pairs are recorded, the removals asked
/// for so far are those of the first `n + 1` pairs (all of them, once every
/// pair is handled).
pub proof fn lemma_sweep_deletes_every_pair_in_order(
    current: i64,
    pairs: Seq<ChannelPair>,
    outcomes: Seq<bool>,
)
    requires
        pairs.len() > 0,
        outcomes.len() <= pairs.len(),
    ensures
        deleted_ids(sweep_run_actions(current, pairs, outcomes)) == pairs.take(
            if outcomes.len() < pairs.len() {
                outcomes.len() + 1int
            } else {
                pairs.len() as int
            },
        ).map_values(|p: ChannelPair| p.id),
        outcomes.len() == pairs.len() ==> deleted_ids(sweep_run_actions(current, pairs, outcomes))
            == pairs.map_values(|p: ChannelPair| p.id),
    decreases outcomes.len(),
{
    let n = outcomes.len() as int;
    if n == 0 {
        let first = seq![SweepAction::Delete { id: pairs[0].id }];
        assert(first.drop_first() =~= Seq::<SweepAction>::empty());
        assert(deleted_ids(first.drop_first()) =~= Seq::<i32>::empty());
        assert(deleted_ids(first) =~= seq![pairs[0].id]);
        assert(pairs.take(1).map_values(|p: ChannelPair| p.id) =~= seq![pairs[0].id]);
    } else {
        let earlier = outcomes.drop_last();
        lemma_sweep_deletes_every_pair_in_order(current, pairs, earlier);
        let v = SweepView { current, pairs, outcomes: earlier };
        lemma_record_next_actions(v, outcomes.last());
        lemma_deleted_ids_concat(
            sweep_run_actions(current, pairs, earlier),
            sweep_actions_after(v, outcomes.last()),
        );
        if n < pairs.len() {
            assert(pairs.take(n).map_values(|p: ChannelPair| p.id) + seq![pairs[n].id]
                =~= pairs.take(n + 1).map_values(|p: ChannelPair| p.id));
        } else {
            assert(pairs.take(n).map_values(|p: ChannelPair| p.id) + Seq::<i32>::empty()
                =~= pairs.take(n).map_values(|p: ChannelPair| p.id));
        }
    }
    if n == pairs.len() {
        assert(pairs.take(n) =~= pairs);
    }
}

/// The report before any pair is handled is its opening alone; each recorded
/// outcome adds exactly one line at its end, for the pair just handled: the
/// line of a removal (with the `boom` glyph) when the removal worked, the
/// line of a failure (with the `x` glyph) otherwise, both naming the pair's
/// two channels as `channel_label` shows them.
pub proof fn lemma_report_grows_by_one_line(v: SweepView, deleted: bool)
    requires
        v.outcomes.len() < v.pairs.len(),
    ensures
        sweep_report_message(SweepView { current: v.current, pairs: v.pairs, outcomes: Seq::empty() })
            == Some(sweep_header_message(v.current)),
        ({
            let pair = v.pairs[v.outcomes.len() as int];
            let label1 = channel_label(pair.channel1, v.current);
            let label2 = channel_label(pair.channel2, v.current);
            let after = SweepView {
                current: v.current,
                pairs: v.pairs,
                outcomes: v.outcomes.push(deleted),
            };
            let glyph = emoji_by_shortcode(
                if deleted {
                    "boom"@
                } else {
                    "x"@
                },
            );
            &&& (sweep_report_message(v) is Some && glyph is Some) <==> sweep_report_message(
                after,
            ) is Some
            &&& sweep_report_message(after) is Some ==> sweep_report_message(after)->0
                == sweep_report_message(v)->0 + if deleted {
                unbridged_line_message(glyph->0, label1, label2)
            } else {
                unbridge_failed_line_message(glyph->0, label1, label2)
            }
        }),
{
    let empty = SweepView { current: v.current, pairs: v.pairs, outcomes: Seq::empty() };
    assert(sweep_lines_message(v.current, v.pairs, Seq::<bool>::empty()) == Some(
        Seq::<char>::empty(),
    ));
    assert(sweep_header_message(v.current) + Seq::<char>::empty() =~= sweep_header_message(
        v.current,
    ));
    let after_outcomes = v.outcomes.push(deleted);
    assert(after_outcomes.drop_last() =~= v.outcomes);
    assert(after_outcomes[v.outcomes.len() as int] == deleted);
    match sweep_lines_message(v.current, v.pairs, v.outcomes) {
        Some(lines) => {
            let pair = v.pairs[v.outcomes.len() as int];
            match sweep_line_message(pair, deleted, v.current) {
                Some(line) => {
                    assert(sweep_header_message(v.current) + (lines + line) =~= (
                    sweep_header_message(v.current) + lines) + line);
                },
                None => {},
            }
        },
        None => {},
    }
}

/// The notice to the other side exists exactly when the `warning` glyph
/// does, and names the channel where the bridges were removed so that it
/// reads back to it.
pub proof fn lemma_notice_names_initiator(initiator: i64)
    ensures
        unbridge_notice_reply_message(initiator) is Some <==> emoji_by_shortcode("warning"@) is Some,
        unbridge_notice_reply_message(initiator) is Some ==> unbridge_notice_reply_message(
            initiator,
        )->0 == emoji_by_shortcode("warning"@)->0 + " Owner of Channel ID `"@ + signed_decimal(
            initiator as int,
        ) + "` initiated an unbridge.\nThis cannot be cancelled."@,
        parse_int(signed_decimal(initiator as int)) == Ok::<i64, IntErrorKind>(initiator),
{
    if let Some(g) = emoji_by_shortcode("warning"@) {
        lemma_texts_name_their_channel(g, initiator);
    } else {
        lemma_texts_name_their_channel(Seq::empty(), initiator);
    }
}

} // verus!
