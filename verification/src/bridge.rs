//! The `/bridge` command: link the channel where it is given to another
//! channel, so that what is said here is relayed there.
//!
//! The command alternates between decisions and outside work (looking up
//! names, checking that the target channel can be seen, storing the pair).
//! The decisions are a state machine: `bridge` takes the state and the
//! outcome of the last piece of outside work, and gives the next state and
//! the next thing to do.

use vstd::prelude::*;
use crate::decimal::{
    decimal, decimal_value, is_i64_text, lemma_parse_int_value, parse_int, parse_i64,
    signed_decimal, IntErrorKind,
};
use crate::emoji::{emoji_by_shortcode, lookup_emoji, with_glyph, with_glyphs};
use crate::models::InsertableChannelPair;
use crate::relay::{relay_key, relay_target};
use crate::texts::{
    already_registered_message, already_registered_text, cannot_see_message, cannot_see_text,
    invalid_format_message, invalid_format_text, registered_message, registered_text,
    registration_failed_message, registration_failed_text, registration_request_message,
    registration_request_text, self_bridge_message, self_bridge_text,
    lemma_texts_name_their_channel, lemma_registered_names_channels,
};

verus! {

/// How storing a new pair ended.
#[derive(Debug, Clone, Copy, PartialEq, Eq, Structural)]
pub enum InsertOutcome {
    /// The pair was stored.
    Inserted,
    /// The table holds this pair already (a unique constraint refused it).
    AlreadyRegistered,
    /// Storing failed for another reason.
    Failed,
}

/// An answer that ends the command.
#[derive(Debug, Clone, Copy, PartialEq, Eq, Structural)]
pub enum BridgeReply {
    /// The argument is not a channel identifier.
    InvalidFormat,
    /// The target is the channel where the command was given.
    SelfBridge,
    /// The target channel cannot be seen.
    CannotSee { target: i64 },
    /// The pair is stored already.
    AlreadyRegistered,
    /// Storing the pair failed.
    RegistrationFailed,
}

/// Where the command stands.
#[derive(Debug, PartialEq, Eq)]
pub enum BridgeState {
    /// Given in channel `current` with the text `argument`.
    Invoked { current: u64, argument: String },
    /// Waiting for the names of the channel and of its server.
    AwaitingNames { current: u64, target: i64 },
    /// Waiting to learn whether channel `target` can be seen.
    AwaitingAccess { current: u64, target: i64, guild_name: String, channel_name: String },
    /// Waiting for the pair to be stored.
    AwaitingInsert { current: u64, target: i64, guild_name: String, channel_name: String },
    /// Nothing more to do.
    Finished,
}

/// The outcome of the last piece of outside work.
#[derive(Debug, PartialEq, Eq)]
pub enum BridgeEvent {
    /// The command starts.
    Begin,
    /// The names of the channel and of its server.
    NamesFetched { guild_name: String, channel_name: String },
    /// Whether the target channel can be seen.
    AccessChecked { visible: bool },
    /// How storing the pair ended.
    InsertDone { outcome: InsertOutcome },
}

/// What to do next.
#[derive(Debug, PartialEq, Eq)]
pub enum BridgeAction {
    /// Look up the names of the channel and of its server.
    FetchNames,
    /// Check that `channel` can be seen.
    CheckAccess { channel: u64 },
    /// Store `pair`.
    Insert { pair: InsertableChannelPair },
    /// Answer with `reply`; the command is over.
    Reply { reply: BridgeReply },
    /// Answer that the bridge from `from` to `to` is stored, and ask channel
    /// `to` to bridge back; the command is over.
    Registered { from: u64, to: u64, guild_name: String, channel_name: String },
    /// The event is not the one this state waits for: nothing changes.
    Wait,
}

/// The state and action that follow `state` on `event`.
pub open spec fn bridge_transition(state: BridgeState, event: BridgeEvent) -> (
    BridgeState,
    BridgeAction,
) {
    match state {
        BridgeState::Invoked { current, argument } => match event {
            BridgeEvent::Begin => match parse_int(argument@) {
                Err(_) => (
                    BridgeState::Finished,
                    BridgeAction::Reply { reply: BridgeReply::InvalidFormat },
                ),
                Ok(target) => (
                    BridgeState::AwaitingNames { current, target },
                    BridgeAction::FetchNames,
                ),
            },
            _ => (BridgeState::Invoked { current, argument }, BridgeAction::Wait),
        },
        BridgeState::AwaitingNames { current, target } => match event {
            BridgeEvent::NamesFetched { guild_name, channel_name } => if current == target as u64 {
                (BridgeState::Finished, BridgeAction::Reply { reply: BridgeReply::SelfBridge })
            } else {
                (
                    BridgeState::AwaitingAccess { current, target, guild_name, channel_name },
                    BridgeAction::CheckAccess { channel: target as u64 },
                )
            },
            _ => (BridgeState::AwaitingNames { current, target }, BridgeAction::Wait),
        },
        BridgeState::AwaitingAccess { current, target, guild_name, channel_name } => match event {
            BridgeEvent::AccessChecked { visible } => if visible {
                (
                    BridgeState::AwaitingInsert { current, target, guild_name, channel_name },
                    BridgeAction::Insert {
                        pair: InsertableChannelPair {
                            id: None,
                            channel1: current as i64,
                            channel2: target,
                        },
                    },
                )
            } else {
                (
                    BridgeState::Finished,
                    BridgeAction::Reply { reply: BridgeReply::CannotSee { target } },
                )
            },
            _ => (
                BridgeState::AwaitingAccess { current, target, guild_name, channel_name },
                BridgeAction::Wait,
            ),
        },
        BridgeState::AwaitingInsert { current, target, guild_name, channel_name } => match event {
            BridgeEvent::InsertDone { outcome } => match outcome {
                InsertOutcome::Inserted => (
                    BridgeState::Finished,
                    BridgeAction::Registered {
                        from: current,
                        to: target as u64,
                        guild_name,
                        channel_name,
                    },
                ),
                InsertOutcome::AlreadyRegistered => (
                    BridgeState::Finished,
                    BridgeAction::Reply { reply: BridgeReply::AlreadyRegistered },
                ),
                InsertOutcome::Failed => (
                    BridgeState::Finished,
                    BridgeAction::Reply { reply: BridgeReply::RegistrationFailed },
                ),
            },
            _ => (
                BridgeState::AwaitingInsert { current, target, guild_name, channel_name },
                BridgeAction::Wait,
            ),
        },
        BridgeState::Finished => (BridgeState::Finished, BridgeAction::Wait),
    }
}

/// The step on which the command stops: a channel identifier `0` has no
/// channel, and turning it into one fails once the names are fetched.
pub open spec fn bridge_step_fails(state: BridgeState, event: BridgeEvent) -> bool {
    &&& state matches BridgeState::AwaitingNames { target, .. }
    &&& target == 0
    &&& event is NamesFetched
}

impl BridgeState {
    /// The state of a command given in channel `current` with `argument`.
    pub fn invoked(current: u64, argument: String) -> (state: Self)
        ensures
            state == (BridgeState::Invoked { current, argument }),
    {
        BridgeState::Invoked { current, argument }
    }

    /// Whether the command is over.
    pub fn is_finished(&self) -> (b: bool)
        ensures
            b == (*self is Finished),
    {
        match self {
            BridgeState::Finished => true,
            _ => false,
        }
    }

    /// Whether `event` is one on which the command stops (see `bridge_step_fails`).
    pub fn fails_on(&self, event: &BridgeEvent) -> (b: bool)
        ensures
            b == bridge_step_fails(*self, *event),
    {
        match self {
            BridgeState::AwaitingNames { target, .. } => *target == 0 && match event {
                BridgeEvent::NamesFetched { .. } => true,
                _ => false,
            },
            _ => false,
        }
    }
}

/// One step of the command.
pub fn bridge(state: BridgeState, event: BridgeEvent) -> (r: (BridgeState, BridgeAction))
    requires
        !bridge_step_fails(state, event),
    ensures
        r == bridge_transition(state, event),
{
    match state {
        BridgeState::Invoked { current, argument } => match event {
            BridgeEvent::Begin => match parse_i64(argument.as_str()) {
                Err(_) => (
                    BridgeState::Finished,
                    BridgeAction::Reply { reply: BridgeReply::InvalidFormat },
                ),
                Ok(target) => (
                    BridgeState::AwaitingNames { current, target },
                    BridgeAction::FetchNames,
                ),
            },
            _ => (BridgeState::Invoked { current, argument }, BridgeAction::Wait),
        },
        BridgeState::AwaitingNames { current, target } => match event {
            BridgeEvent::NamesFetched { guild_name, channel_name } => if current == target as u64 {
                (BridgeState::Finished, BridgeAction::Reply { reply: BridgeReply::SelfBridge })
            } else {
                (
                    BridgeState::AwaitingAccess { current, target, guild_name, channel_name },
                    BridgeAction::CheckAccess { channel: target as u64 },
                )
            },
            _ => (BridgeState::AwaitingNames { current, target }, BridgeAction::Wait),
        },
        BridgeState::AwaitingAccess { current, target, guild_name, channel_name } => match event {
            BridgeEvent::AccessChecked { visible } => if visible {
                (
                    BridgeState::AwaitingInsert { current, target, guild_name, channel_name },
                    BridgeAction::Insert { pair: InsertableChannelPair::new(current as i64, target) },
                )
            } else {
                (
                    BridgeState::Finished,
                    BridgeAction::Reply { reply: BridgeReply::CannotSee { target } },
                )
            },
            _ => (
                BridgeState::AwaitingAccess { current, target, guild_name, channel_name },
                BridgeAction::Wait,
            ),
        },
        BridgeState::AwaitingInsert { current, target, guild_name, channel_name } => match event {
            BridgeEvent::InsertDone { outcome } => match outcome {
                InsertOutcome::Inserted => (
                    BridgeState::Finished,
                    BridgeAction::Registered {
                        from: current,
                        to: target as u64,
                        guild_name,
                        channel_name,
                    },
                ),
                InsertOutcome::AlreadyRegistered => (
                    BridgeState::Finished,
                    BridgeAction::Reply { reply: BridgeReply::AlreadyRegistered },
                ),
                InsertOutcome::Failed => (
                    BridgeState::Finished,
                    BridgeAction::Reply { reply: BridgeReply::RegistrationFailed },
                ),
            },
            _ => (
                BridgeState::AwaitingInsert { current, target, guild_name, channel_name },
                BridgeAction::Wait,
            ),
        },
        BridgeState::Finished => (BridgeState::Finished, BridgeAction::Wait),
    }
}

/// The text of an answer, with the glyphs that it names.
pub open spec fn bridge_reply_message(reply: BridgeReply) -> Option<Seq<char>> {
    match reply {
        BridgeReply::InvalidFormat => with_glyph("warning"@, |w| invalid_format_message(w)),
        BridgeReply::SelfBridge => with_glyph("no_entry"@, |e| self_bridge_message(e)),
        BridgeReply::CannotSee { target } => with_glyph(
            "thinking"@,
            |t| cannot_see_message(t, target),
        ),
        BridgeReply::AlreadyRegistered => with_glyph(
            "warning"@,
            |w| already_registered_message(w),
        ),
        BridgeReply::RegistrationFailed => with_glyph("x"@, |x| registration_failed_message(x)),
    }
}

/// The text of an answer; `None` when the emoji table lacks a glyph it needs.
pub fn bridge_reply_text(reply: BridgeReply) -> (text: Option<String>)
    ensures
        text matches Some(t) ==> bridge_reply_message(reply) == Some(t@),
        text is None ==> bridge_reply_message(reply) is None,
{
    match reply {
        BridgeReply::InvalidFormat => match lookup_emoji("warning") {
            Some(w) => Some(invalid_format_text(w.as_str())),
            None => None,
        },
        BridgeReply::SelfBridge => match lookup_emoji("no_entry") {
            Some(e) => Some(self_bridge_text(e.as_str())),
            None => None,
        },
        BridgeReply::CannotSee { target } => match lookup_emoji("thinking") {
            Some(t) => Some(cannot_see_text(t.as_str(), target)),
            None => None,
        },
        BridgeReply::AlreadyRegistered => match lookup_emoji("warning") {
            Some(w) => Some(already_registered_text(w.as_str())),
            None => None,
        },
        BridgeReply::RegistrationFailed => match lookup_emoji("x") {
            Some(x) => Some(registration_failed_text(x.as_str())),
            None => None,
        },
    }
}

/// The answer, in the channel of the command, that the bridge is stored.
pub open spec fn registered_reply_message(from: u64, to: u64) -> Option<Seq<char>> {
    with_glyphs(
        "white_check_mark"@,
        "loud_sound"@,
        |c, s| registered_message(c, s, from, to),
    )
}

/// The request, in the target channel, to bridge back.
pub open spec fn registration_request_reply_message(
    guild_name: Seq<char>,
    channel_name: Seq<char>,
    from: u64,
) -> Option<Seq<char>> {
    with_glyphs(
        "warning"@,
        "loud_sound"@,
        |w, s| registration_request_message(w, s, guild_name, channel_name, from),
    )
}

/// The text of `registered_reply_message`; `None` when a glyph is missing.
pub fn registered_reply_text(from: u64, to: u64) -> (text: Option<String>)
    ensures
        text matches Some(t) ==> registered_reply_message(from, to) == Some(t@),
        text is None ==> registered_reply_message(from, to) is None,
{
    let check = lookup_emoji("white_check_mark");
    let sound = lookup_emoji("loud_sound");
    match (check, sound) {
        (Some(c), Some(s)) => Some(registered_text(c.as_str(), s.as_str(), from, to)),
        _ => None,
    }
}

/// The text of `registration_request_reply_message`; `None` when a glyph is missing.
pub fn registration_request_reply_text(guild_name: &str, channel_name: &str, from: u64) -> (text:
    Option<String>)
    ensures
        text matches Some(t) ==> registration_request_reply_message(
            guild_name@,
            channel_name@,
            from,
        ) == Some(t@),
        text is None ==> registration_request_reply_message(
            guild_name@,
            channel_name@,
            from,
        ) is None,
{
    let warning = lookup_emoji("warning");
    let sound = lookup_emoji("loud_sound");
    match (warning, sound) {
        (Some(w), Some(s)) => Some(
            registration_request_text(w.as_str(), s.as_str(), guild_name, channel_name, from),
        ),
        _ => None,
    }
}

/// A state that the command can reach: once the target is known to be
/// another channel, it stays so.
pub open spec fn bridge_state_sound(state: BridgeState) -> bool {
    match state {
        BridgeState::AwaitingAccess { current, target, .. } => target != 0 && current
            != target as u64,
        BridgeState::AwaitingInsert { current, target, .. } => target != 0 && current
            != target as u64,
        _ => true,
    }
}

/// How far the command is from its end.
pub open spec fn bridge_stage(state: BridgeState) -> nat {
    match state {
        BridgeState::Invoked { .. } => 4,
        BridgeState::AwaitingNames { .. } => 3,
        BridgeState::AwaitingAccess { .. } => 2,
        BridgeState::AwaitingInsert { .. } => 1,
        BridgeState::Finished => 0,
    }
}

/// A channel is never bridged with itself: every step keeps the state sound,
/// and a pair that the command stores links two different channels, the
/// second of them a real channel (not `0`).
pub proof fn lemma_bridge_never_links_a_channel_to_itself(state: BridgeState, event: BridgeEvent)
    requires
        bridge_state_sound(state),
        !bridge_step_fails(state, event),
    ensures
        bridge_state_sound(bridge_transition(state, event).0),
        bridge_transition(state, event).1 matches BridgeAction::Insert { pair } ==> pair.channel1
            != pair.channel2 && pair.channel2 != 0,
{
    if let BridgeState::AwaitingAccess { current, target, .. } = state {
        assert(current != target as u64 ==> current as i64 != target) by (bit_vector);
    }
}

/// The command always comes to an end: a step either waits for another
/// event and changes nothing, or moves the command closer to its end; and it
/// answers exactly on the step that ends it.
pub proof fn lemma_bridge_progresses(state: BridgeState, event: BridgeEvent)
    ensures
        ({
            let (next, action) = bridge_transition(state, event);
            &&& action is Wait ==> next == state
            &&& !(action is Wait) ==> bridge_stage(next) < bridge_stage(state)
            &&& (action is Reply || action is Registered) <==> (!(action is Wait)
                && next is Finished)
        }),
{
}

/// What a stored bridge does: once the target is checked and can be seen,
/// the pair that is stored is found under the key of the channel where the
/// command was given whenever a person posts there, and relays to the very
/// channel that was checked.
pub proof fn lemma_bridge_relays_to_checked_channel(
    current: u64,
    target: i64,
    guild_name: String,
    channel_name: String,
)
    requires
        target != 0,
        current != target as u64,
    ensures
        ({
            let (checking, check) = bridge_transition(
                BridgeState::AwaitingNames { current, target },
                BridgeEvent::NamesFetched { guild_name, channel_name },
            );
            let (_, store) = bridge_transition(
                checking,
                BridgeEvent::AccessChecked { visible: true },
            );
            &&& check == BridgeAction::CheckAccess { channel: target as u64 }
            &&& store matches BridgeAction::Insert { pair } && relay_key(false, current) == Some(
                pair.channel1,
            ) && relay_target((pair.channel1, pair.channel2)) == target as u64
        }),
{
}

/// How the command starts: an argument that is the decimal text of an `i64`
/// becomes the target, and the names are looked up next; any other argument
/// is answered as a bad channel identifier, and the command is over.
pub proof fn lemma_bridge_begin(current: u64, argument: String)
    ensures
        ({
            let (next, action) = bridge_transition(
                BridgeState::Invoked { current, argument },
                BridgeEvent::Begin,
            );
            &&& !is_i64_text(argument@) ==> next == BridgeState::Finished && action
                == BridgeAction::Reply { reply: BridgeReply::InvalidFormat }
            &&& is_i64_text(argument@) ==> next == BridgeState::AwaitingNames {
                current,
                target: decimal_value(argument@)->0 as i64,
            } && action == BridgeAction::FetchNames
        }),
{
    lemma_parse_int_value(argument@);
}

/// Once the names are known: a target that is the channel of the command is
/// refused; any other target is checked next, as the very channel named.
pub proof fn lemma_bridge_after_names(
    current: u64,
    target: i64,
    guild_name: String,
    channel_name: String,
)
    requires
        target != 0,
    ensures
        ({
            let (next, action) = bridge_transition(
                BridgeState::AwaitingNames { current, target },
                BridgeEvent::NamesFetched { guild_name, channel_name },
            );
            &&& current == target as u64 ==> next == BridgeState::Finished && action
                == BridgeAction::Reply { reply: BridgeReply::SelfBridge }
            &&& current != target as u64 ==> next == BridgeState::AwaitingAccess {
                current,
                target,
                guild_name,
                channel_name,
            } && (action matches BridgeAction::CheckAccess { channel } && channel as i64 == target)
        }),
{
    assert((target as u64) as i64 == target) by (bit_vector);
}

/// Once the target is checked: a visible target is stored as the pair from
/// the channel of the command to the target; an invisible one is answered
/// as such, naming the target.
pub proof fn lemma_bridge_after_access(
    current: u64,
    target: i64,
    guild_name: String,
    channel_name: String,
    visible: bool,
)
    ensures
        ({
            let (next, action) = bridge_transition(
                BridgeState::AwaitingAccess { current, target, guild_name, channel_name },
                BridgeEvent::AccessChecked { visible },
            );
            &&& visible ==> next == BridgeState::AwaitingInsert {
                current,
                target,
                guild_name,
                channel_name,
            } && (action matches BridgeAction::Insert { pair } && pair.id is None
                && pair.channel1 as u64 == current && pair.channel2 == target)
            &&& !visible ==> next == BridgeState::Finished && action == BridgeAction::Reply {
                reply: BridgeReply::CannotSee { target },
            }
        }),
{
    assert((current as i64) as u64 == current) by (bit_vector);
}

/// Once storing ends: a stored pair is confirmed from the channel of the
/// command to the target itself (the channel named by `to` reads back as the
/// target, for every target), with the names fetched; a pair already stored,
/// or a failure, is answered as such.
pub proof fn lemma_bridge_after_insert(
    current: u64,
    target: i64,
    guild_name: String,
    channel_name: String,
    outcome: InsertOutcome,
)
    ensures
        ({
            let (next, action) = bridge_transition(
                BridgeState::AwaitingInsert { current, target, guild_name, channel_name },
                BridgeEvent::InsertDone { outcome },
            );
            &&& next == BridgeState::Finished
            &&& outcome == InsertOutcome::Inserted ==> (action matches BridgeAction::Registered {
                from,
                to,
                guild_name: g,
                channel_name: c,
            } && from == current && to as i64 == target && g == guild_name && c == channel_name)
            &&& outcome == InsertOutcome::AlreadyRegistered ==> action == BridgeAction::Reply {
                reply: BridgeReply::AlreadyRegistered,
            }
            &&& outcome == InsertOutcome::Failed ==> action == BridgeAction::Reply {
                reply: BridgeReply::RegistrationFailed,
            }
        }),
{
    assert((target as u64) as i64 == target) by (bit_vector);
}

/// A whole successful registration: the channel checked, the pair stored and
/// the channel named in the confirmation (where the request to bridge back
/// is posted) are the same channel, and the pair runs from the channel of
/// the command.
pub proof fn lemma_bridge_confirms_the_stored_bridge(
    current: u64,
    target: i64,
    guild_name: String,
    channel_name: String,
)
    requires
        target != 0,
        current != target as u64,
    ensures
        ({
            let (checking, check) = bridge_transition(
                BridgeState::AwaitingNames { current, target },
                BridgeEvent::NamesFetched { guild_name, channel_name },
            );
            let (storing, store) = bridge_transition(
                checking,
                BridgeEvent::AccessChecked { visible: true },
            );
            let (done, confirm) = bridge_transition(
                storing,
                BridgeEvent::InsertDone { outcome: InsertOutcome::Inserted },
            );
            &&& check matches BridgeAction::CheckAccess { channel }
            &&& store matches BridgeAction::Insert { pair }
            &&& confirm matches BridgeAction::Registered { from, to, .. }
            &&& to == channel
            &&& to as i64 == pair.channel2
            &&& from == current
            &&& pair.channel1 as u64 == from
            &&& done == BridgeState::Finished
        }),
{
    lemma_bridge_after_names(current, target, guild_name, channel_name);
    lemma_bridge_after_access(current, target, guild_name, channel_name, true);
    lemma_bridge_after_insert(current, target, guild_name, channel_name, InsertOutcome::Inserted);
}

/// The emoji shortcode that each answer opens with.
pub open spec fn bridge_reply_shortcode(reply: BridgeReply) -> Seq<char> {
    match reply {
        BridgeReply::InvalidFormat => "warning"@,
        BridgeReply::SelfBridge => "no_entry"@,
        BridgeReply::CannotSee { .. } => "thinking"@,
        BridgeReply::AlreadyRegistered => "warning"@,
        BridgeReply::RegistrationFailed => "x"@,
    }
}

/// Every answer exists exactly when its glyph does and opens with that
/// glyph; the answer about an invisible target names the target so that it
/// reads back to it; the confirmation names the two channels of the bridge.
pub proof fn lemma_bridge_replies(reply: BridgeReply, from: u64, to: u64)
    ensures
        bridge_reply_message(reply) is Some <==> emoji_by_shortcode(bridge_reply_shortcode(reply))
            is Some,
        bridge_reply_message(reply) is Some ==> ({
            let g = emoji_by_shortcode(bridge_reply_shortcode(reply))->0;
            bridge_reply_message(reply)->0.take(g.len() as int) == g
        }),
        reply matches BridgeReply::CannotSee { target } ==> (bridge_reply_message(reply) is Some
            ==> bridge_reply_message(reply)->0 == emoji_by_shortcode("thinking"@)->0
            + " I don't think I can see Channel ID `"@ + signed_decimal(target as int) + "`"@
            && parse_int(signed_decimal(target as int)) == Ok::<i64, IntErrorKind>(target)),
        registered_reply_message(from, to) is Some ==> registered_reply_message(from, to)->0
            == emoji_by_shortcode("white_check_mark"@)->0 + " Successfully registered `"@ + decimal(
            from as nat,
        ) + "` => `"@ + decimal(to as nat)
            + "`\n\nensure other direction is also registered; or do nothing for a one-way experience "@
            + emoji_by_shortcode("loud_sound"@)->0,
{
    match emoji_by_shortcode(bridge_reply_shortcode(reply)) {
        Some(g) => {
            let t = bridge_reply_message(reply)->0;
            match reply {
                BridgeReply::InvalidFormat => {
                    assert(t.take(g.len() as int) =~= g);
                },
                BridgeReply::SelfBridge => {
                    assert(t.take(g.len() as int) =~= g);
                },
                BridgeReply::CannotSee { target } => {
                    lemma_texts_name_their_channel(g, target);
                    assert(t.take(g.len() as int) =~= g);
                },
                BridgeReply::AlreadyRegistered => {
                    assert(t.take(g.len() as int) =~= g);
                },
                BridgeReply::RegistrationFailed => {
                    assert(t.take(g.len() as int) =~= g);
                },
            }
        },
        None => {},
    }
    match (emoji_by_shortcode("white_check_mark"@), emoji_by_shortcode("loud_sound"@)) {
        (Some(c), Some(l)) => {
            lemma_registered_names_channels(c, l, from, to);
        },
        _ => {},
    }
}

} // verus!
