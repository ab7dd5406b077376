//! The texts that the bot posts. Each is built from fixed wording, emoji
//! glyphs and channel identifiers written in decimal; the glyphs are taken as
//! arguments here, so that each text is stated exactly.

use vstd::prelude::*;
use vstd::string::*;
use crate::decimal::{
    decimal, lemma_channel_id_round_trip, lemma_parse_render_round_trip, parse_int, signed_decimal, render_i64, render_u64,
    IntErrorKind,
};

verus! {

/// The answer to an argument that is not a channel identifier.
pub open spec fn invalid_format_message(warning: Seq<char>) -> Seq<char> {
    warning + " Invalid ChannelID format; expecting `String` containing `Integer` `ChannelID` "@
        + warning
}

/// The answer to a request to bridge a channel with itself.
pub open spec fn self_bridge_message(no_entry: Seq<char>) -> Seq<char> {
    no_entry + " You cannot bridge a channel with itself! "@ + no_entry
}

/// The answer to a request to unbridge a channel from itself.
pub open spec fn self_unbridge_message(no_entry: Seq<char>) -> Seq<char> {
    no_entry + " You cannot unbridge a channel with itself! "@ + no_entry
}

/// The answer when a bridge from `from` to `to` has been stored.
pub open spec fn registered_message(check: Seq<char>, sound: Seq<char>, from: u64, to: u64) -> Seq<
    char,
> {
    check + " Successfully registered `"@ + decimal(from as nat) + "` => `"@ + decimal(to as nat)
        + "`\n\nensure other direction is also registered; or do nothing for a one-way experience "@
        + sound
}

/// The request, posted in the target channel, to bridge back to `from`.
pub open spec fn registration_request_message(
    warning: Seq<char>,
    sound: Seq<char>,
    guild_name: Seq<char>,
    channel_name: Seq<char>,
    from: u64,
) -> Seq<char> {
    warning + " bridge registration request from `"@ + guild_name + "` `#"@ + channel_name
        + "`\n\nrespond with `/bridge` and Channel ID `"@ + decimal(from as nat)
        + "` to bridge back; or do nothing for a one-way experience "@ + sound
}

/// The answer when the pair is stored already.
pub open spec fn already_registered_message(warning: Seq<char>) -> Seq<char> {
    warning + " This channel pair is already registered. Check the other side? "@
}

/// The answer when storing the pair failed for another reason.
pub open spec fn registration_failed_message(cross: Seq<char>) -> Seq<char> {
    cross + " Error registering the Channel ID, notify an administrator. "@ + cross
}

/// The answer when the target channel cannot be seen.
pub open spec fn cannot_see_message(thinking: Seq<char>, target: i64) -> Seq<char> {
    thinking + " I don't think I can see Channel ID `"@ + signed_decimal(target as int) + "`"@
}

/// The answer when no bridge involves the channel.
pub open spec fn no_bridges_message(interrobang: Seq<char>, channel: i64) -> Seq<char> {
    interrobang + " No bridges found for `this` current Channel ID `"@ + signed_decimal(
        channel as int,
    ) + "`"@
}

/// One line of the list of bridges.
pub open spec fn bridge_line_message(channel1: i64, channel2: i64) -> Seq<char> {
    "Channel ID `"@ + signed_decimal(channel1 as int) + "` => Channel ID `"@ + signed_decimal(
        channel2 as int,
    ) + "`"@
}

/// The opening of the report on removing every bridge of a channel.
pub open spec fn sweep_header_message(channel: i64) -> Seq<char> {
    "Attempting to unbridge all connections related to Channel ID `"@ + signed_decimal(
        channel as int,
    ) + "`:\nNotifications will be sent to the other side.\n\n"@
}

/// A channel of a pair in that report, marked with `!` when it is the
/// channel where the command was given.
pub open spec fn channel_label(channel: i64, current: i64) -> Seq<char> {
    if channel == current {
        "`"@ + signed_decimal(channel as int) + "`!"@
    } else {
        "`"@ + signed_decimal(channel as int) + "`"@
    }
}

/// The report line for a pair that was removed.
pub open spec fn unbridged_line_message(boom: Seq<char>, label1: Seq<char>, label2: Seq<char>) -> Seq<
    char,
> {
    boom + " Successfully unbridged Channel ID "@ + label1 + " => Channel ID "@ + label2 + "\n"@
}

/// The report line for a pair that could not be removed.
pub open spec fn unbridge_failed_line_message(
    cross: Seq<char>,
    label1: Seq<char>,
    label2: Seq<char>,
) -> Seq<char> {
    cross + " Error unbridging Channel ID "@ + label1 + " => Channel ID "@ + label2
        + ", notify an administrator.\n"@
}

/// The notice posted on the other side of a removed pair.
pub open spec fn unbridge_notice_message(warning: Seq<char>, initiator: i64) -> Seq<char> {
    warning + " Owner of Channel ID `"@ + signed_decimal(initiator as int)
        + "` initiated an unbridge.\nThis cannot be cancelled."@
}

/// A relayed message, as it appears in the linked channel.
pub open spec fn mirror_message(author: Seq<char>, content: Seq<char>) -> Seq<char> {
    "🔊 "@ + author + ": "@ + content
}

/// The bot's activity line.
pub open spec fn activity_message(bridge: Seq<char>) -> Seq<char> {
    bridge + " building bridges between communities... "@ + bridge
}

pub fn invalid_format_text(warning: &str) -> (t: String)
    ensures
        t@ == invalid_format_message(warning@),
{
    let mut t = warning.to_owned();
    t.append(" Invalid ChannelID format; expecting `String` containing `Integer` `ChannelID` ");
    t.append(warning);
    t
}

pub fn self_bridge_text(no_entry: &str) -> (t: String)
    ensures
        t@ == self_bridge_message(no_entry@),
{
    let mut t = no_entry.to_owned();
    t.append(" You cannot bridge a channel with itself! ");
    t.append(no_entry);
    t
}

pub fn self_unbridge_text(no_entry: &str) -> (t: String)
    ensures
        t@ == self_unbridge_message(no_entry@),
{
    let mut t = no_entry.to_owned();
    t.append(" You cannot unbridge a channel with itself! ");
    t.append(no_entry);
    t
}

pub fn registered_text(check: &str, sound: &str, from: u64, to: u64) -> (t: String)
    ensures
        t@ == registered_message(check@, sound@, from, to),
{
    let mut t = check.to_owned();
    t.append(" Successfully registered `");
    t.append(render_u64(from).as_str());
    t.append("` => `");
    t.append(render_u64(to).as_str());
    t.append(
        "`\n\nensure other direction is also registered; or do nothing for a one-way experience ",
    );
    t.append(sound);
    t
}

pub fn registration_request_text(
    warning: &str,
    sound: &str,
    guild_name: &str,
    channel_name: &str,
    from: u64,
) -> (t: String)
    ensures
        t@ == registration_request_message(warning@, sound@, guild_name@, channel_name@, from),
{
    let mut t = warning.to_owned();
    t.append(" bridge registration request from `");
    t.append(guild_name);
    t.append("` `#");
    t.append(channel_name);
    t.append("`\n\nrespond with `/bridge` and Channel ID `");
    t.append(render_u64(from).as_str());
    t.append("` to bridge back; or do nothing for a one-way experience ");
    t.append(sound);
    t
}

pub fn already_registered_text(warning: &str) -> (t: String)
    ensures
        t@ == already_registered_message(warning@),
{
    let mut t = warning.to_owned();
    t.append(" This channel pair is already registered. Check the other side? ");
    t
}

pub fn registration_failed_text(cross: &str) -> (t: String)
    ensures
        t@ == registration_failed_message(cross@),
{
    let mut t = cross.to_owned();
    t.append(" Error registering the Channel ID, notify an administrator. ");
    t.append(cross);
    t
}

pub fn cannot_see_text(thinking: &str, target: i64) -> (t: String)
    ensures
        t@ == cannot_see_message(thinking@, target),
{
    let mut t = thinking.to_owned();
    t.append(" I don't think I can see Channel ID `");
    t.append(render_i64(target).as_str());
    t.append("`");
    t
}

pub fn no_bridges_text(interrobang: &str, channel: i64) -> (t: String)
    ensures
        t@ == no_bridges_message(interrobang@, channel),
{
    let mut t = interrobang.to_owned();
    t.append(" No bridges found for `this` current Channel ID `");
    t.append(render_i64(channel).as_str());
    t.append("`");
    t
}

pub fn bridge_line_text(channel1: i64, channel2: i64) -> (t: String)
    ensures
        t@ == bridge_line_message(channel1, channel2),
{
    let mut t = "Channel ID `".to_owned();
    t.append(render_i64(channel1).as_str());
    t.append("` => Channel ID `");
    t.append(render_i64(channel2).as_str());
    t.append("`");
    t
}

pub fn sweep_header_text(channel: i64) -> (t: String)
    ensures
        t@ == sweep_header_message(channel),
{
    let mut t = "Attempting to unbridge all connections related to Channel ID `".to_owned();
    t.append(render_i64(channel).as_str());
    t.append("`:\nNotifications will be sent to the other side.\n\n");
    t
}

pub fn channel_label_text(channel: i64, current: i64) -> (t: String)
    ensures
        t@ == channel_label(channel, current),
{
    let mut t = "`".to_owned();
    t.append(render_i64(channel).as_str());
    if channel == current {
        t.append("`!");
    } else {
        t.append("`");
    }
    t
}

pub fn unbridged_line_text(boom: &str, label1: &str, label2: &str) -> (t: String)
    ensures
        t@ == unbridged_line_message(boom@, label1@, label2@),
{
    let mut t = boom.to_owned();
    t.append(" Successfully unbridged Channel ID ");
    t.append(label1);
    t.append(" => Channel ID ");
    t.append(label2);
    t.append("\n");
    t
}

pub fn unbridge_failed_line_text(cross: &str, label1: &str, label2: &str) -> (t: String)
    ensures
        t@ == unbridge_failed_line_message(cross@, label1@, label2@),
{
    let mut t = cross.to_owned();
    t.append(" Error unbridging Channel ID ");
    t.append(label1);
    t.append(" => Channel ID ");
    t.append(label2);
    t.append(", notify an administrator.\n");
    t
}

pub fn unbridge_notice_text(warning: &str, initiator: i64) -> (t: String)
    ensures
        t@ == unbridge_notice_message(warning@, initiator),
{
    let mut t = warning.to_owned();
    t.append(" Owner of Channel ID `");
    t.append(render_i64(initiator).as_str());
    t.append("` initiated an unbridge.\nThis cannot be cancelled.");
    t
}

pub fn mirror_text(author: &str, content: &str) -> (t: String)
    ensures
        t@ == mirror_message(author@, content@),
{
    let mut t = "🔊 ".to_owned();
    t.append(author);
    t.append(": ");
    t.append(content);
    t
}

pub fn activity_text(bridge: &str) -> (t: String)
    ensures
        t@ == activity_message(bridge@),
{
    let mut t = bridge.to_owned();
    t.append(" building bridges between communities... ");
    t.append(bridge);
    t
}

/// A relayed message holds the whole message: the speaker glyph and a space,
/// the author's name, a colon and a space, then the message itself, whatever
/// its length.
pub proof fn lemma_mirror_keeps_whole_message(author: Seq<char>, content: Seq<char>)
    ensures
        mirror_message(author, content) == seq!['🔊', ' '] + author + seq![':', ' '] + content,
        mirror_message(author, content).len() == author.len() + content.len() + 4,
        mirror_message(author, content).subrange(
            author.len() + 4int,
            author.len() + content.len() + 4int,
        ) == content,
{
    reveal_strlit("🔊 ");
    reveal_strlit(": ");
    assert("🔊 "@ =~= seq!['🔊', ' ']);
    assert(": "@ =~= seq![':', ' ']);
    let m = seq!['🔊', ' '] + author + seq![':', ' '] + content;
    assert(m.subrange(author.len() + 4int, author.len() + content.len() + 4int) =~= content);
}

/// A line of the list of bridges shows both stored channel identifiers as
/// they are: each reads back to the stored number.
pub proof fn lemma_bridge_line_shows_stored_ids(channel1: i64, channel2: i64)
    ensures
        bridge_line_message(channel1, channel2) == "Channel ID `"@ + signed_decimal(channel1 as int)
            + "` => Channel ID `"@ + signed_decimal(channel2 as int) + "`"@,
        parse_int(signed_decimal(channel1 as int)) == Ok::<i64, IntErrorKind>(channel1),
        parse_int(signed_decimal(channel2 as int)) == Ok::<i64, IntErrorKind>(channel2),
{
    lemma_parse_render_round_trip(channel1);
    lemma_parse_render_round_trip(channel2);
}

/// The confirmation names the two channels of the stored bridge, in order;
/// each identifier shown reads back to its channel whenever it fits an `i64`.
pub proof fn lemma_registered_names_channels(check: Seq<char>, sound: Seq<char>, from: u64, to: u64)
    ensures
        registered_message(check, sound, from, to) == check + " Successfully registered `"@
            + decimal(from as nat) + "` => `"@ + decimal(to as nat)
            + "`\n\nensure other direction is also registered; or do nothing for a one-way experience "@
            + sound,
        from <= i64::MAX ==> parse_int(decimal(from as nat)) == Ok::<i64, IntErrorKind>(
            from as i64,
        ),
        to <= i64::MAX ==> parse_int(decimal(to as nat)) == Ok::<i64, IntErrorKind>(to as i64),
{
    if from <= i64::MAX {
        lemma_channel_id_round_trip(from);
    }
    if to <= i64::MAX {
        lemma_channel_id_round_trip(to);
    }
}

/// The request to bridge back names the server, the channel and the channel
/// identifier to give to `/bridge`, which reads back to the requesting
/// channel whenever it fits an `i64`.
pub proof fn lemma_registration_request_names_channel(
    warning: Seq<char>,
    sound: Seq<char>,
    guild_name: Seq<char>,
    channel_name: Seq<char>,
    from: u64,
)
    ensures
        registration_request_message(warning, sound, guild_name, channel_name, from) == warning
            + " bridge registration request from `"@ + guild_name + "` `#"@ + channel_name
            + "`\n\nrespond with `/bridge` and Channel ID `"@ + decimal(from as nat)
            + "` to bridge back; or do nothing for a one-way experience "@ + sound,
        from <= i64::MAX ==> parse_int(decimal(from as nat)) == Ok::<i64, IntErrorKind>(
            from as i64,
        ),
{
    if from <= i64::MAX {
        lemma_channel_id_round_trip(from);
    }
}

/// The texts that name one channel identifier show it so that it reads back
/// to that very number.
pub proof fn lemma_texts_name_their_channel(glyph: Seq<char>, channel: i64)
    ensures
        cannot_see_message(glyph, channel) == glyph + " I don't think I can see Channel ID `"@
            + signed_decimal(channel as int) + "`"@,
        no_bridges_message(glyph, channel) == glyph
            + " No bridges found for `this` current Channel ID `"@ + signed_decimal(channel as int)
            + "`"@,
        unbridge_notice_message(glyph, channel) == glyph + " Owner of Channel ID `"@
            + signed_decimal(channel as int) + "` initiated an unbridge.\nThis cannot be cancelled."@,
        sweep_header_message(channel)
            == "Attempting to unbridge all connections related to Channel ID `"@ + signed_decimal(
            channel as int,
        ) + "`:\nNotifications will be sent to the other side.\n\n"@,
        parse_int(signed_decimal(channel as int)) == Ok::<i64, IntErrorKind>(channel),
{
    lemma_parse_render_round_trip(channel);
}

/// A channel of a pair in the report is shown by its identifier (which reads
/// back to it) between backticks, marked with `!` exactly when it is the
/// channel of the command.
pub proof fn lemma_channel_label_marks_current(channel: i64, current: i64)
    ensures
        channel_label(channel, current) == "`"@ + signed_decimal(channel as int) + if channel
            == current {
            "`!"@
        } else {
            "`"@
        },
        parse_int(signed_decimal(channel as int)) == Ok::<i64, IntErrorKind>(channel),
{
    lemma_parse_render_round_trip(channel);
}

} // verus!
