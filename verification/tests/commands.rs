use discord_bridgebot::bridge::{
    bridge, bridge_reply_text, registered_reply_text, registration_request_reply_text,
    BridgeAction, BridgeEvent, BridgeReply, BridgeState, InsertOutcome,
};
use discord_bridgebot::checks::is_guild_owner;
use discord_bridgebot::listing::{list_bridges, no_bridges_reply_text};
use discord_bridgebot::models::{ChannelPair, InsertableChannelPair};
use discord_bridgebot::presence::activity_status;
use discord_bridgebot::relay::{relay_plan, relay_source};
use discord_bridgebot::unbridge::{unbridge, unbridge_reply_text, UnbridgeReply};

fn glyph(code: &str) -> &'static str {
    emojis::get_by_shortcode(code).unwrap().as_str()
}

fn names() -> BridgeEvent {
    BridgeEvent::NamesFetched {
        guild_name: "Guild".to_string(),
        channel_name: "general".to_string(),
    }
}

#[test]
fn insertable_pair_new() {
    let p = InsertableChannelPair::new(11, 22);
    assert_eq!(p, InsertableChannelPair { id: None, channel1: 11, channel2: 22 });
}

#[test]
fn bridge_invalid_argument() {
    let s = BridgeState::invoked(100, "abc".to_string());
    let (s, a) = bridge(s, BridgeEvent::Begin);
    assert_eq!(s, BridgeState::Finished);
    assert_eq!(a, BridgeAction::Reply { reply: BridgeReply::InvalidFormat });
}

#[test]
fn bridge_with_itself_is_refused() {
    let s = BridgeState::invoked(100, "100".to_string());
    let (s, a) = bridge(s, BridgeEvent::Begin);
    assert_eq!(a, BridgeAction::FetchNames);
    assert_eq!(s, BridgeState::AwaitingNames { current: 100, target: 100 });
    let (s, a) = bridge(s, names());
    assert_eq!(s, BridgeState::Finished);
    assert_eq!(a, BridgeAction::Reply { reply: BridgeReply::SelfBridge });
}

#[test]
fn bridge_negative_target_is_cast() {
    let s = BridgeState::AwaitingNames { current: 5, target: -1 };
    let (_, a) = bridge(s, names());
    assert_eq!(a, BridgeAction::CheckAccess { channel: u64::MAX });
}

#[test]
fn bridge_zero_target_stops() {
    let s = BridgeState::AwaitingNames { current: 5, target: 0 };
    assert!(s.fails_on(&names()));
    assert!(!s.fails_on(&BridgeEvent::Begin));
}

#[test]
fn bridge_full_success() {
    let s = BridgeState::invoked(100, "200".to_string());
    let (s, a) = bridge(s, BridgeEvent::Begin);
    assert_eq!(a, BridgeAction::FetchNames);
    let (s, a) = bridge(s, names());
    assert_eq!(a, BridgeAction::CheckAccess { channel: 200 });
    let (s, a) = bridge(s, BridgeEvent::AccessChecked { visible: true });
    assert_eq!(
        a,
        BridgeAction::Insert { pair: InsertableChannelPair { id: None, channel1: 100, channel2: 200 } }
    );
    assert!(!s.is_finished());
    let (s, a) = bridge(s, BridgeEvent::InsertDone { outcome: InsertOutcome::Inserted });
    assert!(s.is_finished());
    assert_eq!(
        a,
        BridgeAction::Registered {
            from: 100,
            to: 200,
            guild_name: "Guild".to_string(),
            channel_name: "general".to_string(),
        }
    );
}

#[test]
fn bridge_cannot_see_target() {
    let s = BridgeState::AwaitingAccess {
        current: 1,
        target: 2,
        guild_name: "g".to_string(),
        channel_name: "c".to_string(),
    };
    let (s, a) = bridge(s, BridgeEvent::AccessChecked { visible: false });
    assert_eq!(s, BridgeState::Finished);
    assert_eq!(a, BridgeAction::Reply { reply: BridgeReply::CannotSee { target: 2 } });
}

#[test]
fn bridge_insert_outcomes() {
    for (outcome, reply) in [
        (InsertOutcome::AlreadyRegistered, BridgeReply::AlreadyRegistered),
        (InsertOutcome::Failed, BridgeReply::RegistrationFailed),
    ] {
        let s = BridgeState::AwaitingInsert {
            current: 1,
            target: 2,
            guild_name: "g".to_string(),
            channel_name: "c".to_string(),
        };
        let (s, a) = bridge(s, BridgeEvent::InsertDone { outcome });
        assert_eq!(s, BridgeState::Finished);
        assert_eq!(a, BridgeAction::Reply { reply });
    }
}

#[test]
fn bridge_ignores_unexpected_event() {
    let s = BridgeState::AwaitingNames { current: 1, target: 2 };
    let (s2, a) = bridge(s, BridgeEvent::AccessChecked { visible: true });
    assert_eq!(a, BridgeAction::Wait);
    assert_eq!(s2, BridgeState::AwaitingNames { current: 1, target: 2 });
    let (s3, a) = bridge(BridgeState::Finished, BridgeEvent::Begin);
    assert_eq!(a, BridgeAction::Wait);
    assert_eq!(s3, BridgeState::Finished);
}

#[test]
fn bridge_reply_texts() {
    let w = glyph("warning");
    assert_eq!(
        bridge_reply_text(BridgeReply::InvalidFormat).unwrap(),
        format!("{} Invalid ChannelID format; expecting `String` containing `Integer` `ChannelID` {}", w, w)
    );
    let ne = glyph("no_entry");
    assert_eq!(
        bridge_reply_text(BridgeReply::SelfBridge).unwrap(),
        format!("{} You cannot bridge a channel with itself! {}", ne, ne)
    );
    assert_eq!(
        bridge_reply_text(BridgeReply::CannotSee { target: -3 }).unwrap(),
        format!("{} I don't think I can see Channel ID `-3`", glyph("thinking"))
    );
    assert_eq!(
        bridge_reply_text(BridgeReply::AlreadyRegistered).unwrap(),
        format!("{} This channel pair is already registered. Check the other side? ", w)
    );
    let x = glyph("x");
    assert_eq!(
        bridge_reply_text(BridgeReply::RegistrationFailed).unwrap(),
        format!("{} Error registering the Channel ID, notify an administrator. {}", x, x)
    );
}

#[test]
fn glyphs_are_emoji_not_shortcodes() {
    let t = bridge_reply_text(BridgeReply::InvalidFormat).unwrap();
    assert!(!t.starts_with("warning"));
    assert!(t.starts_with("\u{26a0}"));
}

#[test]
fn registered_texts() {
    assert_eq!(
        registered_reply_text(10, 20).unwrap(),
        format!(
            "{} Successfully registered `10` => `20`\n\nensure other direction is also registered; or do nothing for a one-way experience {}",
            glyph("white_check_mark"),
            glyph("loud_sound")
        )
    );
    assert_eq!(
        registration_request_reply_text("Guild", "general", 10).unwrap(),
        format!(
            "{} bridge registration request from `Guild` `#general`\n\nrespond with `/bridge` and Channel ID `10` to bridge back; or do nothing for a one-way experience {}",
            glyph("warning"),
            glyph("loud_sound")
        )
    );
}

#[test]
fn unbridge_decisions() {
    assert_eq!(unbridge(5, "nope"), Some(UnbridgeReply::InvalidFormat));
    assert_eq!(unbridge(5, ""), Some(UnbridgeReply::InvalidFormat));
    assert_eq!(unbridge(5, "5"), Some(UnbridgeReply::SelfUnbridge));
    assert_eq!(unbridge(5, "6"), None);
    assert_eq!(unbridge(u64::MAX, "-1"), Some(UnbridgeReply::SelfUnbridge));
}

#[test]
fn unbridge_texts() {
    let ne = glyph("no_entry");
    assert_eq!(
        unbridge_reply_text(UnbridgeReply::SelfUnbridge).unwrap(),
        format!("{} You cannot unbridge a channel with itself! {}", ne, ne)
    );
    assert_eq!(
        unbridge_reply_text(UnbridgeReply::InvalidFormat),
        bridge_reply_text(BridgeReply::InvalidFormat)
    );
}

#[test]
fn list_bridges_empty() {
    let m = list_bridges(77, &vec![]).unwrap();
    assert_eq!(
        m,
        vec![format!("{} No bridges found for `this` current Channel ID `77`", glyph("interrobang"))]
    );
    assert_eq!(no_bridges_reply_text(77).unwrap(), m[0]);
}

#[test]
fn list_bridges_lines() {
    let pairs = vec![
        ChannelPair { id: 1, channel1: 77, channel2: 88 },
        ChannelPair { id: 2, channel1: 99, channel2: 77 },
    ];
    assert_eq!(
        list_bridges(77, &pairs).unwrap(),
        vec![
            "Channel ID `77` => Channel ID `88`".to_string(),
            "Channel ID `99` => Channel ID `77`".to_string(),
        ]
    );
}

#[test]
fn nobody_is_owner() {
    assert!(!is_guild_owner());
}

#[test]
fn activity_line() {
    let b = glyph("bridge_at_night");
    assert_eq!(
        activity_status().unwrap(),
        format!("{} building bridges between communities... {}", b, b)
    );
}

#[test]
fn stored_bridge_relays_to_checked_channel() {
    let s = BridgeState::AwaitingNames { current: 100, target: 200 };
    let (s, check) = bridge(s, names());
    assert_eq!(check, BridgeAction::CheckAccess { channel: 200 });
    let (_, store) = bridge(s, BridgeEvent::AccessChecked { visible: true });
    match store {
        BridgeAction::Insert { pair } => {
            assert_eq!(relay_source(false, 100), Some(pair.channel1));
            let plan = relay_plan(&vec![(pair.channel1, pair.channel2)], "a", "b");
            assert_eq!(plan[0].channel, 200);
        }
        other => panic!("unexpected action {:?}", other),
    }
}
