use discord_bridgebot::models::ChannelPair;
use discord_bridgebot::sweep::{
    report_chunks, unbridge_all, unbridge_notice_reply_text, SweepAction,
};

fn glyph(code: &str) -> &'static str {
    emojis::get_by_shortcode(code).unwrap().as_str()
}

#[test]
fn no_pairs() {
    let (sweep, actions) = unbridge_all(50, vec![]);
    assert_eq!(actions, vec![SweepAction::ReplyNoBridges { channel: 50 }]);
    assert!(sweep.is_finished());
}

#[test]
fn two_pairs() {
    let pairs = vec![
        ChannelPair { id: 7, channel1: 50, channel2: 60 },
        ChannelPair { id: 8, channel1: 70, channel2: 50 },
    ];
    let (mut sweep, actions) = unbridge_all(50, pairs);
    assert_eq!(actions, vec![SweepAction::Delete { id: 7 }]);
    let actions = sweep.record(true);
    assert_eq!(
        actions,
        vec![SweepAction::Notify { target: 60, initiator: 50 }, SweepAction::Delete { id: 8 }]
    );
    assert!(!sweep.is_finished());
    let actions = sweep.record(false);
    assert_eq!(actions, vec![SweepAction::SendReport]);
    assert!(sweep.is_finished());
    let report = sweep.report_text().unwrap();
    let expected = format!(
        "Attempting to unbridge all connections related to Channel ID `50`:\nNotifications will be sent to the other side.\n\n{} Successfully unbridged Channel ID `50`! => Channel ID `60`\n{} Error unbridging Channel ID `70` => Channel ID `50`!, notify an administrator.\n",
        glyph("boom"),
        glyph("x")
    );
    assert_eq!(report, expected);
}

#[test]
fn notice_goes_to_second_channel() {
    // The notice goes to the pair's second channel even when that is the
    // channel of the command.
    let pairs = vec![ChannelPair { id: 3, channel1: 70, channel2: 50 }];
    let (mut sweep, _) = unbridge_all(50, pairs);
    let actions = sweep.record(true);
    assert_eq!(
        actions,
        vec![SweepAction::Notify { target: 50, initiator: 50 }, SweepAction::SendReport]
    );
}

#[test]
fn notice_text() {
    assert_eq!(
        unbridge_notice_reply_text(50).unwrap(),
        format!(
            "{} Owner of Channel ID `50` initiated an unbridge.\nThis cannot be cancelled.",
            glyph("warning")
        )
    );
}

#[test]
fn short_report_is_one_piece() {
    let chunks = report_chunks("hello");
    assert_eq!(chunks, vec![b"hello".to_vec()]);
    let exactly = "a".repeat(2000);
    assert_eq!(report_chunks(&exactly), vec![exactly.as_bytes().to_vec()]);
}

#[test]
fn long_report_is_cut() {
    let text = "b".repeat(2001);
    let chunks = report_chunks(&text);
    assert_eq!(chunks.len(), 2);
    assert_eq!(chunks[0].len(), 1900);
    assert_eq!(chunks[1].len(), 101);
    let text = "💥".repeat(1000);
    let chunks = report_chunks(&text);
    let expected: Vec<Vec<u8>> = text.as_bytes().chunks(1900).map(|c| c.to_vec()).collect();
    assert_eq!(chunks, expected);
    assert_eq!(chunks.concat(), text.as_bytes());
}
