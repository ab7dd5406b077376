use discord_bridgebot::relay::{log_preview, relay_plan, relay_source, Mirror};

#[test]
fn bots_are_not_relayed() {
    assert_eq!(relay_source(true, 5), None);
    assert_eq!(relay_source(false, 5), Some(5));
    assert_eq!(relay_source(false, u64::MAX), Some(-1));
}

#[test]
fn readme_scenario() {
    let plan = relay_plan(&vec![(1, 2)], "Alice", "hello world");
    assert_eq!(plan, vec![Mirror { channel: 2, text: "🔊 Alice: hello world".to_string() }]);
}

#[test]
fn one_copy_per_bridge() {
    let plan = relay_plan(&vec![(1, 2), (1, 3), (1, -4)], "John", "oh, hi Alice!");
    assert_eq!(plan.len(), 3);
    assert_eq!(plan[0].channel, 2);
    assert_eq!(plan[1].channel, 3);
    assert_eq!(plan[2].channel, (-4i64) as u64);
    for m in &plan {
        assert_eq!(m.text, "🔊 John: oh, hi Alice!");
    }
    assert!(relay_plan(&vec![], "a", "b").is_empty());
}

#[test]
fn preview_short() {
    let (a, m) = log_preview("Al", "hi");
    assert_eq!(a, "Al      ");
    assert_eq!(m, "hi              ");
}

#[test]
fn preview_long() {
    let (a, m) = log_preview("Bartholomew", "this message is rather long");
    assert_eq!(a, "Bartholo");
    assert_eq!(m, "this message is...");
}

#[test]
fn preview_agrees_with_format() {
    for content in ["", "hi", "exactly sixteen!", "seventeen chars!!", "éééééééé", "ééééééééé", "🔊🔊🔊🔊🔊"] {
        let part: String = content.chars().take(16).collect();
        let mut expected = format!("{:<16}", part);
        if content.len() > 16 {
            expected.pop();
            expected.push_str("...");
        }
        assert_eq!(log_preview("x", content).1, expected, "content {:?}", content);
    }
}
