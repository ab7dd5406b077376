use discord_bridgebot::decimal::{parse_i64, render_i64, render_u64, IntErrorKind};

fn std_kind(text: &str) -> Result<i64, IntErrorKind> {
    match text.parse::<i64>() {
        Ok(v) => Ok(v),
        Err(e) => Err(match e.kind() {
            std::num::IntErrorKind::Empty => IntErrorKind::Empty,
            std::num::IntErrorKind::InvalidDigit => IntErrorKind::InvalidDigit,
            std::num::IntErrorKind::PosOverflow => IntErrorKind::PosOverflow,
            std::num::IntErrorKind::NegOverflow => IntErrorKind::NegOverflow,
            _ => panic!("unexpected error kind"),
        }),
    }
}

const SAMPLES: &[&str] = &[
    "",
    "+",
    "-",
    "0",
    "-0",
    "+0",
    "7",
    "+7",
    "-45",
    "123",
    "007",
    "12a",
    "a12",
    " 1",
    "1 ",
    "1_000",
    "--1",
    "+-1",
    "١٢",
    "12é",
    "9223372036854775807",
    "9223372036854775808",
    "-9223372036854775808",
    "-9223372036854775809",
    "99999999999999999999x",
    "x99999999999999999999",
    "-99999999999999999999x",
    "1234567890123456789",
    "898051927206674443",
];

#[test]
fn parse_matches_std_on_samples() {
    for s in SAMPLES {
        assert_eq!(parse_i64(s), std_kind(s), "text {:?}", s);
    }
}

#[test]
fn parse_values() {
    assert_eq!(parse_i64("123"), Ok(123));
    assert_eq!(parse_i64("-45"), Ok(-45));
    assert_eq!(parse_i64("+7"), Ok(7));
    assert_eq!(parse_i64("9223372036854775807"), Ok(i64::MAX));
    assert_eq!(parse_i64("-9223372036854775808"), Ok(i64::MIN));
}

#[test]
fn parse_errors() {
    assert_eq!(parse_i64(""), Err(IntErrorKind::Empty));
    assert_eq!(parse_i64("+"), Err(IntErrorKind::InvalidDigit));
    assert_eq!(parse_i64("-"), Err(IntErrorKind::InvalidDigit));
    assert_eq!(parse_i64("12a"), Err(IntErrorKind::InvalidDigit));
    assert_eq!(parse_i64("9223372036854775808"), Err(IntErrorKind::PosOverflow));
    assert_eq!(parse_i64("-9223372036854775809"), Err(IntErrorKind::NegOverflow));
    assert_eq!(parse_i64("99999999999999999999x"), Err(IntErrorKind::PosOverflow));
    assert_eq!(parse_i64("x99999999999999999999"), Err(IntErrorKind::InvalidDigit));
}

#[test]
fn render_values() {
    assert_eq!(render_u64(0), "0");
    assert_eq!(render_u64(10), "10");
    assert_eq!(render_u64(u64::MAX), "18446744073709551615");
    assert_eq!(render_i64(-1), "-1");
    assert_eq!(render_i64(i64::MIN), "-9223372036854775808");
    assert_eq!(render_i64(i64::MAX), "9223372036854775807");
    assert_eq!(render_i64(898051927206674443), "898051927206674443");
}

#[test]
fn render_agrees_with_format() {
    for n in [0i64, 1, 9, 10, 99, 100, -7, -10, 123456789, i64::MIN, i64::MAX, i64::MIN + 1] {
        assert_eq!(render_i64(n), format!("{}", n));
    }
    for n in [0u64, 5, 42, 1000, u64::MAX, 1u64 << 63] {
        assert_eq!(render_u64(n), format!("{}", n));
    }
}

#[test]
fn round_trip_of_written_numbers() {
    for n in [0i64, 1, -1, 42, -42, i64::MIN, i64::MAX, 1234567890123] {
        assert_eq!(parse_i64(&render_i64(n)), Ok(n));
    }
}

#[test]
fn channel_id_round_trip() {
    for id in [1u64, 898051927206674443, i64::MAX as u64] {
        assert_eq!(parse_i64(&render_u64(id)), Ok(id as i64));
    }
}
