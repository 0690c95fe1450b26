use afkrip::cli::decimal::{parse_i32, parse_u64};
use afkrip::cli::validators::{idle_time, mouse_range, NEGATIVE, NOT_AN_INTEGER};
use afkrip::cli::{Args, DEFAULT_IDLE_TIME, DEFAULT_MOUSE_RANGE};

const SAMPLES: [&str; 44] = [
    "",
    "0",
    "7",
    "10",
    "50",
    "007",
    "+5",
    "+0",
    "-0",
    "-5",
    "+",
    "-",
    "++5",
    "--5",
    "+-5",
    "-+5",
    " 5",
    "5 ",
    "5\n",
    "1_000",
    "1,000",
    "1.0",
    "1e3",
    "0x10",
    "ten",
    "12a",
    "a12",
    "٣",
    "１２",
    "2147483647",
    "2147483648",
    "+2147483647",
    "+2147483648",
    "-2147483648",
    "-2147483649",
    "4294967296",
    "18446744073709551615",
    "18446744073709551616",
    "+18446744073709551615",
    "99999999999999999999999999999999999999",
    "00000000000000000000000000000000000042",
    "-00000000000000000000000000000000000042",
    "3000000000",
    "-99999999999",
];

#[test]
fn idle_time_accepts_unsigned_decimals() {
    assert_eq!(idle_time("0"), Ok(0));
    assert_eq!(idle_time("10"), Ok(10));
    assert_eq!(idle_time("007"), Ok(7));
    assert_eq!(idle_time("+5"), Ok(5));
    assert_eq!(idle_time("18446744073709551615"), Ok(u64::MAX));
}

#[test]
fn idle_time_rejects_everything_else() {
    for value in ["", "+", "-", "-1", "-0", " 5", "5 ", "1.5", "ten", "1_0", "18446744073709551616"] {
        assert_eq!(idle_time(value), Err("must be valid positive integer"), "{:?}", value);
    }
}

#[test]
fn mouse_range_accepts_non_negative_decimals() {
    assert_eq!(mouse_range("0"), Ok(0));
    assert_eq!(mouse_range("50"), Ok(50));
    assert_eq!(mouse_range("+50"), Ok(50));
    assert_eq!(mouse_range("-0"), Ok(0));
    assert_eq!(mouse_range("2147483647"), Ok(i32::MAX));
}

#[test]
fn mouse_range_rejects_negative_integers() {
    assert_eq!(mouse_range("-1"), Err("must be positive integer"));
    assert_eq!(mouse_range("-50"), Err("must be positive integer"));
    assert_eq!(mouse_range("-2147483648"), Err("must be positive integer"));
}

#[test]
fn mouse_range_rejects_what_is_no_integer() {
    for value in ["", "+", "-", "--1", " 5", "5 ", "1.5", "ten", "2147483648", "-2147483649"] {
        assert_eq!(mouse_range(value), Err("must be valid positive integer"), "{:?}", value);
    }
}

#[test]
fn messages_of_the_validators() {
    assert_eq!(NOT_AN_INTEGER, "must be valid positive integer");
    assert_eq!(NEGATIVE, "must be positive integer");
}

#[test]
fn parse_u64_agrees_with_the_standard_library() {
    for value in SAMPLES {
        assert_eq!(parse_u64(value), value.parse::<u64>().ok(), "{:?}", value);
    }
}

#[test]
fn parse_i32_agrees_with_the_standard_library() {
    for value in SAMPLES {
        assert_eq!(parse_i32(value), value.parse::<i32>().ok(), "{:?}", value);
    }
}

#[test]
fn validators_agree_with_the_standard_library() {
    for value in SAMPLES {
        assert_eq!(idle_time(value).ok(), value.parse::<u64>().ok(), "{:?}", value);
        let expected = value.parse::<i32>().ok().filter(|number| *number >= 0);
        assert_eq!(mouse_range(value).ok(), expected, "{:?}", value);
    }
}

#[test]
fn defaults_are_ten_minutes_and_fifty_pixels() {
    assert_eq!(DEFAULT_IDLE_TIME, "10");
    assert_eq!(DEFAULT_MOUSE_RANGE, "50");
    let args = Args {
        idle_time: idle_time(DEFAULT_IDLE_TIME).unwrap(),
        mouse_range: mouse_range(DEFAULT_MOUSE_RANGE).unwrap(),
    };
    assert_eq!(args, Args { idle_time: 10, mouse_range: 50 });
}
