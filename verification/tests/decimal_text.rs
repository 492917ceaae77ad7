use taskbar_stats_settings::decimal::{decimal_text, parse_u32, signed_decimal_text};

#[test]
fn parse_agrees_with_std() {
    let inputs = [
        "", "0", "7", "30", "+30", "+", "-", "-5", "-0", "007", " 5", "5 ", "12a", "4294967295",
        "4294967296", "99999999999", "+4294967295", "٣", "1_000", "++1", "00000000000000000001",
    ];
    for s in inputs {
        assert_eq!(parse_u32(s), s.parse::<u32>().ok(), "input {:?}", s);
    }
}

#[test]
fn decimal_agrees_with_std() {
    for n in [0u64, 1, 9, 10, 30, 99, 100, 480, 3600, 4294967295, u64::MAX] {
        assert_eq!(decimal_text(n), n.to_string());
    }
}

#[test]
fn signed_decimal_agrees_with_std() {
    for v in [0i64, 5, -5, 1783785846, -10, i64::MIN, i64::MAX] {
        assert_eq!(signed_decimal_text(v), v.to_string());
    }
}

#[test]
fn decimal_round_trip() {
    for n in [0u32, 5, 30, 300, 3600, u32::MAX] {
        assert_eq!(parse_u32(&decimal_text(n as u64)), Some(n));
    }
}
