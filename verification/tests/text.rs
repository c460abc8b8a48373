use esmart_mqtt::text::{
    chars_of, ends_with, parse_unsigned_chars, push_decimal, starts_with, string_of, trim_chars,
};

const SAMPLES: &[&str] = &[
    "",
    " ",
    "ON",
    "  on  ",
    "\t\n 21.5 \r\n",
    "\u{a0}x\u{3000}",
    "\u{2003}mid dle\u{2029}",
    "\u{85}\u{1680}a\u{202f}\u{205f}",
    "\u{200b}zero-width is not whitespace\u{200b}",
    "éé",
];

#[test]
fn trim_agrees_with_std() {
    for s in SAMPLES {
        let t = trim_chars(&chars_of(s));
        assert_eq!(string_of(&t), s.trim(), "{:?}", s);
    }
}

#[test]
fn parse_agrees_with_std() {
    let inputs = [
        "", "+", "-", "0", "00", "+5", "-5", "++5", "65535", "65536", "007", "1 2", "٣", "99999999999999999999",
        "255", "256", " 1", "1_000",
    ];
    for s in inputs {
        let c = chars_of(s);
        assert_eq!(parse_unsigned_chars(&c, 65535), s.parse::<u16>().ok().map(u64::from), "{:?}", s);
        assert_eq!(parse_unsigned_chars(&c, 255), s.parse::<u8>().ok().map(u64::from), "{:?}", s);
    }
}

#[test]
fn decimal_agrees_with_display() {
    for n in [0u64, 7, 10, 99, 100, 65535, u64::MAX] {
        let mut s = String::from(">");
        push_decimal(&mut s, n);
        assert_eq!(s, format!(">{}", n));
    }
}

#[test]
fn prefixes_and_suffixes() {
    let s = chars_of("room_12_mode");
    assert!(starts_with(&s, &chars_of("room_")));
    assert!(!starts_with(&s, &chars_of("fan_")));
    assert!(ends_with(&s, &chars_of("_mode")));
    assert!(!ends_with(&s, &chars_of("_setpoint")));
    assert!(starts_with(&s, &chars_of("")));
    assert!(!ends_with(&chars_of("e"), &chars_of("_mode")));
}

