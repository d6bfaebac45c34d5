use worker_supervisor::text::{
    char_is_white_space, decimal, is_blank, optional_number, or_dash, signed_decimal, trimmed,
};

#[test]
fn white_space_agrees_with_the_standard_library_on_every_character() {
    let mut count = 0;
    for code in 0u32..=0x10FFFF {
        if let Some(c) = char::from_u32(code) {
            assert_eq!(char_is_white_space(c), c.is_whitespace(), "U+{:04X}", code);
            if char_is_white_space(c) {
                count += 1;
            }
        }
    }
    assert_eq!(count, 25);
}

#[test]
fn blank_texts() {
    for s in ["", " ", "\t\n\r", "\u{0b}\u{0c}", "\u{85}\u{a0}\u{1680}\u{2028}\u{2029}\u{202f}"] {
        assert!(is_blank(s), "{:?}", s);
        assert!(s.trim().is_empty());
    }
    for s in ["a", " a", "a ", "\u{200b}", "\u{feff}", "_", "\u{1}"] {
        assert!(!is_blank(s), "{:?}", s);
        assert!(!s.trim().is_empty());
    }
}

#[test]
fn trimming_agrees_with_the_standard_library() {
    let samples = [
        "",
        " ",
        "a",
        "  a",
        "a  ",
        " a b ",
        "\r\n SUCCESS: done \r\n",
        "\u{3000}x\u{2003}y\u{a0}",
        "\t\t",
        "é \u{1f600} ",
        " \u{200b} ",
    ];
    for s in samples {
        assert_eq!(trimmed(s), s.trim(), "{:?}", s);
    }
    assert_eq!(trimmed("  two words \n"), "two words");
}

#[test]
fn decimal_numerals() {
    assert_eq!(decimal(0), "0");
    assert_eq!(decimal(7), "7");
    assert_eq!(decimal(10), "10");
    assert_eq!(decimal(8000), "8000");
    assert_eq!(decimal(u64::MAX), "18446744073709551615");
    for n in [9u64, 99, 100, 101, 1234567890, 1 << 40] {
        assert_eq!(decimal(n), n.to_string());
    }
}

#[test]
fn signed_numerals() {
    assert_eq!(signed_decimal(0), "0");
    assert_eq!(signed_decimal(-1), "-1");
    assert_eq!(signed_decimal(i32::MAX), "2147483647");
    assert_eq!(signed_decimal(i32::MIN), "-2147483648");
    for n in [-1073741510i32, -15, 3, 259] {
        assert_eq!(signed_decimal(n), n.to_string());
    }
}

#[test]
fn optional_numbers() {
    assert_eq!(optional_number(None), "None");
    assert_eq!(optional_number(Some(0)), "Some(0)");
    assert_eq!(optional_number(Some(-9)), "Some(-9)");
    assert_eq!(optional_number(Some(1)), format!("{:?}", Some(1)));
    assert_eq!(optional_number(None), format!("{:?}", None::<i32>));
}

#[test]
fn dash_stands_for_empty_text() {
    assert_eq!(or_dash(String::new()), "-");
    assert_eq!(or_dash(String::from(" ")), " ");
    assert_eq!(or_dash(String::from("x")), "x");
}
