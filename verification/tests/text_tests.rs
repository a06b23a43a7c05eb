use gcodekit::text::{begins_with, chars_of, find, parse_u32, parse_u64, parse_unsigned, string_of};

const SAMPLES: [&str; 30] = [
    "", "0", "7", "42", "007", "+", "+0", "+12", "++1", "+-1", "-", "-0", "-5", " 1", "1 ", "1 2",
    "1e3", "0x10", "12a", "a12", "4294967295", "4294967296", "18446744073709551615",
    "18446744073709551616", "99999999999999999999999999", "\u{0967}\u{0968}", "\u{ff11}\u{ff12}",
    "1_000", "+000009",
    "00000000000000000000000000000000000001",
];

#[test]
fn parse_u64_reads_what_the_standard_library_reads() {
    for text in SAMPLES {
        assert_eq!(parse_u64(text), text.parse::<u64>().ok(), "{:?}", text);
    }
}

#[test]
fn parse_u32_reads_what_the_standard_library_reads() {
    for text in SAMPLES {
        assert_eq!(parse_u32(text), text.parse::<u32>().ok(), "{:?}", text);
    }
}

#[test]
fn parse_unsigned_honors_its_bound() {
    assert_eq!(parse_unsigned("255", 255), Some(255));
    assert_eq!(parse_unsigned("256", 255), None);
    assert_eq!(parse_unsigned("0", 0), Some(0));
    assert_eq!(parse_unsigned("1", 0), None);
    assert_eq!(parse_unsigned("9", 5), None);
    assert_eq!(parse_unsigned("+5", 5), Some(5));
    assert_eq!(parse_unsigned("0005", 5), Some(5));
    assert_eq!(parse_unsigned("", 5), None);
    for value in 0u64..300 {
        let text = value.to_string();
        assert_eq!(parse_unsigned(&text, 255), text.parse::<u8>().ok().map(u64::from));
    }
}

#[test]
fn chars_and_strings_convert_back_and_forth() {
    for text in ["", "G0 X1", "\u{e9}t\u{e9}", "a\nb", "\u{1f600}!"] {
        let chars = chars_of(text);
        assert_eq!(chars, text.chars().collect::<Vec<char>>());
        assert_eq!(string_of(&chars, 0, chars.len()), text);
    }
    let chars = chars_of("G0 X1 Y2");
    assert_eq!(string_of(&chars, 3, 5), "X1");
    assert_eq!(string_of(&chars, 8, 8), "");
    assert_eq!(string_of(&chars, 0, 0), "");
}

#[test]
fn begins_with_compares_the_first_characters() {
    let text = chars_of("serial:/dev/ttyUSB0");
    assert!(begins_with(&text, &chars_of("serial:")));
    assert!(begins_with(&text, &chars_of("")));
    assert!(begins_with(&text, &text));
    assert!(!begins_with(&text, &chars_of("Serial:")));
    assert!(!begins_with(&text, &chars_of("serial:/dev/ttyUSB00")));
    assert!(!begins_with(&chars_of(""), &chars_of("x")));
    assert!(begins_with(&chars_of(""), &chars_of("")));
}

#[test]
fn find_gives_the_first_position_or_the_length() {
    let text = chars_of("a:b:c");
    assert_eq!(find(&text, ':'), 1);
    assert_eq!(find(&text, 'a'), 0);
    assert_eq!(find(&text, 'c'), 4);
    assert_eq!(find(&text, '?'), 5);
    assert_eq!(find(&chars_of(""), '?'), 0);
    for (text, mark) in [("abc", 'c'), ("", 'x'), ("xyz", 'q'), ("\u{e9}?", '?')] {
        let expected = text.chars().position(|c| c == mark).unwrap_or(text.chars().count());
        assert_eq!(find(&chars_of(text), mark), expected);
    }
}
