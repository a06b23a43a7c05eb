use gcodekit::protocol::{ack_accepted, starts_with_ok};

#[test]
fn ack_accepted_takes_ok_in_any_case() {
    assert!(ack_accepted("ok"));
    assert!(ack_accepted("OK"));
    assert!(ack_accepted("Ok"));
    assert!(ack_accepted("oK"));
    assert!(ack_accepted("ok T:21.5"));
    assert!(ack_accepted("okay"));
}

#[test]
fn ack_accepted_refuses_everything_else() {
    assert!(!ack_accepted("error: bad command"));
    assert!(!ack_accepted(""));
    assert!(!ack_accepted("o"));
    assert!(!ack_accepted(" ok"));
    assert!(!ack_accepted("k"));
    assert!(!ack_accepted("0k"));
    assert!(!ack_accepted("<Idle|MPos:0,0,0> ok"));
}

#[test]
fn ack_accepted_is_lowercase_prefix_check() {
    let samples = [
        "ok", "OK", "Ok", "oK", "okay", "OKAY", "o", "", "k", "ko", "error", "Error: ok", " ok",
        "ok\r", "\u{212a}", "O\u{212a}", "o\u{212a} done", "\u{3a9}k", "\u{130}", "ok\u{130}",
        "!", "0K",
    ];
    for s in samples {
        assert_eq!(ack_accepted(s), s.to_lowercase().starts_with("ok"), "{:?}", s);
    }
}

#[test]
fn ack_accepted_lowercases_before_it_looks() {
    // the Kelvin sign has the lowercase form `k`
    assert!(ack_accepted("O\u{212a}"));
    assert!(!starts_with_ok("O\u{212a}"));
}

#[test]
fn starts_with_ok_looks_at_two_characters() {
    assert!(starts_with_ok("ok"));
    assert!(starts_with_ok("ok then"));
    assert!(!starts_with_ok("OK"));
    assert!(!starts_with_ok("o"));
    assert!(!starts_with_ok(""));
    assert!(!starts_with_ok("no"));
}
