use gcodekit::error::{StreamError, TransportError};
use gcodekit::framing::{
    datagram_text, halt_bytes, line_bytes, message_line, received, strip_line_ending,
    strip_line_feed, Message, HALT_TOKEN,
};

#[test]
fn strip_line_feed_takes_one_line_feed() {
    assert_eq!(strip_line_feed("ok\n"), "ok");
    assert_eq!(strip_line_feed("ok"), "ok");
    assert_eq!(strip_line_feed("ok\n\n"), "ok\n");
    assert_eq!(strip_line_feed("ok\r\n"), "ok\r");
    assert_eq!(strip_line_feed("\n"), "");
    assert_eq!(strip_line_feed(""), "");
    assert_eq!(strip_line_feed("a\nb"), "a\nb");
}

#[test]
fn strip_line_ending_takes_every_trailing_line_ending() {
    assert_eq!(strip_line_ending("ok\r\n"), "ok");
    assert_eq!(strip_line_ending("ok\n\r\n\r"), "ok");
    assert_eq!(strip_line_ending("ok"), "ok");
    assert_eq!(strip_line_ending("\r\n"), "");
    assert_eq!(strip_line_ending(""), "");
    assert_eq!(strip_line_ending("a\r\nb\n"), "a\r\nb");
    assert_eq!(strip_line_ending(" ok \n"), " ok ");
    for text in ["G0 X1\n", "G0\r\r", "x", "", "\n\n", "a\nb\r\n"] {
        assert_eq!(strip_line_ending(text), text.trim_end_matches(&['\n', '\r'][..]));
    }
}

#[test]
fn line_bytes_ends_the_line_with_a_line_feed() {
    assert_eq!(line_bytes("G0 X0 Y0"), b"G0 X0 Y0\n".to_vec());
    assert_eq!(line_bytes(""), b"\n".to_vec());
    assert_eq!(line_bytes("M117 \u{e9}"), "M117 \u{e9}\n".as_bytes().to_vec());
}

#[test]
fn halt_bytes_is_the_token() {
    assert_eq!(HALT_TOKEN, '!');
    assert_eq!(halt_bytes(false), b"!".to_vec());
    assert_eq!(halt_bytes(true), b"!\n".to_vec());
}

#[test]
fn test_ws_sync_connect_send_receive() {
    // a text message comes back as the line that was sent
    let sent = strip_line_ending("hello\r\n");
    let resp = message_line(Message::Text(sent)).unwrap();
    assert_eq!(resp, "hello");
}

#[test]
fn message_line_reads_text_and_binary_and_nothing_else() {
    assert_eq!(message_line(Message::Text("ok".to_string())), Ok("ok".to_string()));
    assert_eq!(message_line(Message::Text("".to_string())), Ok("".to_string()));
    assert_eq!(message_line(Message::Binary(b"ok T:20".to_vec())), Ok("ok T:20".to_string()));
    assert_eq!(
        message_line(Message::Binary(vec![b'o', 0xff, b'k'])),
        Ok("o\u{fffd}k".to_string())
    );
    assert_eq!(
        message_line(Message::Other),
        Err(StreamError::ProtocolViolation("unsupported ws frame".to_string()))
    );
}

#[test]
fn datagram_text_reads_bytes_as_a_line() {
    assert_eq!(datagram_text(&b"ok\n".to_vec()), "ok");
    assert_eq!(datagram_text(&b"ok".to_vec()), "ok");
    assert_eq!(datagram_text(&vec![]), "");
    assert_eq!(datagram_text(&vec![0xc3, 0x28, b'\n']), "\u{fffd}(");
}

#[test]
fn a_read_of_no_byte_is_the_end_of_the_stream() {
    assert_eq!(received(0, String::new()), Err(TransportError::Closed));
    assert_eq!(received(0, "ok".to_string()), Err(TransportError::Closed));
    assert_eq!(received(1, String::new()), Ok(String::new()));
    assert_eq!(received(3, "ok".to_string()), Ok("ok".to_string()));
    // a line feed alone is an empty line, not the end
    assert_eq!(received("\n".len(), strip_line_feed("\n")), Ok(String::new()));
}
