//! How lines and halts stand on the wire of each kind of channel, and how
//! what comes back is read as a line.

use vstd::prelude::*;
use vstd::string::{StrSliceExecFns, StringExecFns, StringSliceAdditionalSpecFns};
use crate::error::{StreamError, StreamFault, TransportError};
use crate::text::{chars_of, string_of};

verus! {

/// The immediate-halt token.
pub const HALT_TOKEN: char = '!';

/// A text without the one line feed that it may end with.
pub open spec fn without_line_feed(text: Seq<char>) -> Seq<char> {
    if text.len() > 0 && text.last() == '\n' {
        text.drop_last()
    } else {
        text
    }
}

/// A text without the line feeds and carriage returns that it ends with.
pub open spec fn without_line_ending(text: Seq<char>) -> Seq<char>
    decreases text.len(),
{
    if text.len() > 0 && (text.last() == '\n' || text.last() == '\r') {
        without_line_ending(text.drop_last())
    } else {
        text
    }
}

/// The bytes that carry `line` over a byte stream: its UTF-8 encoding and a
/// line feed.
pub open spec fn stream_bytes(line: &str) -> Seq<u8> {
    line.spec_bytes().push(10u8)
}

/// The bytes that carry a halt: the token, and a line feed where the channel
/// terminates it.
pub open spec fn halt_bytes_of(terminated: bool) -> Seq<u8> {
    if terminated {
        seq![33u8, 10u8]
    } else {
        seq![33u8]
    }
}

/// What `String::from_utf8_lossy` makes of the bytes: their text, with the
/// replacement character in place of what is not UTF-8.
pub uninterp spec fn utf8_lossy(bytes: Seq<u8>) -> Seq<char>;

/// Calls `String::from_utf8_lossy`. Trusted: the text is the one that
/// [`utf8_lossy`] names.
#[verifier::external_body]
pub(crate) fn from_utf8_lossy(bytes: &Vec<u8>) -> (text: String)
    ensures
        text@ == utf8_lossy(bytes@),
{
    String::from_utf8_lossy(bytes).into_owned()
}

/// A line as it was read from a byte stream, without the line feed that
/// ended it.
pub fn strip_line_feed(line: &str) -> (text: String)
    ensures
        text@ == without_line_feed(line@),
{
    let chars = chars_of(line);
    let to: usize = if chars.len() > 0 && chars[chars.len() - 1] == '\n' {
        chars.len() - 1
    } else {
        chars.len()
    };
    proof {
        assert(chars@.subrange(0, to as int) =~= without_line_feed(chars@));
    }
    string_of(&chars, 0, to)
}

/// A line without the line feeds and carriage returns that it ends with.
pub fn strip_line_ending(line: &str) -> (text: String)
    ensures
        text@ == without_line_ending(line@),
{
    let chars = chars_of(line);
    let mut to: usize = chars.len();
    proof {
        assert(chars@.subrange(0, to as int) =~= chars@);
    }
    while to > 0 && (chars[to - 1] == '\n' || chars[to - 1] == '\r')
        invariant
            to <= chars@.len(),
            without_line_ending(chars@) == without_line_ending(chars@.subrange(0, to as int)),
        decreases to,
    {
        proof {
            assert(chars@.subrange(0, to as int).drop_last() =~= chars@.subrange(0, to - 1));
        }
        to -= 1;
    }
    string_of(&chars, 0, to)
}

/// What a read of a byte stream amounts to: a read of no byte at all is the
/// end of the stream, and the channel is closed; any other read gave the
/// line.
pub fn received(count: usize, line: String) -> (outcome: Result<String, TransportError>)
    ensures
        count == 0 ==> (outcome matches Err(error) && error is Closed),
        count > 0 ==> (outcome matches Ok(text) && text@ == line@),
{
    if count == 0 {
        Err(TransportError::Closed)
    } else {
        Ok(line)
    }
}

/// The bytes to write for `line` on a byte stream.
pub fn line_bytes(line: &str) -> (bytes: Vec<u8>)
    ensures
        bytes@ == stream_bytes(line),
{
    let mut bytes = line.as_bytes_vec();
    bytes.push(10u8);
    bytes
}

/// The bytes to write for a halt; `terminated` says whether the channel
/// ends the token with a line feed.
pub fn halt_bytes(terminated: bool) -> (bytes: Vec<u8>)
    ensures
        bytes@ == halt_bytes_of(terminated),
{
    let mut bytes: Vec<u8> = Vec::new();
    bytes.push(33u8);
    if terminated {
        bytes.push(10u8);
    }
    proof {
        assert(bytes@ =~= halt_bytes_of(terminated));
    }
    bytes
}

/// The text of a datagram that answers a line: its bytes as text, without
/// the line feed that ends it.
pub fn datagram_text(bytes: &Vec<u8>) -> (text: String)
    ensures
        text@ == without_line_feed(utf8_lossy(bytes@)),
{
    let raw = from_utf8_lossy(bytes);
    strip_line_feed(raw.as_str())
}

/// A message of a message-oriented channel.
#[derive(Debug, Clone, PartialEq, Eq)]
pub enum Message {
    Text(String),
    Binary(Vec<u8>),
    /// A control message, or anything else that carries no line.
    Other,
}

/// The line that a message carries: a text message is the line, a binary
/// message is read as text, and any other message violates the protocol.
pub fn message_line(message: Message) -> (line: Result<String, StreamError>)
    ensures
        match message {
            Message::Text(text) => line matches Ok(found) && found@ == text@,
            Message::Binary(bytes) => line matches Ok(found) && found@ == utf8_lossy(bytes@),
            Message::Other => line matches Err(error) && error@
                == StreamFault::ProtocolViolation("unsupported ws frame"@),
        },
{
    match message {
        Message::Text(text) => Ok(text),
        Message::Binary(bytes) => Ok(from_utf8_lossy(&bytes)),
        Message::Other => Err(
            StreamError::ProtocolViolation(String::from_str("unsupported ws frame")),
        ),
    }
}

} // verus!
