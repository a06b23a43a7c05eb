//! Error taxonomy shared by the channels and the streaming engines.

use vstd::prelude::*;
use vstd::string::StringExecFns;

verus! {

/// Failure of the channel itself.
#[derive(Debug, Clone, PartialEq, Eq)]
pub enum TransportError {
    /// A read or write on the channel failed; carries the platform's message.
    Io(String),
    /// The configured timeout elapsed before the operation completed.
    Timeout,
    /// The channel is no longer open.
    Closed,
}

/// Mathematical value of a [`TransportError`].
pub enum TransportFault {
    Io(Seq<char>),
    Timeout,
    Closed,
}

impl View for TransportError {
    type V = TransportFault;

    open spec fn view(&self) -> TransportFault {
        match self {
            TransportError::Io(message) => TransportFault::Io(message@),
            TransportError::Timeout => TransportFault::Timeout,
            TransportError::Closed => TransportFault::Closed,
        }
    }
}

/// The kinds of failure of a read or a write that a channel tells apart.
#[derive(Debug, Clone, Copy, PartialEq, Eq, Structural)]
pub enum IoFailure {
    /// The operation ran out of time.
    TimedOut,
    /// The operation would have had to wait, on a channel with a timeout.
    WouldBlock,
    NotConnected,
    BrokenPipe,
    ConnectionReset,
    ConnectionAborted,
    /// The stream ended in the middle of what was to be read.
    UnexpectedEof,
    /// Any other failure.
    Other,
}

impl IoFailure {
    /// The failure of a channel that this kind of failure amounts to, if the
    /// kind alone decides it.
    pub open spec fn verdict(self) -> Option<TransportFault> {
        match self {
            IoFailure::TimedOut | IoFailure::WouldBlock => Some(TransportFault::Timeout),
            IoFailure::NotConnected
            | IoFailure::BrokenPipe
            | IoFailure::ConnectionReset
            | IoFailure::ConnectionAborted
            | IoFailure::UnexpectedEof => Some(TransportFault::Closed),
            IoFailure::Other => None,
        }
    }
}

impl TransportError {
    /// The failure of a channel that a failure of the platform amounts to: a
    /// read or write that ran out of time is a `Timeout`, one on a connection
    /// that is gone is `Closed`, and any other is `Io` with the platform's
    /// message.
    pub fn from_io(kind: IoFailure, message: String) -> (error: TransportError)
        ensures
            error@ == (match kind.verdict() {
                Some(fault) => fault,
                None => TransportFault::Io(message@),
            }),
    {
        match kind {
            IoFailure::TimedOut | IoFailure::WouldBlock => TransportError::Timeout,
            IoFailure::NotConnected
            | IoFailure::BrokenPipe
            | IoFailure::ConnectionReset
            | IoFailure::ConnectionAborted
            | IoFailure::UnexpectedEof => TransportError::Closed,
            IoFailure::Other => TransportError::Io(message),
        }
    }
}

/// Why a streaming operation was aborted.
#[derive(Debug, Clone, PartialEq, Eq)]
pub enum StreamError {
    /// The channel failed; the failure is passed on unchanged.
    Transport(TransportError),
    /// The device answered a line with something other than an acceptance;
    /// carries the answer verbatim.
    Device(String),
    /// A frame arrived that the line protocol has no place for.
    ProtocolViolation(String),
}

/// Mathematical value of a [`StreamError`].
pub enum StreamFault {
    Transport(TransportFault),
    Device(Seq<char>),
    ProtocolViolation(Seq<char>),
}

impl View for StreamError {
    type V = StreamFault;

    open spec fn view(&self) -> StreamFault {
        match self {
            StreamError::Transport(error) => StreamFault::Transport(error@),
            StreamError::Device(ack) => StreamFault::Device(ack@),
            StreamError::ProtocolViolation(what) => StreamFault::ProtocolViolation(what@),
        }
    }
}

/// Failure of an operation of the core outside a streaming call.
#[derive(Debug, Clone, PartialEq, Eq)]
pub enum CoreError {
    /// An operation of the platform failed; carries its message.
    Io(String),
    /// A channel failed or could not be had.
    Transport(String),
    /// A setting or an endpoint descriptor is malformed.
    Config(String),
    Other(String),
}

impl CoreError {
    /// The text that [`CoreError::message`] returns.
    pub open spec fn message_text(self) -> Seq<char> {
        match self {
            CoreError::Io(detail) => "IO error: "@ + detail@,
            CoreError::Transport(detail) => "Transport error: "@ + detail@,
            CoreError::Config(detail) => "Config error: "@ + detail@,
            CoreError::Other(detail) => "Other error: "@ + detail@,
        }
    }

    /// The error as a line of text: its kind, then its detail.
    pub fn message(&self) -> (text: String)
        ensures
            text@ == self.message_text(),
    {
        match self {
            CoreError::Io(detail) => String::from_str("IO error: ").concat(detail.as_str()),
            CoreError::Transport(detail) => String::from_str("Transport error: ").concat(
                detail.as_str(),
            ),
            CoreError::Config(detail) => String::from_str("Config error: ").concat(detail.as_str()),
            CoreError::Other(detail) => String::from_str("Other error: ").concat(detail.as_str()),
        }
    }
}

} // verus!
