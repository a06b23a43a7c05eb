//! The capability that every channel to a device offers, and what the
//! engines do with it.

use vstd::prelude::*;
use crate::error::{StreamError, StreamFault, TransportError, TransportFault};

verus! {

/// One unit that a channel has accepted for transmission.
pub enum Frame {
    /// An ordinary command line, without its terminator.
    Line(Seq<char>),
    /// The immediate-halt token.
    Halt,
}

/// One operation that went through a channel, and how it went.
pub enum Step {
    /// A line was handed to the transport, which took it or failed.
    Send(Seq<char>, Result<(), TransportFault>),
    /// The halt token was handed to the transport, which took it or failed.
    Halt(Result<(), TransportFault>),
    /// A line was asked of the transport, which gave one or failed.
    Read(Result<Seq<char>, TransportFault>),
    /// The transport was asked to force its output out.
    Flush(Result<(), TransportFault>),
    /// The transport was asked to tear itself down.
    Disconnect(Result<(), TransportFault>),
}

/// What the transport accepted for transmission in the course of these
/// steps, oldest first.
pub open spec fn frames(steps: Seq<Step>) -> Seq<Frame>
    decreases steps.len(),
{
    if steps.len() == 0 {
        Seq::<Frame>::empty()
    } else {
        let before = frames(steps.drop_last());
        match steps.last() {
            Step::Send(line, Ok(())) => before.push(Frame::Line(line)),
            Step::Halt(Ok(())) => before.push(Frame::Halt),
            _ => before,
        }
    }
}

/// The mathematical value of the outcome of a write.
pub open spec fn sent_report(outcome: Result<(), TransportError>) -> Result<(), TransportFault> {
    match outcome {
        Ok(()) => Ok(()),
        Err(error) => Err(error@),
    }
}

/// The mathematical value of the outcome of a read.
pub open spec fn ack_report(ack: Result<String, TransportError>) -> Result<
    Seq<char>,
    TransportFault,
> {
    match ack {
        Ok(text) => Ok(text@),
        Err(error) => Err(error@),
    }
}

/// The outcome of a write as a streaming call reports it: a failure is
/// wrapped and otherwise unchanged.
pub open spec fn wrapped(written: Result<(), TransportError>) -> Result<(), StreamError> {
    match written {
        Ok(()) => Ok(()),
        Err(error) => Err(StreamError::Transport(error)),
    }
}

/// What a halt leaves on record: one more step, the write of the halt
/// token, whose failure is what the caller gets, wrapped but otherwise
/// unchanged.
pub open spec fn halted(
    before: Seq<Step>,
    after: Seq<Step>,
    outcome: Result<(), StreamError>,
) -> bool {
    &&& after.len() == before.len() + 1
    &&& after.drop_last() == before
    &&& match after.last() {
        Step::Halt(Ok(())) => outcome is Ok,
        Step::Halt(Err(fault)) => outcome matches Err(error) && error@ == StreamFault::Transport(
            fault,
        ),
        _ => false,
    }
}

/// The frames of a sequence of command lines, in order.
pub open spec fn line_frames(lines: Seq<Seq<char>>) -> Seq<Frame> {
    Seq::new(lines.len(), |i: int| Frame::Line(lines[i]))
}

/// The capability of a channel to a device: serial port, TCP or UDP
/// socket, WebSocket, or a stand-in for one.
pub trait Transport {
    /// Transmits one line and whatever terminator the wire protocol requires.
    /// Fails with `Io` when the write fails.
    fn send_line(&mut self, line: &str) -> Result<(), TransportError>;

    /// Writes the immediate-halt token, best effort: no acknowledgment is
    /// awaited.
    fn emergency_stop(&mut self) -> Result<(), TransportError>;

    /// Forces buffered output out. Does nothing where nothing is buffered.
    fn flush(&mut self) -> Result<(), TransportError>;

    /// Tears the channel down. May be repeated.
    fn disconnect(&mut self) -> Result<(), TransportError>;

    /// Probes liveness without blocking.
    fn is_alive(&self) -> Result<bool, TransportError>;

    /// Waits for one terminated line, or for the timeout, and returns the
    /// line without its terminator. Fails with `Timeout` or `Io`.
    fn read_line(&mut self) -> Result<String, TransportError>;
}

/// A boxed transport is a transport: every operation is the one of the
/// transport in the box. Each contract says so: the call is handed the
/// transport in the box as it stands, what it returns is returned, and what
/// it leaves of the transport is in the box afterwards.
impl<T: Transport + ?Sized> Transport for Box<T> {
    fn send_line(&mut self, line: &str) -> (outcome: Result<(), TransportError>)
        ensures
            exists|via: &mut T|
                &*via == &**old(self) && &*final(via) == &**final(self)
                    && #[trigger] call_ensures(T::send_line, (via, line), outcome),
    {
        let inner: &mut T = &mut **self;
        let outcome = inner.send_line(line);
        outcome
    }

    fn emergency_stop(&mut self) -> (outcome: Result<(), TransportError>)
        ensures
            exists|via: &mut T|
                &*via == &**old(self) && &*final(via) == &**final(self)
                    && #[trigger] call_ensures(T::emergency_stop, (via,), outcome),
    {
        let inner: &mut T = &mut **self;
        let outcome = inner.emergency_stop();
        outcome
    }

    fn flush(&mut self) -> (outcome: Result<(), TransportError>)
        ensures
            exists|via: &mut T|
                &*via == &**old(self) && &*final(via) == &**final(self)
                    && #[trigger] call_ensures(T::flush, (via,), outcome),
    {
        let inner: &mut T = &mut **self;
        let outcome = inner.flush();
        outcome
    }

    fn disconnect(&mut self) -> (outcome: Result<(), TransportError>)
        ensures
            exists|via: &mut T|
                &*via == &**old(self) && &*final(via) == &**final(self)
                    && #[trigger] call_ensures(T::disconnect, (via,), outcome),
    {
        let inner: &mut T = &mut **self;
        let outcome = inner.disconnect();
        outcome
    }

    fn is_alive(&self) -> (alive: Result<bool, TransportError>)
        ensures
            call_ensures(T::is_alive, (&**self,), alive),
    {
        let inner: &T = &**self;
        inner.is_alive()
    }

    fn read_line(&mut self) -> (answer: Result<String, TransportError>)
        ensures
            exists|via: &mut T|
                &*via == &**old(self) && &*final(via) == &**final(self)
                    && #[trigger] call_ensures(T::read_line, (via,), answer),
    {
        let inner: &mut T = &mut **self;
        let answer = inner.read_line();
        answer
    }
}

/// A transport together with the record of what went through it: the only
/// way by which the engines reach a device.
pub struct Channel<T: Transport> {
    transport: T,
    record: Ghost<Seq<Step>>,
}

impl<T: Transport> Channel<T> {
    /// Every send, halt, read, flush and disconnect that went through this
    /// channel, with its outcome, oldest first.
    pub closed spec fn transcript(&self) -> Seq<Step> {
        self.record@
    }

    /// Everything that the transport has accepted for transmission through
    /// this channel, oldest first.
    pub open spec fn wire(&self) -> Seq<Frame> {
        frames(self.transcript())
    }

    /// The transport of this channel.
    pub closed spec fn inner(&self) -> T {
        self.transport
    }

    /// A channel over `transport`, with nothing on record.
    pub fn new(transport: T) -> (channel: Channel<T>)
        ensures
            channel.inner() == transport,
            channel.transcript() == Seq::<Step>::empty(),
            channel.wire() == Seq::<Frame>::empty(),
    {
        Channel { transport, record: Ghost(Seq::empty()) }
    }

    /// Gives the transport back.
    pub fn into_inner(self) -> (transport: T)
        ensures
            transport == self.inner(),
    {
        self.transport
    }

    /// Puts a step on record. The transport stays as it is.
    fn note(&mut self, Ghost(step): Ghost<Step>)
        ensures
            final(self).transcript() == old(self).transcript().push(step),
            final(self).inner() == old(self).inner(),
            final(self).wire() == (match step {
                Step::Send(line, Ok(())) => old(self).wire().push(Frame::Line(line)),
                Step::Halt(Ok(())) => old(self).wire().push(Frame::Halt),
                _ => old(self).wire(),
            }),
    {
        proof {
            assert(self.record@.push(step).drop_last() =~= self.record@);
            self.record@ = self.record@.push(step);
        }
    }

    /// Transmits one line: the `send_line` of the transport, on the
    /// transport as it stands and with this line. What it returns is
    /// returned, and what it leaves of the transport is the transport of the
    /// channel afterwards. What the transport accepts goes on the wire; a
    /// line that it fails to send does not.
    pub fn send_line(&mut self, line: &str) -> (outcome: Result<(), TransportError>)
        ensures
            final(self).transcript() == old(self).transcript().push(
                Step::Send(line@, sent_report(outcome)),
            ),
            outcome is Ok ==> final(self).wire() == old(self).wire().push(Frame::Line(line@)),
            outcome is Err ==> final(self).wire() == old(self).wire(),
            exists|via: &mut T|
                *via == old(self).inner() && *final(via) == final(self).inner()
                    && #[trigger] call_ensures(T::send_line, (via, line), outcome),
    {
        let transport: &mut T = &mut self.transport;
        let outcome = transport.send_line(line);
        self.note(Ghost(Step::Send(line@, sent_report(outcome))));
        outcome
    }

    /// Writes the immediate-halt token, best effort: the `emergency_stop`
    /// of the transport, on the transport as it stands; no acknowledgment is
    /// awaited. What it returns is returned, and what it leaves of the
    /// transport is the transport of the channel afterwards. What the
    /// transport accepts goes on the wire.
    pub fn emergency_stop(&mut self) -> (outcome: Result<(), TransportError>)
        ensures
            final(self).transcript() == old(self).transcript().push(
                Step::Halt(sent_report(outcome)),
            ),
            outcome is Ok ==> final(self).wire() == old(self).wire().push(Frame::Halt),
            outcome is Err ==> final(self).wire() == old(self).wire(),
            exists|via: &mut T|
                *via == old(self).inner() && *final(via) == final(self).inner()
                    && #[trigger] call_ensures(T::emergency_stop, (via,), outcome),
    {
        let transport: &mut T = &mut self.transport;
        let outcome = transport.emergency_stop();
        self.note(Ghost(Step::Halt(sent_report(outcome))));
        outcome
    }

    /// Forces buffered output out: the `flush` of the transport, on the
    /// transport as it stands. What it returns is returned, and what it
    /// leaves of the transport is the transport of the channel afterwards.
    /// The call goes on record; nothing goes on the wire.
    pub fn flush(&mut self) -> (outcome: Result<(), TransportError>)
        ensures
            final(self).transcript() == old(self).transcript().push(
                Step::Flush(sent_report(outcome)),
            ),
            final(self).wire() == old(self).wire(),
            exists|via: &mut T|
                *via == old(self).inner() && *final(via) == final(self).inner()
                    && #[trigger] call_ensures(T::flush, (via,), outcome),
    {
        let transport: &mut T = &mut self.transport;
        let outcome = transport.flush();
        self.note(Ghost(Step::Flush(sent_report(outcome))));
        outcome
    }

    /// Tears the transport down: the `disconnect` of the transport, on the
    /// transport as it stands. What it returns is returned, and what it
    /// leaves of the transport is the transport of the channel afterwards.
    /// The call goes on record; nothing goes on the wire.
    pub fn disconnect(&mut self) -> (outcome: Result<(), TransportError>)
        ensures
            final(self).transcript() == old(self).transcript().push(
                Step::Disconnect(sent_report(outcome)),
            ),
            final(self).wire() == old(self).wire(),
            exists|via: &mut T|
                *via == old(self).inner() && *final(via) == final(self).inner()
                    && #[trigger] call_ensures(T::disconnect, (via,), outcome),
    {
        let transport: &mut T = &mut self.transport;
        let outcome = transport.disconnect();
        self.note(Ghost(Step::Disconnect(sent_report(outcome))));
        outcome
    }

    /// Probes liveness without blocking: the answer is the one that the
    /// transport gives of itself.
    pub fn is_alive(&self) -> (alive: Result<bool, TransportError>)
        ensures
            call_ensures(T::is_alive, (&self.inner(),), alive),
    {
        let transport: &T = &self.transport;
        transport.is_alive()
    }

    /// Waits for one line from the device and returns it without its
    /// terminator: the `read_line` of the transport, on the transport as it
    /// stands. What it returns is returned, and what it leaves of the
    /// transport is the transport of the channel afterwards.
    pub fn read_line(&mut self) -> (answer: Result<String, TransportError>)
        ensures
            final(self).transcript() == old(self).transcript().push(
                Step::Read(ack_report(answer)),
            ),
            final(self).wire() == old(self).wire(),
            exists|via: &mut T|
                *via == old(self).inner() && *final(via) == final(self).inner()
                    && #[trigger] call_ensures(T::read_line, (via,), answer),
    {
        let transport: &mut T = &mut self.transport;
        let answer = transport.read_line();
        self.note(Ghost(Step::Read(ack_report(answer))));
        answer
    }

    /// Issues the immediate halt, by the `emergency_stop` of the transport
    /// on the transport as it stands, and reports a failure of the write to
    /// the caller, wrapped but otherwise unchanged.
    pub fn halt(&mut self) -> (outcome: Result<(), StreamError>)
        ensures
            halted(old(self).transcript(), final(self).transcript(), outcome),
            outcome is Ok ==> final(self).wire() == old(self).wire().push(Frame::Halt),
            outcome is Err ==> final(self).wire() == old(self).wire(),
            exists|via: &mut T, written: Result<(), TransportError>|
                *via == old(self).inner() && *final(via) == final(self).inner()
                    && #[trigger] call_ensures(T::emergency_stop, (via,), written)
                    && outcome == wrapped(written),
    {
        let written = self.emergency_stop();
        proof {
            assert(self.transcript().drop_last() =~= old(self).transcript());
        }
        match written {
            Ok(()) => Ok(()),
            Err(error) => Err(StreamError::Transport(error)),
        }
    }
}

/// Readiness banner of the channel layer.
pub fn hello_adapters() -> (banner: &'static str)
    ensures
        banner@ == "gcodekit-device-adapters: ready"@,
{
    "gcodekit-device-adapters: ready"
}

} // verus!
