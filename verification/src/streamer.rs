//! The synchronous streaming engine.

use vstd::prelude::*;
use crate::engine::{streamed, Directive, Engine};
use crate::error::{StreamError, TransportError};
use crate::machine::{ControlSignals, Model, State};
use crate::text::texts;
use crate::transport::{ack_report, halted, sent_report, Channel, Frame, Transport};

verus! {

/// The streaming engine: drives lines across a channel one exchange at a
/// time under a window bound, judges every acknowledgment, and honors pause,
/// resume and emergency stop.
///
/// The engine decides and its driver does the outside work: threads, locks
/// and waiting belong to the driver, so that a controller can pause, resume
/// or stop the engine between any two of its transitions. Only a poll asks
/// for a line, and never of a paused or stopped engine: a driver polls
/// directly before it transmits and lets no controller in before it has
/// reported the transmission.
pub struct Streamer {
    engine: Engine<true>,
}

impl View for Streamer {
    type V = Model;

    closed spec fn view(&self) -> Model {
        self.engine@
    }
}

impl Streamer {
    /// Every streamer judges the acknowledgments that it is given.
    pub proof fn lemma_strict(&self)
        ensures
            self@.strict,
    {
        self.engine.lemma_strictness();
    }

    /// A fresh engine with the given window: idle, neither paused nor
    /// stopped.
    pub fn new(window: usize) -> (streamer: Streamer)
        ensures
            streamer@ == Model::init(window as nat, true),
    {
        Streamer { engine: Engine::new(window) }
    }

    /// The window: the bound on the lines that may be unacknowledged at once.
    pub fn window(&self) -> (window: usize)
        ensures
            window == self@.window,
    {
        self.engine.window()
    }

    /// The number of transmitted lines that are not yet acknowledged.
    pub fn in_flight(&self) -> (count: usize)
        ensures
            count == self@.in_flight,
            count <= 1,
    {
        self.engine.in_flight()
    }

    pub fn is_paused(&self) -> (paused: bool)
        ensures
            paused == self@.paused,
    {
        self.engine.is_paused()
    }

    pub fn is_stopped(&self) -> (stopped: bool)
        ensures
            stopped == self@.stopped,
    {
        self.engine.is_stopped()
    }

    /// The control signals as they stand.
    pub fn signals(&self) -> (signals: ControlSignals)
        ensures
            signals == self@.signals(),
    {
        self.engine.signals()
    }

    /// The state shown to observers.
    pub fn state(&self) -> (state: State)
        ensures
            state == self@.state(),
            self@.wf(),
    {
        self.engine.state()
    }

    /// The number of lines of the current call that have been transmitted.
    pub fn transmitted(&self) -> (count: usize)
        ensures
            count == self@.cursor,
            count <= self@.total,
    {
        self.engine.transmitted()
    }

    /// Sets `paused`: dispatch is suspended from the next checkpoint on.
    /// Touches the control signals only, never the channel.
    pub fn pause(&mut self)
        ensures
            final(self)@ == old(self)@.pause(),
            final(self)@.wf(),
    {
        self.engine.pause()
    }

    /// Clears `paused`. Touches the control signals only, never the channel;
    /// waking whoever waits is the driver's part.
    pub fn resume(&mut self)
        ensures
            final(self)@ == old(self)@.resume(),
            final(self)@.wf(),
    {
        self.engine.resume()
    }

    /// Sets `stopped`, which is final, and leaves the channel alone: for a
    /// driver that must not hold the engine while it writes the halt token.
    pub fn stop(&mut self)
        ensures
            final(self)@ == old(self)@.stop(),
            final(self)@.wf(),
    {
        self.engine.stop()
    }

    /// Emergency stop: sets `stopped`, which is final, and writes the halt
    /// token to the channel. A failure of that write is reported to the
    /// caller; the engine is stopped either way.
    pub fn emergency_stop<T: Transport>(&mut self, channel: &mut Channel<T>) -> (outcome: Result<
        (),
        StreamError,
    >)
        ensures
            final(self)@ == old(self)@.stop(),
            final(self)@.wf(),
            halted(old(channel).transcript(), final(channel).transcript(), outcome),
            outcome is Ok ==> final(channel).wire() == old(channel).wire().push(Frame::Halt),
            outcome is Err ==> final(channel).wire() == old(channel).wire(),
    {
        self.engine.emergency_stop(channel)
    }

    /// Starts a streaming call over `total` lines at most; a driver that
    /// does not know their number gives the largest.
    pub fn begin(&mut self, total: usize)
        ensures
            final(self)@ == old(self)@.begin(total as nat),
            final(self)@.wf(),
    {
        self.engine.begin(total)
    }

    /// What the driver is to do now. Only a poll asks for a line, and never
    /// of a stopped or paused engine: a driver that polls directly before it
    /// transmits sends nothing once a stop or a pause is set.
    pub fn poll(&mut self) -> (directive: Directive)
        ensures
            (final(self)@, directive@) == old(self)@.poll(),
            final(self)@.wf(),
            (old(self)@.stopped || old(self)@.paused) ==> !(directive@ is Send),
            !(directive@ is Proceed),
    {
        self.engine.poll()
    }

    /// Takes the driver's report on the transmission it was asked for.
    pub fn line_sent(&mut self, outcome: Result<(), TransportError>) -> (directive: Directive)
        ensures
            (final(self)@, directive@) == old(self)@.line_sent(sent_report(outcome)),
            final(self)@.wf(),
            !(directive@ is Send),
    {
        self.engine.line_sent(outcome)
    }

    /// Takes the driver's report on the acknowledgment it read.
    pub fn ack_received(&mut self, ack: Result<String, TransportError>) -> (directive: Directive)
        ensures
            (final(self)@, directive@) == old(self)@.ack_received(ack_report(ack)),
            final(self)@.wf(),
            !(directive@ is Send),
    {
        self.engine.ack_received(ack)
    }

    /// One exchange over a line that its caller holds: polls and, where the
    /// engine asks for a line, sends `line` and reads its acknowledgment, and
    /// reports both. Nothing comes between the poll and the send, so that no
    /// line is sent once a stop or a pause is set. Where an acknowledgment
    /// was outstanding it is read and reported instead, and `line` is not
    /// sent. The answer says what is next: `Proceed` after an exchange, a
    /// wait, or the end of the call. A caller whose lines come one by one
    /// streams them so: `begin`, an exchange for each line, `end_of_lines`.
    pub fn exchange<T: Transport>(&mut self, channel: &mut Channel<T>, line: &str) -> (directive:
        Directive)
        ensures
            final(self)@.wf(),
            old(channel).transcript().is_prefix_of(final(channel).transcript()),
            old(self)@.exchanged(
                line@,
                final(channel).transcript().skip(old(channel).transcript().len() as int),
            ) == Some((final(self)@, directive@)),
            !(directive@ is Send) && !(directive@ is ReadAck),
            (old(self)@.stopped || old(self)@.paused) && !(old(self)@.phase is AwaitingAck)
                ==> final(channel).transcript() == old(channel).transcript(),
    {
        self.engine.exchange(channel, line)
    }

    /// Takes the driver's report that its source holds no further line: the
    /// call ends with success, once the acknowledgment that may be
    /// outstanding has been read.
    pub fn end_of_lines(&mut self) -> (directive: Directive)
        ensures
            (final(self)@, directive@) == old(self)@.end(),
            final(self)@.wf(),
            !(directive@ is Send),
    {
        self.engine.end_of_lines()
    }

    /// Streams `lines` over `channel`, in order, as far as the control
    /// signals allow: starts a call and performs every exchange that the
    /// engine asks for, until the engine finishes the call or asks its caller
    /// to wait.
    ///
    /// The channel receives the lines that were transmitted, in the order
    /// in which they stand, and nothing else. The call finishes with success
    /// when the engine was stopped or every line was acknowledged, and with a
    /// device error at the first acknowledgment that is not a success; no
    /// line follows such an acknowledgment. On a paused engine nothing is
    /// sent and the caller is asked to wait.
    pub fn stream<T: Transport>(
        &mut self,
        channel: &mut Channel<T>,
        lines: &[String],
    ) -> (directive: Directive)
        ensures
            final(self)@.strict,
            old(channel).transcript().is_prefix_of(final(channel).transcript()),
            old(self)@.begin(lines@.len()).replay(
                texts(lines@),
                final(channel).transcript().skip(old(channel).transcript().len() as int),
            ) == Some((final(self)@, directive@)),
            streamed(
                old(self)@,
                final(self)@,
                directive@,
                texts(lines@),
                old(channel).wire(),
                final(channel).wire(),
            ),
    {
        let directive = self.engine.stream(channel, lines);
        proof {
            self.engine.lemma_strictness();
        }
        directive
    }
}

} // verus!
