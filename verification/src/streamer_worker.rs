//! The minimal engine: no window bound, no judgment of acknowledgments.

use vstd::prelude::*;
use crate::engine::{streamed, Directive, Engine};
use crate::error::{StreamError, TransportError};
use crate::machine::{ControlSignals, Model, State};
use crate::text::texts;
use crate::transport::{ack_report, halted, sent_report, Channel, Frame, Transport};

verus! {

/// The reduced engine: for each line it checks stop and pause, sends, reads
/// one acknowledgment and discards it. It keeps the control contract of the
/// windowed engine and nothing else, which makes it a light stand-in for it.
pub struct StreamerWorker {
    engine: Engine<false>,
}

impl View for StreamerWorker {
    type V = Model;

    closed spec fn view(&self) -> Model {
        self.engine@
    }
}

impl StreamerWorker {
    /// Every worker is without a bound on its window and without judgment
    /// of acknowledgments: it never waits for capacity, and no answer of the
    /// device fails its call.
    pub proof fn lemma_unbounded(&self)
        ensures
            self@.window == usize::MAX,
            !self@.strict,
    {
        self.engine.lemma_strictness();
    }

    /// A fresh worker: idle, neither paused nor stopped, with no bound on the
    /// window and no judgment of acknowledgments.
    pub fn new() -> (worker: StreamerWorker)
        ensures
            worker@ == Model::init(usize::MAX as nat, false),
    {
        StreamerWorker { engine: Engine::new(usize::MAX) }
    }

    pub fn is_paused(&self) -> (paused: bool)
        ensures
            paused == self@.paused,
    {
        self.engine.is_paused()
    }

    pub fn is_stopped(&self) -> (stopped: bool)
        ensures
            stopped == self@.stopped,
    {
        self.engine.is_stopped()
    }

    /// The control signals as they stand.
    pub fn signals(&self) -> (signals: ControlSignals)
        ensures
            signals == self@.signals(),
    {
        self.engine.signals()
    }

    /// The state shown to observers.
    pub fn state(&self) -> (state: State)
        ensures
            state == self@.state(),
            self@.wf(),
    {
        self.engine.state()
    }

    /// The number of lines of the current call that have been transmitted.
    pub fn transmitted(&self) -> (count: usize)
        ensures
            count == self@.cursor,
            count <= self@.total,
    {
        self.engine.transmitted()
    }

    /// Sets `paused`: dispatch is suspended from the next checkpoint on.
    /// Touches the control signals only, never the channel.
    pub fn pause(&mut self)
        ensures
            final(self)@ == old(self)@.pause(),
            final(self)@.wf(),
    {
        self.engine.pause()
    }

    /// Clears `paused`. Touches the control signals only, never the channel;
    /// waking whoever waits is the driver's part.
    pub fn resume(&mut self)
        ensures
            final(self)@ == old(self)@.resume(),
            final(self)@.wf(),
    {
        self.engine.resume()
    }

    /// Sets `stopped`, which is final, and leaves the channel alone: for a
    /// driver that must not hold the engine while it writes the halt token.
    pub fn stop(&mut self)
        ensures
            final(self)@ == old(self)@.stop(),
            final(self)@.wf(),
    {
        self.engine.stop()
    }

    /// Emergency stop: sets `stopped`, which is final, and writes the halt
    /// token to the channel. A failure of that write is reported to the
    /// caller; the engine is stopped either way.
    pub fn emergency_stop<T: Transport>(&mut self, channel: &mut Channel<T>) -> (outcome: Result<
        (),
        StreamError,
    >)
        ensures
            final(self)@ == old(self)@.stop(),
            final(self)@.wf(),
            halted(old(channel).transcript(), final(channel).transcript(), outcome),
            outcome is Ok ==> final(channel).wire() == old(channel).wire().push(Frame::Halt),
            outcome is Err ==> final(channel).wire() == old(channel).wire(),
    {
        self.engine.emergency_stop(channel)
    }

    /// Starts a streaming call over `total` lines at most; a driver that
    /// does not know their number gives the largest.
    pub fn begin(&mut self, total: usize)
        ensures
            final(self)@ == old(self)@.begin(total as nat),
            final(self)@.wf(),
    {
        self.engine.begin(total)
    }

    /// What the driver is to do now. Only a poll asks for a line, and never
    /// of a stopped or paused engine: a driver that polls directly before it
    /// transmits sends nothing once a stop or a pause is set.
    pub fn poll(&mut self) -> (directive: Directive)
        ensures
            (final(self)@, directive@) == old(self)@.poll(),
            final(self)@.wf(),
            (old(self)@.stopped || old(self)@.paused) ==> !(directive@ is Send),
            !(directive@ is Proceed),
            !(directive@ is WaitCapacity),
            final(self)@.window == usize::MAX,
    {
        proof {
            self.engine.lemma_strictness();
        }
        let directive = self.engine.poll();
        proof {
            self.engine.lemma_strictness();
        }
        directive
    }

    /// Takes the driver's report on the transmission it was asked for.
    pub fn line_sent(&mut self, outcome: Result<(), TransportError>) -> (directive: Directive)
        ensures
            (final(self)@, directive@) == old(self)@.line_sent(sent_report(outcome)),
            final(self)@.wf(),
            !(directive@ is Send),
    {
        self.engine.line_sent(outcome)
    }

    /// Takes the driver's report on the acknowledgment it read.
    pub fn ack_received(&mut self, ack: Result<String, TransportError>) -> (directive: Directive)
        ensures
            (final(self)@, directive@) == old(self)@.ack_received(ack_report(ack)),
            final(self)@.wf(),
            !(directive@ is Send),
    {
        self.engine.ack_received(ack)
    }

    /// One exchange over a line that its caller holds: polls and, where the
    /// engine asks for a line, sends `line` and reads its acknowledgment, and
    /// reports both. Nothing comes between the poll and the send, so that no
    /// line is sent once a stop or a pause is set. Where an acknowledgment
    /// was outstanding it is read and reported instead, and `line` is not
    /// sent. The answer says what is next: `Proceed` after an exchange, a
    /// wait, or the end of the call. A caller whose lines come one by one
    /// streams them so: `begin`, an exchange for each line, `end_of_lines`.
    pub fn exchange<T: Transport>(&mut self, channel: &mut Channel<T>, line: &str) -> (directive:
        Directive)
        ensures
            final(self)@.wf(),
            old(channel).transcript().is_prefix_of(final(channel).transcript()),
            old(self)@.exchanged(
                line@,
                final(channel).transcript().skip(old(channel).transcript().len() as int),
            ) == Some((final(self)@, directive@)),
            !(directive@ is Send) && !(directive@ is ReadAck),
            (old(self)@.stopped || old(self)@.paused) && !(old(self)@.phase is AwaitingAck)
                ==> final(channel).transcript() == old(channel).transcript(),
    {
        self.engine.exchange(channel, line)
    }

    /// Takes the driver's report that its source holds no further line: the
    /// call ends with success, once the acknowledgment that may be
    /// outstanding has been read.
    pub fn end_of_lines(&mut self) -> (directive: Directive)
        ensures
            (final(self)@, directive@) == old(self)@.end(),
            final(self)@.wf(),
            !(directive@ is Send),
    {
        self.engine.end_of_lines()
    }

    /// Streams `lines` over `channel`, in order, as far as the control
    /// signals allow. The channel receives the lines that were transmitted,
    /// in the order in which they stand, and nothing else. What the device
    /// answers is read and discarded, so only the channel can fail the call.
    pub fn stream_lines<T: Transport>(
        &mut self,
        channel: &mut Channel<T>,
        lines: &[String],
    ) -> (directive: Directive)
        ensures
            !final(self)@.strict,
            final(self)@.window == usize::MAX,
            !(directive@ is WaitCapacity),
            old(channel).transcript().is_prefix_of(final(channel).transcript()),
            old(self)@.begin(lines@.len()).replay(
                texts(lines@),
                final(channel).transcript().skip(old(channel).transcript().len() as int),
            ) == Some((final(self)@, directive@)),
            streamed(
                old(self)@,
                final(self)@,
                directive@,
                texts(lines@),
                old(channel).wire(),
                final(channel).wire(),
            ),
    {
        let directive = self.engine.stream(channel, lines);
        proof {
            self.engine.lemma_strictness();
        }
        directive
    }
}

} // verus!
