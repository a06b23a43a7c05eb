//! The executable engine behind every streamer: the transitions of the model,
//! and the loop that drives them over a channel.

use vstd::prelude::*;
use crate::machine::{ControlSignals, Model, Phase, Signal, State};
use crate::error::{StreamError, StreamFault, TransportError};
use crate::protocol::{accepts, ack_accepted};
use crate::text::texts;
use crate::transport::{
    ack_report, halted, line_frames, sent_report, Channel, Frame, Step, Transport,
};

verus! {

/// What an engine asks of its driver.
#[derive(Debug, PartialEq, Eq)]
pub enum Directive {
    /// Transmit the line with this index.
    Send(usize),
    /// Read one acknowledgment line.
    ReadAck,
    /// Wait until the engine is resumed or stopped, then poll again.
    WaitResume,
    /// Wait until capacity frees, then poll again.
    WaitCapacity,
    /// The report is taken: poll for what is next.
    Proceed,
    /// The streaming call is over, with this result.
    Finish(Result<(), StreamError>),
}

impl View for Directive {
    type V = Signal;

    open spec fn view(&self) -> Signal {
        match self {
            Directive::Send(index) => Signal::Send(*index as nat),
            Directive::ReadAck => Signal::ReadAck,
            Directive::WaitResume => Signal::WaitResume,
            Directive::WaitCapacity => Signal::WaitCapacity,
            Directive::Proceed => Signal::Proceed,
            Directive::Finish(Ok(())) => Signal::Finish(Ok(())),
            Directive::Finish(Err(error)) => Signal::Finish(Err(error@)),
        }
    }
}

/// What one more step makes of the steps of a call: of the steps on record
/// since `before`, when `done` was on record and `step` is added.
proof fn lemma_step_added(before: Seq<Step>, done: Seq<Step>, step: Step)
    requires
        before.is_prefix_of(done),
    ensures
        before.is_prefix_of(done.push(step)),
        done.push(step).skip(before.len() as int) == done.skip(before.len() as int).push(step),
        done.push(step).skip(before.len() as int).drop_last() == done.skip(before.len() as int),
{
    assert(before =~= done.push(step).subrange(0, before.len() as int));
    assert(done.push(step).skip(before.len() as int) =~= done.skip(before.len() as int).push(
        step,
    ));
    assert(done.skip(before.len() as int).push(step).drop_last() =~= done.skip(
        before.len() as int,
    ));
}

/// What holds of an engine within a streaming call over `lines` that it
/// entered in state `before`: it is in state `now` and asks `signal`.
pub open spec fn on_course(
    before: Model,
    now: Model,
    signal: Signal,
    lines: Seq<Seq<char>>,
) -> bool {
    &&& now.wf()
    &&& now.total == lines.len()
    &&& now.window == before.window
    &&& now.strict == before.strict
    &&& now.paused == before.paused
    // only a rejected acknowledgment stops the engine
    &&& now.stopped == (before.stopped || signal matches Signal::Finish(
        Err(StreamFault::Device(_)),
    ))
    &&& match signal {
        // the next line, in order
        Signal::Send(index) => {
            &&& now.phase is Sending
            &&& index == now.cursor
            &&& now.window >= 1
        },
        Signal::ReadAck => {
            &&& now.phase is AwaitingAck
            &&& now.window >= 1
        },
        // an exchange is complete
        Signal::Proceed => {
            &&& now.phase is Checkpoint
            &&& now.window >= 1
            &&& now.cursor >= 1
        },
        // paused, with lines left
        Signal::WaitResume => {
            &&& now.phase is Checkpoint
            &&& now.paused
            &&& !now.stopped
            &&& now.cursor < lines.len()
        },
        // a window of zero admits no line
        Signal::WaitCapacity => {
            &&& now.phase is Checkpoint
            &&& !now.stopped
            &&& now.window == 0
            &&& now.cursor == 0
        },
        // success: the engine was stopped, or every line was acknowledged
        Signal::Finish(Ok(())) => {
            &&& now.phase is Dormant
            &&& (before.stopped || now.cursor == lines.len())
        },
        // the first acknowledgment that is not a success ends the call
        Signal::Finish(Err(StreamFault::Device(ack))) => {
            &&& now.phase is Dormant
            &&& now.strict
            &&& !accepts(ack)
            &&& !before.stopped
            &&& now.cursor >= 1
        },
        // a failure of the channel ends the call
        Signal::Finish(Err(StreamFault::Transport(_))) => {
            &&& now.phase is Dormant
            &&& !before.stopped
        },
        Signal::Finish(Err(StreamFault::ProtocolViolation(_))) => false,
    }
    // a stopped engine sends nothing
    &&& (before.stopped ==> signal == Signal::Finish(Ok(())) && now.cursor == 0)
    // so does a paused one
    &&& (before.paused && !before.stopped && lines.len() > 0 ==> signal is WaitResume
        && now.cursor == 0)
    // and nothing is left to do where there are no lines
    &&& (lines.len() == 0 ==> signal == Signal::Finish(Ok(())))
}

/// What a streaming call leaves behind: the engine was in state `before`
/// and is in state `after`, the call over `lines` returned `signal`, and
/// what the channel had accepted went from `wire_before` to `wire_after`.
/// The call is over, or its caller is to wait; and the channel received the
/// transmitted lines, in order, and nothing else.
pub open spec fn streamed(
    before: Model,
    after: Model,
    signal: Signal,
    lines: Seq<Seq<char>>,
    wire_before: Seq<Frame>,
    wire_after: Seq<Frame>,
) -> bool {
    &&& on_course(before, after, signal, lines)
    &&& !(signal is Send)
    &&& !(signal is ReadAck)
    &&& !(signal is Proceed)
    &&& wire_after == wire_before + line_frames(lines.take(after.cursor as int))
}

/// An engine: drives lines across a channel one exchange at a time, and
/// honors pause, resume and emergency stop. A strict engine keeps to its
/// window bound and judges every acknowledgment; one that is not has no
/// bound on its window, and reads acknowledgments and discards them.
///
/// The engine decides; its driver does the outside work. Locks, threads and
/// waiting belong to the driver, so a controller may pause, resume or stop
/// the engine between any two of its transitions. Only a poll asks for a
/// line, and never of a paused or stopped engine: a driver polls directly
/// before it transmits and lets no controller in before it has reported the
/// transmission.
pub struct Engine<const STRICT: bool> {
    window: usize,
    paused: bool,
    stopped: bool,
    phase: Phase,
    total: usize,
    cursor: usize,
    in_flight: usize,
}

impl<const STRICT: bool> View for Engine<STRICT> {
    type V = Model;

    closed spec fn view(&self) -> Model {
        Model {
            window: if STRICT {
                self.window as nat
            } else {
                usize::MAX as nat
            },
            strict: STRICT,
            paused: self.paused,
            stopped: self.stopped,
            phase: self.phase,
            total: self.total as nat,
            cursor: self.cursor as nat,
            in_flight: self.in_flight as nat,
        }
    }
}

impl<const STRICT: bool> Engine<STRICT> {
    #[verifier::type_invariant]
    spec fn valid(self) -> bool {
        self@.wf()
    }

    /// Whether an engine judges acknowledgments is fixed by its type, and so
    /// is that an engine which does not has no bound on its window.
    pub proof fn lemma_strictness(&self)
        ensures
            self@.strict == STRICT,
            !STRICT ==> self@.window == usize::MAX,
    {
    }

    /// A fresh engine: idle, neither paused nor stopped. A strict engine has
    /// the given window; one that is not has none.
    pub fn new(window: usize) -> (engine: Self)
        ensures
            engine@ == Model::init(
                if STRICT {
                    window as nat
                } else {
                    usize::MAX as nat
                },
                STRICT,
            ),
    {
        Engine {
            window,
            paused: false,
            stopped: false,
            phase: Phase::Dormant,
            total: 0,
            cursor: 0,
            in_flight: 0,
        }
    }

    /// The window bound.
    pub fn window(&self) -> (window: usize)
        ensures
            window == self@.window,
    {
        if STRICT {
            self.window
        } else {
            usize::MAX
        }
    }

    /// The number of transmitted lines that are not yet acknowledged.
    pub fn in_flight(&self) -> (count: usize)
        ensures
            count == self@.in_flight,
            count <= 1,
    {
        proof {
            use_type_invariant(self);
        }
        self.in_flight
    }

    /// The number of lines of the current call that have been transmitted.
    pub fn transmitted(&self) -> (count: usize)
        ensures
            count == self@.cursor,
            count <= self@.total,
    {
        proof {
            use_type_invariant(self);
        }
        self.cursor
    }

    pub fn is_paused(&self) -> (paused: bool)
        ensures
            paused == self@.paused,
    {
        self.paused
    }

    pub fn is_stopped(&self) -> (stopped: bool)
        ensures
            stopped == self@.stopped,
    {
        self.stopped
    }

    /// The control signals as they stand.
    pub fn signals(&self) -> (signals: ControlSignals)
        ensures
            signals == self@.signals(),
    {
        ControlSignals { paused: self.paused, stopped: self.stopped }
    }

    /// The state shown to observers.
    pub fn state(&self) -> (state: State)
        ensures
            state == self@.state(),
            self@.wf(),
    {
        proof {
            use_type_invariant(self);
        }
        if self.stopped {
            State::Stopped
        } else if self.paused {
            State::Paused
        } else {
            match self.phase {
                Phase::Dormant => State::Idle,
                Phase::Checkpoint => State::Idle,
                Phase::Sending => State::Sending,
                Phase::AwaitingAck => State::AwaitingAck,
            }
        }
    }

    /// Suspends dispatch at the next checkpoint. Touches the control signals
    /// only.
    pub fn pause(&mut self)
        ensures
            final(self)@ == old(self)@.pause(),
            final(self)@.wf(),
    {
        proof {
            use_type_invariant(&*self);
        }
        *self = Engine { paused: true, ..*self };
    }

    /// Ends a pause. Touches the control signals only.
    pub fn resume(&mut self)
        ensures
            final(self)@ == old(self)@.resume(),
            final(self)@.wf(),
    {
        proof {
            use_type_invariant(&*self);
        }
        *self = Engine { paused: false, ..*self };
    }

    /// Stops the engine for good. Touches the control signals only; the halt
    /// token is the channel's to write, see [`Engine::emergency_stop`].
    pub fn stop(&mut self)
        ensures
            final(self)@ == old(self)@.stop(),
            final(self)@.wf(),
    {
        proof {
            use_type_invariant(&*self);
        }
        *self = Engine { stopped: true, ..*self };
    }

    /// Starts a streaming call over `total` lines at most; a driver that
    /// does not know their number gives the largest.
    pub fn begin(&mut self, total: usize)
        ensures
            final(self)@ == old(self)@.begin(total as nat),
            final(self)@.wf(),
    {
        *self = Engine { phase: Phase::Checkpoint, total, cursor: 0, in_flight: 0, ..*self };
        proof {
            use_type_invariant(&*self);
        }
    }

    /// The decision at a checkpoint.
    fn decide(&mut self) -> (directive: Directive)
        requires
            old(self)@.phase is Checkpoint || old(self)@.phase is Sending,
        ensures
            (final(self)@, directive@) == old(self)@.decide(),
            final(self)@.wf(),
    {
        proof {
            use_type_invariant(&*self);
        }
        if self.stopped || self.cursor >= self.total {
            *self = Engine { phase: Phase::Dormant, ..*self };
            Directive::Finish(Ok(()))
        } else if self.paused {
            *self = Engine { phase: Phase::Checkpoint, ..*self };
            Directive::WaitResume
        } else if self.in_flight >= self.window() {
            *self = Engine { phase: Phase::Checkpoint, ..*self };
            Directive::WaitCapacity
        } else {
            *self = Engine { phase: Phase::Sending, ..*self };
            Directive::Send(self.cursor)
        }
    }

    /// What the driver is to do now. Only a poll asks for a line, and never
    /// of a stopped or paused engine: a driver that polls directly before it
    /// transmits sends nothing once a stop or a pause is set.
    pub fn poll(&mut self) -> (directive: Directive)
        ensures
            (final(self)@, directive@) == old(self)@.poll(),
            final(self)@.wf(),
            (old(self)@.stopped || old(self)@.paused) ==> !(directive@ is Send),
            !(directive@ is Proceed),
    {
        proof {
            use_type_invariant(&*self);
        }
        match self.phase {
            Phase::Dormant => Directive::Finish(Ok(())),
            Phase::Checkpoint => self.decide(),
            Phase::Sending => self.decide(),
            Phase::AwaitingAck => Directive::ReadAck,
        }
    }

    /// Takes the driver's report on the transmission it was asked for.
    pub fn line_sent(&mut self, outcome: Result<(), TransportError>) -> (directive: Directive)
        ensures
            (final(self)@, directive@) == old(self)@.line_sent(sent_report(outcome)),
            final(self)@.wf(),
            !(directive@ is Send),
    {
        proof {
            use_type_invariant(&*self);
        }
        match self.phase {
            Phase::Sending => match outcome {
                Ok(()) => {
                    *self = Engine {
                        phase: Phase::AwaitingAck,
                        cursor: self.cursor + 1,
                        in_flight: self.in_flight + 1,
                        ..*self
                    };
                    Directive::ReadAck
                },
                Err(error) => {
                    *self = Engine { phase: Phase::Dormant, ..*self };
                    Directive::Finish(Err(StreamError::Transport(error)))
                },
            },
            _ => Directive::Proceed,
        }
    }

    /// Takes the driver's report on the acknowledgment it read.
    pub fn ack_received(&mut self, ack: Result<String, TransportError>) -> (directive: Directive)
        ensures
            (final(self)@, directive@) == old(self)@.ack_received(ack_report(ack)),
            final(self)@.wf(),
            !(directive@ is Send),
    {
        proof {
            use_type_invariant(&*self);
        }
        match self.phase {
            Phase::AwaitingAck => match ack {
                Ok(text) => {
                    if !STRICT || ack_accepted(text.as_str()) {
                        *self = Engine {
                            phase: Phase::Checkpoint,
                            in_flight: self.in_flight.saturating_sub(1),
                            ..*self
                        };
                        Directive::Proceed
                    } else {
                        *self = Engine {
                            phase: Phase::Dormant,
                            stopped: true,
                            in_flight: 0,
                            ..*self
                        };
                        Directive::Finish(Err(StreamError::Device(text)))
                    }
                },
                Err(error) => {
                    *self = Engine { phase: Phase::Dormant, in_flight: 0, ..*self };
                    Directive::Finish(Err(StreamError::Transport(error)))
                },
            },
            _ => Directive::Proceed,
        }
    }

    /// Takes the driver's report that its source holds no further line: the
    /// call ends with success, once the acknowledgment that may be
    /// outstanding has been read.
    pub fn end_of_lines(&mut self) -> (directive: Directive)
        ensures
            (final(self)@, directive@) == old(self)@.end(),
            final(self)@.wf(),
            !(directive@ is Send),
    {
        proof {
            use_type_invariant(&*self);
        }
        match self.phase {
            Phase::AwaitingAck => {
                *self = Engine { total: self.cursor, ..*self };
                Directive::ReadAck
            },
            _ => {
                *self = Engine { phase: Phase::Dormant, total: self.cursor, ..*self };
                Directive::Finish(Ok(()))
            },
        }
    }

    /// One exchange over a line that its caller holds: polls and, where the
    /// engine asks for a line, sends `line` and reads its acknowledgment, and
    /// reports both. Nothing comes between the poll and the send, so that no
    /// line is sent once a stop or a pause is set. Where an acknowledgment
    /// was outstanding it is read and reported instead, and `line` is not
    /// sent. The answer says what is next: `Proceed` after an exchange, a
    /// wait, or the end of the call.
    pub fn exchange<T: Transport>(&mut self, channel: &mut Channel<T>, line: &str) -> (directive:
        Directive)
        ensures
            final(self)@.wf(),
            old(channel).transcript().is_prefix_of(final(channel).transcript()),
            old(self)@.exchanged(
                line@,
                final(channel).transcript().skip(old(channel).transcript().len() as int),
            ) == Some((final(self)@, directive@)),
            !(directive@ is Send) && !(directive@ is ReadAck),
            (old(self)@.stopped || old(self)@.paused) && !(old(self)@.phase is AwaitingAck)
                ==> final(channel).transcript() == old(channel).transcript(),
    {
        let ghost before = channel.transcript();
        proof {
            use_type_invariant(&*self);
            assert(before.skip(before.len() as int) =~= Seq::<Step>::empty());
            assert(before.subrange(0, before.len() as int) =~= before);
        }
        match self.poll() {
            Directive::Send(_) => {
                let outcome = channel.send_line(line);
                let ghost sent = Step::Send(line@, sent_report(outcome));
                proof {
                    assert(before.push(sent).skip(before.len() as int) =~= seq![sent]);
                    assert(before =~= before.push(sent).subrange(0, before.len() as int));
                }
                match self.line_sent(outcome) {
                    Directive::ReadAck => {
                        let ack = channel.read_line();
                        proof {
                            let read = Step::Read(ack_report(ack));
                            assert(before.push(sent).push(read).skip(before.len() as int)
                                =~= seq![sent, read]);
                            assert(before =~= before.push(sent).push(read).subrange(
                                0,
                                before.len() as int,
                            ));
                        }
                        self.ack_received(ack)
                    },
                    other => other,
                }
            },
            Directive::ReadAck => {
                let ack = channel.read_line();
                proof {
                    let read = Step::Read(ack_report(ack));
                    assert(before.push(read).skip(before.len() as int) =~= seq![read]);
                    assert(before =~= before.push(read).subrange(0, before.len() as int));
                }
                self.ack_received(ack)
            },
            other => other,
        }
    }

    /// Emergency stop: sets the stop signal, which is final, and writes the
    /// halt token to the channel. A failure of that write is reported to the
    /// caller; the engine is stopped either way.
    pub fn emergency_stop<T: Transport>(&mut self, channel: &mut Channel<T>) -> (outcome: Result<
        (),
        StreamError,
    >)
        ensures
            final(self)@ == old(self)@.stop(),
            final(self)@.wf(),
            halted(old(channel).transcript(), final(channel).transcript(), outcome),
            outcome is Ok ==> final(channel).wire() == old(channel).wire().push(Frame::Halt),
            outcome is Err ==> final(channel).wire() == old(channel).wire(),
    {
        self.stop();
        channel.halt()
    }

    /// Streams `lines` over `channel`, in order, as far as the control
    /// signals allow: starts a call and performs every exchange that the
    /// engine asks for, until the engine finishes the call or asks its caller
    /// to wait.
    ///
    /// The channel receives the lines that were transmitted, in the order
    /// in which they stand, and nothing else. The call finishes with success
    /// when the engine was stopped or every line was acknowledged, and with a
    /// device error at the first acknowledgment that is not a success; no
    /// line follows such an acknowledgment. On a paused engine nothing is
    /// sent and the caller is asked to wait.
    pub fn stream<T: Transport>(
        &mut self,
        channel: &mut Channel<T>,
        lines: &[String],
    ) -> (directive: Directive)
        ensures
            old(channel).transcript().is_prefix_of(final(channel).transcript()),
            old(self)@.begin(lines@.len()).replay(
                texts(lines@),
                final(channel).transcript().skip(old(channel).transcript().len() as int),
            ) == Some((final(self)@, directive@)),
            streamed(
                old(self)@,
                final(self)@,
                directive@,
                texts(lines@),
                old(channel).wire(),
                final(channel).wire(),
            ),
    {
        let ghost base = channel.wire();
        let ghost before = channel.transcript();
        let ghost start = self@.begin(lines@.len());
        let ghost script = texts(lines@);
        self.begin(lines.len());
        let mut directive = self.poll();
        proof {
            use_type_invariant(&*self);
            assert(line_frames(script.take(0)) =~= Seq::<Frame>::empty());
            assert(base + Seq::<Frame>::empty() =~= base);
            assert(before.skip(before.len() as int) =~= Seq::<Step>::empty());
            assert(before.subrange(0, before.len() as int) =~= before);
        }
        loop
            invariant
                script == texts(lines@),
                base == old(channel).wire(),
                before == old(channel).transcript(),
                start == old(self)@.begin(lines@.len()),
                on_course(old(self)@, self@, directive@, script),
                channel.wire() == base + line_frames(script.take(self@.cursor as int)),
                before.is_prefix_of(channel.transcript()),
                start.replay(script, channel.transcript().skip(before.len() as int)) == Some(
                    Model::settled((self@, directive@)),
                ),
            decreases 3 * (self@.total - self@.cursor) + (if directive@ is ReadAck {
                3int
            } else if directive@ is Proceed {
                2int
            } else if directive@ is Send {
                1int
            } else {
                0int
            }),
        {
            match directive {
                Directive::Send(index) => {
                    let ghost sent = script.take(self@.cursor as int);
                    let ghost done = channel.transcript();
                    let outcome = channel.send_line(lines[index].as_str());
                    proof {
                        let step = Step::Send(lines@[index as int]@, sent_report(outcome));
                        lemma_step_added(before, done, step);
                        assert(script[index as int] == lines@[index as int]@);
                        assert(script.take(index + 1) =~= sent.push(script[index as int]));
                        assert(line_frames(script.take(index + 1)) =~= line_frames(sent).push(
                            Frame::Line(script[index as int]),
                        ));
                        assert((base + line_frames(sent)).push(Frame::Line(script[index as int]))
                            =~= base + line_frames(sent).push(Frame::Line(script[index as int])));
                    }
                    directive = self.line_sent(outcome);
                },
                Directive::ReadAck => {
                    let ghost done = channel.transcript();
                    let ack = channel.read_line();
                    proof {
                        let step = Step::Read(ack_report(ack));
                        lemma_step_added(before, done, step);
                    }
                    directive = self.ack_received(ack);
                },
                Directive::Proceed => {
                    directive = self.poll();
                },
                other => {
                    return other;
                },
            }
            proof {
                use_type_invariant(&*self);
            }
        }
    }
}

} // verus!
