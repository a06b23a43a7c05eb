//! Mathematical model of a streaming engine: its state, its transitions, and
//! the runs that events drive it through.
//!
//! An engine is a state machine. A *driver* owns the channel and performs the
//! outside work: it asks the engine what to do ([`Model::poll`]), does it, and
//! reports back ([`Model::line_sent`], [`Model::ack_received`]). Controllers
//! pause, resume and stop the engine at any time between two transitions.
//!
//! Only a poll asks for a line, and never of a paused or stopped engine. A
//! driver therefore polls directly before it transmits, and lets no
//! controller in between the poll and the report of the transmission.

use vstd::prelude::*;
use crate::error::{StreamFault, TransportFault};
use crate::protocol::accepts;
use crate::transport::Step;

verus! {

/// Where the engine stands within a streaming call.
#[derive(Debug, Clone, Copy, PartialEq, Eq, Structural)]
pub enum Phase {
    /// No streaming call is under way.
    Dormant,
    /// Between two exchanges: the control signals are consulted here.
    Checkpoint,
    /// A line has been handed to the driver for transmission.
    Sending,
    /// The line is on the wire and its acknowledgment is outstanding.
    AwaitingAck,
}

/// The state that an engine shows to its observers.
#[derive(Debug, Clone, Copy, PartialEq, Eq, Structural)]
pub enum State {
    Idle,
    Sending,
    AwaitingAck,
    Paused,
    /// Terminal: no line is dispatched from here on.
    Stopped,
}

/// The shared control state: what a controller sets and an engine consults
/// at its checkpoints. Once `stopped` is set it stays set.
#[derive(Debug, Clone, Copy, PartialEq, Eq, Structural)]
pub struct ControlSignals {
    pub paused: bool,
    pub stopped: bool,
}

/// What the engine asks of its driver.
pub enum Signal {
    /// Transmit the line with this index.
    Send(nat),
    /// Read one acknowledgment line.
    ReadAck,
    /// Wait until the engine is resumed or stopped, then poll again.
    WaitResume,
    /// Wait until capacity frees, then poll again.
    WaitCapacity,
    /// The report is taken: poll for what is next.
    Proceed,
    /// The streaming call is over, with this result.
    Finish(Result<(), StreamFault>),
}

/// What happens to an engine.
pub enum Event {
    /// A streaming call over at most this many lines starts.
    Begin(nat),
    /// The driver reports that its source holds no further line.
    End,
    Pause,
    Resume,
    Stop,
    Poll,
    /// The driver reports how the transmission went.
    LineSent(Result<(), TransportFault>),
    /// The driver reports the acknowledgment it read.
    AckReceived(Result<Seq<char>, TransportFault>),
}

/// Mathematical state of an engine.
pub struct Model {
    /// Bound on the lines that may be unacknowledged at once.
    pub window: nat,
    /// Whether acknowledgments are judged; an engine that is not strict
    /// reads and discards them.
    pub strict: bool,
    pub paused: bool,
    pub stopped: bool,
    pub phase: Phase,
    /// Number of lines that the current call may send at most.
    pub total: nat,
    /// Number of lines of the current call whose transmission succeeded; also
    /// the index of the next line.
    pub cursor: nat,
    /// Number of transmitted lines that are not yet acknowledged.
    pub in_flight: nat,
}

impl Model {
    /// A fresh engine: idle, neither paused nor stopped.
    pub open spec fn init(window: nat, strict: bool) -> Model {
        Model {
            window,
            strict,
            paused: false,
            stopped: false,
            phase: Phase::Dormant,
            total: 0,
            cursor: 0,
            in_flight: 0,
        }
    }

    /// Validity of a state. Every transition preserves it.
    pub open spec fn wf(self) -> bool {
        &&& self.cursor <= self.total
        &&& self.in_flight == (if self.phase is AwaitingAck {
            1nat
        } else {
            0nat
        })
        &&& (self.phase is Sending ==> self.cursor < self.total)
        &&& (self.phase is AwaitingAck ==> self.cursor >= 1)
    }

    /// The control signals of the state.
    pub open spec fn signals(self) -> ControlSignals {
        ControlSignals { paused: self.paused, stopped: self.stopped }
    }

    /// The state shown to observers: stopped before paused before the phase.
    pub open spec fn state(self) -> State {
        if self.stopped {
            State::Stopped
        } else if self.paused {
            State::Paused
        } else {
            match self.phase {
                Phase::Dormant => State::Idle,
                Phase::Checkpoint => State::Idle,
                Phase::Sending => State::Sending,
                Phase::AwaitingAck => State::AwaitingAck,
            }
        }
    }

    /// Starts a streaming call over `total` lines at most. The control
    /// signals stay.
    pub open spec fn begin(self, total: nat) -> Model {
        Model { phase: Phase::Checkpoint, total, cursor: 0, in_flight: 0, ..self }
    }

    pub open spec fn pause(self) -> Model {
        Model { paused: true, ..self }
    }

    pub open spec fn resume(self) -> Model {
        Model { paused: false, ..self }
    }

    /// Stops the engine for good.
    pub open spec fn stop(self) -> Model {
        Model { stopped: true, ..self }
    }

    /// The decision at a checkpoint, in the order of the protocol: a stopped
    /// engine ends the call with success, and so does one that has no line
    /// left; a paused one waits; a saturated one waits; otherwise the next
    /// line is handed to the driver.
    pub open spec fn decide(self) -> (Model, Signal) {
        if self.stopped || self.cursor >= self.total {
            (Model { phase: Phase::Dormant, ..self }, Signal::Finish(Ok(())))
        } else if self.paused {
            (Model { phase: Phase::Checkpoint, ..self }, Signal::WaitResume)
        } else if self.in_flight >= self.window {
            (Model { phase: Phase::Checkpoint, ..self }, Signal::WaitCapacity)
        } else {
            (Model { phase: Phase::Sending, ..self }, Signal::Send(self.cursor))
        }
    }

    /// What the driver is to do now. While an acknowledgment is outstanding
    /// it is to read it. Else the control signals are consulted, also where
    /// a line has been handed out already and is not yet reported sent: a
    /// stop or a pause that came since takes the line back.
    pub open spec fn poll(self) -> (Model, Signal) {
        match self.phase {
            Phase::Dormant => (self, Signal::Finish(Ok(()))),
            Phase::Checkpoint => self.decide(),
            Phase::Sending => self.decide(),
            Phase::AwaitingAck => (self, Signal::ReadAck),
        }
    }

    /// The driver reports the outcome of the transmission it was asked for.
    /// A failure ends the call and is passed on unchanged. A report that no
    /// request preceded changes nothing.
    pub open spec fn line_sent(self, outcome: Result<(), TransportFault>) -> (Model, Signal) {
        if self.phase is Sending {
            match outcome {
                Ok(()) => (
                    Model {
                        phase: Phase::AwaitingAck,
                        cursor: self.cursor + 1,
                        in_flight: self.in_flight + 1,
                        ..self
                    },
                    Signal::ReadAck,
                ),
                Err(fault) => (
                    Model { phase: Phase::Dormant, ..self },
                    Signal::Finish(Err(StreamFault::Transport(fault))),
                ),
            }
        } else {
            (self, Signal::Proceed)
        }
    }

    /// Whether the engine takes this acknowledgment for a success.
    pub open spec fn satisfied_by(self, ack: Seq<char>) -> bool {
        !self.strict || accepts(ack)
    }

    /// The driver reports what it read in answer to the last line. A success
    /// frees the line's slot and leads to the next checkpoint. A rejection
    /// stops the engine for good and ends the call with the raw answer. A
    /// failed read ends the call and is passed on unchanged. A report that
    /// no request preceded changes nothing.
    pub open spec fn ack_received(self, ack: Result<Seq<char>, TransportFault>) -> (
        Model,
        Signal,
    ) {
        if self.phase is AwaitingAck {
            match ack {
                Ok(text) => if self.satisfied_by(text) {
                    (
                        Model {
                            phase: Phase::Checkpoint,
                            in_flight: if self.in_flight >= 1 {
                                (self.in_flight - 1) as nat
                            } else {
                                0
                            },
                            ..self
                        },
                        Signal::Proceed,
                    )
                } else {
                    (
                        Model { phase: Phase::Dormant, stopped: true, in_flight: 0, ..self },
                        Signal::Finish(Err(StreamFault::Device(text))),
                    )
                },
                Err(fault) => (
                    Model { phase: Phase::Dormant, in_flight: 0, ..self },
                    Signal::Finish(Err(StreamFault::Transport(fault))),
                ),
            }
        } else {
            (self, Signal::Proceed)
        }
    }

    /// The driver reports that its source holds no further line: the call
    /// sends no more than it has sent. It ends with success, once the
    /// acknowledgment that may be outstanding has been read.
    pub open spec fn end(self) -> (Model, Signal) {
        if self.phase is AwaitingAck {
            (Model { total: self.cursor, ..self }, Signal::ReadAck)
        } else {
            (Model { phase: Phase::Dormant, total: self.cursor, ..self }, Signal::Finish(Ok(())))
        }
    }

    /// The request that stands once a report is taken: what the report was
    /// answered with, or, where that is no request, what a poll says.
    pub open spec fn settled(answer: (Model, Signal)) -> (Model, Signal) {
        if answer.1 is Proceed {
            answer.0.poll()
        } else {
            answer
        }
    }

    /// The state after one event.
    pub open spec fn after(self, event: Event) -> Model {
        match event {
            Event::Begin(total) => self.begin(total),
            Event::End => self.end().0,
            Event::Pause => self.pause(),
            Event::Resume => self.resume(),
            Event::Stop => self.stop(),
            Event::Poll => self.poll().0,
            Event::LineSent(outcome) => self.line_sent(outcome).0,
            Event::AckReceived(ack) => self.ack_received(ack).0,
        }
    }

    /// Whether the engine answers this event by asking for a line.
    pub open spec fn asks_to_send(self, event: Event) -> bool {
        match event {
            Event::End => self.end().1 is Send,
            Event::Poll => self.poll().1 is Send,
            Event::LineSent(outcome) => self.line_sent(outcome).1 is Send,
            Event::AckReceived(ack) => self.ack_received(ack).1 is Send,
            _ => false,
        }
    }

    /// Whether this event is the report of a transmission that succeeded,
    /// of a line that the engine had asked for.
    pub open spec fn transmits_on(self, event: Event) -> bool {
        self.phase is Sending && (event matches Event::LineSent(outcome) && outcome is Ok)
    }

    /// The state after a sequence of events, oldest first.
    pub open spec fn run(self, events: Seq<Event>) -> Model
        decreases events.len(),
    {
        if events.len() == 0 {
            self
        } else {
            self.run(events.drop_last()).after(events.last())
        }
    }

    /// How often, during a run, the engine asks for a line.
    pub open spec fn requests(self, events: Seq<Event>) -> nat
        decreases events.len(),
    {
        if events.len() == 0 {
            0
        } else if self.run(events.drop_last()).asks_to_send(events.last()) {
            self.requests(events.drop_last()) + 1
        } else {
            self.requests(events.drop_last())
        }
    }

    /// The indices of the lines transmitted during a run, in the order of
    /// their transmission.
    pub open spec fn transmitted(self, events: Seq<Event>) -> Seq<nat>
        decreases events.len(),
    {
        if events.len() == 0 {
            Seq::empty()
        } else {
            let before = self.run(events.drop_last());
            let earlier = self.transmitted(events.drop_last());
            if before.transmits_on(events.last()) {
                earlier.push(before.cursor)
            } else {
                earlier
            }
        }
    }

    /// The run in which nothing interferes: the driver polls, and for each
    /// answer in `acks` it transmits the line it was asked for, reports that
    /// answer, and polls again.
    pub open spec fn exchanges(self, acks: Seq<Seq<char>>) -> (Model, Signal)
        decreases acks.len(),
    {
        if acks.len() == 0 {
            self.poll()
        } else {
            self.exchanges(acks.drop_last()).0.line_sent(Ok(())).0.ack_received(
                Ok(acks.last()),
            ).0.poll()
        }
    }

    /// The engine and its answer after one exchange over `line`: a poll and,
    /// where the poll asks for a line, the send of `line` and the report of
    /// it, and then, where an acknowledgment is outstanding, the read of it
    /// and the report of that. `steps` are what was done on the channel,
    /// with the outcomes: at most the one send and the one read, in this
    /// order. There is no such exchange where the steps are any others.
    pub open spec fn exchanged(self, line: Seq<char>, steps: Seq<Step>) -> Option<(Model, Signal)> {
        let (polled, asked) = self.poll();
        match asked {
            Signal::Send(_) => if steps.len() >= 1 && steps[0] is Send && steps[0]->Send_0
                == line {
                let (sent, next) = polled.line_sent(steps[0]->Send_1);
                if next is ReadAck {
                    if steps.len() == 2 && steps[1] is Read {
                        Some(sent.ack_received(steps[1]->Read_0))
                    } else {
                        None
                    }
                } else if steps.len() == 1 {
                    Some((sent, next))
                } else {
                    None
                }
            } else {
                None
            },
            Signal::ReadAck => if steps.len() == 1 && steps[0] is Read {
                Some(polled.ack_received(steps[0]->Read_0))
            } else {
                None
            },
            _ => if steps.len() == 0 {
                Some((polled, asked))
            } else {
                None
            },
        }
    }

    /// The engine and its request once a driver has acted on each request in
    /// turn: it polls, and from then on meets every request to send with a
    /// send of that very line of `lines`, and every request to read with a
    /// read, reports the outcome, and polls where the report is answered
    /// with no request. `steps` are what the driver did on the channel, with
    /// the outcomes. There is no such run where a step is not what the engine
    /// had asked for: a send of another line, a halt, a flush, a disconnect.
    pub open spec fn replay(self, lines: Seq<Seq<char>>, steps: Seq<Step>) -> Option<
        (Model, Signal),
    >
        decreases steps.len(),
    {
        if steps.len() == 0 {
            Some(self.poll())
        } else {
            match self.replay(lines, steps.drop_last()) {
                Some((engine, asked)) => match (asked, steps.last()) {
                    (Signal::Send(index), Step::Send(line, outcome)) => if index < lines.len()
                        && line == lines[index as int] {
                        Some(Model::settled(engine.line_sent(outcome)))
                    } else {
                        None
                    },
                    (Signal::ReadAck, Step::Read(answer)) => Some(
                        Model::settled(engine.ack_received(answer)),
                    ),
                    _ => None,
                },
                None => None,
            }
        }
    }
}

} // verus!
