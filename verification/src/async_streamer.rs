//! The engine for cooperative schedulers.

use vstd::prelude::*;
use crate::engine::{Directive, Engine};
use crate::error::{StreamError, StreamFault, TransportError};
use crate::machine::{ControlSignals, Model, State};
use crate::transport::{ack_report, sent_report};

verus! {

/// How the halt token is to be written when an emergency stop is issued.
#[derive(Debug, Clone, Copy, PartialEq, Eq, Structural)]
pub enum HaltDispatch {
    /// A scheduler is running: hand the write to it and return at once. A
    /// failure of the write is discarded, by design.
    Detached,
    /// No scheduler is running: establish one and wait for the write, so
    /// that the token is transmitted before the call returns. A failure of
    /// the write is reported.
    Blocking,
}

/// The streaming engine with the control contract of the synchronous one,
/// for a driver that suspends instead of blocking a thread: it awaits the
/// wake primitive on [`Directive::WaitResume`] and yields to its scheduler
/// on [`Directive::WaitCapacity`].
pub struct AsyncStreamer {
    engine: Engine<true>,
}

impl View for AsyncStreamer {
    type V = Model;

    closed spec fn view(&self) -> Model {
        self.engine@
    }
}

impl AsyncStreamer {
    /// Every streamer judges the acknowledgments that it is given.
    pub proof fn lemma_strict(&self)
        ensures
            self@.strict,
    {
        self.engine.lemma_strictness();
    }

    /// A fresh engine with the given window: idle, neither paused nor
    /// stopped.
    pub fn new(window: usize) -> (streamer: AsyncStreamer)
        ensures
            streamer@ == Model::init(window as nat, true),
    {
        AsyncStreamer { engine: Engine::new(window) }
    }

    /// The window: the bound on the lines that may be unacknowledged at once.
    pub fn window(&self) -> (window: usize)
        ensures
            window == self@.window,
    {
        self.engine.window()
    }

    /// The number of transmitted lines that are not yet acknowledged.
    pub fn in_flight(&self) -> (count: usize)
        ensures
            count == self@.in_flight,
            count <= 1,
    {
        self.engine.in_flight()
    }

    pub fn is_paused(&self) -> (paused: bool)
        ensures
            paused == self@.paused,
    {
        self.engine.is_paused()
    }

    pub fn is_stopped(&self) -> (stopped: bool)
        ensures
            stopped == self@.stopped,
    {
        self.engine.is_stopped()
    }

    /// The control signals as they stand.
    pub fn signals(&self) -> (signals: ControlSignals)
        ensures
            signals == self@.signals(),
    {
        self.engine.signals()
    }

    /// The state shown to observers.
    pub fn state(&self) -> (state: State)
        ensures
            state == self@.state(),
            self@.wf(),
    {
        self.engine.state()
    }

    /// The number of lines of the current call that have been transmitted.
    pub fn transmitted(&self) -> (count: usize)
        ensures
            count == self@.cursor,
            count <= self@.total,
    {
        self.engine.transmitted()
    }

    /// Sets `paused`: dispatch is suspended from the next checkpoint on.
    /// Touches the control signals only, never the channel.
    pub fn pause(&mut self)
        ensures
            final(self)@ == old(self)@.pause(),
            final(self)@.wf(),
    {
        self.engine.pause()
    }

    /// Clears `paused`. Touches the control signals only, never the channel;
    /// waking whoever waits is the driver's part.
    pub fn resume(&mut self)
        ensures
            final(self)@ == old(self)@.resume(),
            final(self)@.wf(),
    {
        self.engine.resume()
    }

    /// Sets `stopped`, which is final, and leaves the channel alone: for a
    /// driver that must not hold the engine while it writes the halt token.
    pub fn stop(&mut self)
        ensures
            final(self)@ == old(self)@.stop(),
            final(self)@.wf(),
    {
        self.engine.stop()
    }

    /// How the halt token of an emergency stop is to be written: with a
    /// scheduler running the write is dispatched and not awaited; without
    /// one the caller must establish a scheduler and wait for the write.
    pub fn halt_dispatch(scheduler_running: bool) -> (dispatch: HaltDispatch)
        ensures
            dispatch == (if scheduler_running {
                HaltDispatch::Detached
            } else {
                HaltDispatch::Blocking
            }),
    {
        if scheduler_running {
            HaltDispatch::Detached
        } else {
            HaltDispatch::Blocking
        }
    }

    /// Emergency stop: sets `stopped`, which is final, and says how the halt
    /// token is to be written. With a scheduler running the write is
    /// dispatched and not awaited; without one the caller must establish a
    /// scheduler and wait for the write.
    pub fn emergency_stop(&mut self, scheduler_running: bool) -> (dispatch: HaltDispatch)
        ensures
            final(self)@ == old(self)@.stop(),
            final(self)@.wf(),
            dispatch == (if scheduler_running {
                HaltDispatch::Detached
            } else {
                HaltDispatch::Blocking
            }),
    {
        self.engine.stop();
        AsyncStreamer::halt_dispatch(scheduler_running)
    }

    /// What an emergency stop returns to its caller, given how the write of
    /// the halt token was dispatched and, where it was awaited, how it went:
    /// only an awaited write can fail the call.
    pub fn halt_result(dispatch: HaltDispatch, written: Result<(), TransportError>) -> (outcome:
        Result<(), StreamError>)
        ensures
            outcome is Err <==> (dispatch is Blocking && written is Err),
            outcome matches Err(error) ==> error@ == StreamFault::Transport(
                written->Err_0@,
            ),
    {
        match dispatch {
            HaltDispatch::Detached => Ok(()),
            HaltDispatch::Blocking => match written {
                Ok(()) => Ok(()),
                Err(error) => Err(StreamError::Transport(error)),
            },
        }
    }

    /// Starts a streaming call over `total` lines at most; a driver that
    /// does not know their number gives the largest.
    pub fn begin(&mut self, total: usize)
        ensures
            final(self)@ == old(self)@.begin(total as nat),
            final(self)@.wf(),
    {
        self.engine.begin(total)
    }

    /// What the driver is to do now. Only a poll asks for a line, and never
    /// of a stopped or paused engine: a driver that polls directly before it
    /// transmits sends nothing once a stop or a pause is set.
    pub fn poll(&mut self) -> (directive: Directive)
        ensures
            (final(self)@, directive@) == old(self)@.poll(),
            final(self)@.wf(),
            (old(self)@.stopped || old(self)@.paused) ==> !(directive@ is Send),
            !(directive@ is Proceed),
    {
        self.engine.poll()
    }

    /// Takes the driver's report on the transmission it was asked for.
    pub fn line_sent(&mut self, outcome: Result<(), TransportError>) -> (directive: Directive)
        ensures
            (final(self)@, directive@) == old(self)@.line_sent(sent_report(outcome)),
            final(self)@.wf(),
            !(directive@ is Send),
    {
        self.engine.line_sent(outcome)
    }

    /// Takes the driver's report on the acknowledgment it read.
    pub fn ack_received(&mut self, ack: Result<String, TransportError>) -> (directive: Directive)
        ensures
            (final(self)@, directive@) == old(self)@.ack_received(ack_report(ack)),
            final(self)@.wf(),
            !(directive@ is Send),
    {
        self.engine.ack_received(ack)
    }

    /// Takes the driver's report that its source holds no further line: the
    /// call ends with success, once the acknowledgment that may be
    /// outstanding has been read.
    pub fn end_of_lines(&mut self) -> (directive: Directive)
        ensures
            (final(self)@, directive@) == old(self)@.end(),
            final(self)@.wf(),
            !(directive@ is Send),
    {
        self.engine.end_of_lines()
    }

}

} // verus!
