//! What holds of every engine, proved from the model of its transitions.

use vstd::prelude::*;
use crate::machine::{Event, Model, Signal};
use crate::error::{StreamFault, TransportFault};
use crate::protocol::accepts;
use crate::transport::Step;

verus! {

/// Every transition keeps a valid state valid.
pub proof fn law_transition_keeps_validity(m: Model, event: Event)
    requires
        m.wf(),
    ensures
        m.after(event).wf(),
{
}

/// In every state that an engine can reach, at most one line is
/// unacknowledged, and with a window of at least one the number of
/// unacknowledged lines does not exceed the window.
pub proof fn law_in_flight_bounded(m: Model, events: Seq<Event>)
    requires
        m.wf(),
    ensures
        m.run(events).wf(),
        m.run(events).window == m.window,
        m.run(events).in_flight <= 1,
        m.window >= 1 ==> m.run(events).in_flight <= m.window,
    decreases events.len(),
{
    if events.len() > 0 {
        law_in_flight_bounded(m, events.drop_last());
        law_transition_keeps_validity(m.run(events.drop_last()), events.last());
    }
}

/// A fresh engine is valid, so the bound on the unacknowledged lines holds
/// from the start.
pub proof fn law_fresh_engine_is_valid(window: nat, strict: bool)
    ensures
        Model::init(window, strict).wf(),
        Model::init(window, strict).state() is Idle,
{
}

/// Only a poll asks for a line, and never of a stopped or paused engine.
pub proof fn law_only_a_poll_asks_for_a_line(m: Model, event: Event)
    ensures
        m.asks_to_send(event) ==> event is Poll && !m.stopped && !m.paused,
        (m.stopped || m.paused) ==> !(m.poll().1 is Send),
{
}

/// Stopping is final: whatever happens to a stopped engine, it stays
/// stopped and never asks for a line again.
pub proof fn law_stop_is_final(m: Model, events: Seq<Event>)
    requires
        m.stopped,
    ensures
        m.run(events).stopped,
        m.run(events).state() is Stopped,
        m.requests(events) == 0,
    decreases events.len(),
{
    if events.len() > 0 {
        law_stop_is_final(m, events.drop_last());
    }
}

/// No event starts a new call.
pub open spec fn without_begin(events: Seq<Event>) -> bool {
    forall|i: int| 0 <= i < events.len() ==> !(#[trigger] events[i] is Begin)
}

/// No event but a resumption ends a pause.
pub open spec fn without_resume(events: Seq<Event>) -> bool {
    forall|i: int| 0 <= i < events.len() ==> !(#[trigger] events[i] is Resume)
}

/// The driver polls directly before it transmits: every report of a
/// transmission follows a poll at once, with no other event in between.
pub open spec fn polls_before_sending(events: Seq<Event>) -> bool {
    forall|i: int|
        0 <= i < events.len() && (#[trigger] events[i] is LineSent) ==> i >= 1 && events[i
            - 1] is Poll
}

/// What holds of an engine that is stopped, or paused for the whole of a
/// run, under a driver that polls directly before it transmits: its
/// position stays and nothing is transmitted.
proof fn lemma_held_engine_transmits_nothing(m: Model, events: Seq<Event>)
    requires
        m.stopped || (m.paused && without_resume(events)),
        without_begin(events),
        polls_before_sending(events),
    ensures
        m.stopped ==> m.run(events).stopped,
        !m.stopped ==> m.run(events).stopped || m.run(events).paused,
        m.run(events).cursor == m.cursor,
        m.transmitted(events) =~= Seq::<nat>::empty(),
        (events.len() > 0 && events.last() is Poll) ==> !(m.run(events).phase is Sending),
    decreases events.len(),
{
    if events.len() > 0 {
        let earlier = events.drop_last();
        assert forall|i: int| 0 <= i < earlier.len() implies !(#[trigger] earlier[i] is Begin)
            && !(earlier[i] is Resume && !m.stopped) by {
            assert(earlier[i] == events[i]);
        }
        assert forall|i: int| 0 <= i < earlier.len() && (#[trigger] earlier[i] is LineSent)
            implies i >= 1 && earlier[i - 1] is Poll by {
            assert(earlier[i] == events[i]);
            assert(earlier[i - 1] == events[i - 1]);
        }
        lemma_held_engine_transmits_nothing(m, earlier);
        let last = events[events.len() - 1];
        assert(!(last is Begin));
        assert(!m.stopped ==> !(last is Resume));
        if last is LineSent {
            assert(events[events.len() - 2] is Poll);
            assert(earlier.last() == events[events.len() - 2]);
        }
    }
}

/// After a stop no further line is transmitted within the call, under a
/// driver that polls directly before it transmits: the count of
/// transmitted lines stays where it stood when the stop was set.
pub proof fn law_stop_sends_nothing_more(m: Model, events: Seq<Event>)
    requires
        m.stopped,
        without_begin(events),
        polls_before_sending(events),
    ensures
        m.run(events).cursor == m.cursor,
        m.transmitted(events) =~= Seq::<nat>::empty(),
        m.requests(events) == 0,
{
    lemma_held_engine_transmits_nothing(m, events);
    law_stop_is_final(m, events);
}

/// A stopped engine ends the call with success at its next checkpoint: at
/// once where no acknowledgment is outstanding, also where a line had been
/// handed out and was not yet sent; and else when the acknowledgment has
/// been read. A stream started on a stopped engine returns success at once,
/// with nothing sent.
pub proof fn law_stopped_engine_finishes_with_success(m: Model, total: nat, ack: Seq<char>)
    requires
        m.stopped,
    ensures
        !(m.phase is AwaitingAck) ==> m.poll().1 == Signal::Finish(Ok(())),
        !(m.phase is AwaitingAck) ==> m.poll().0.cursor == m.cursor,
        (m.phase is AwaitingAck && m.satisfied_by(ack)) ==> m.ack_received(Ok(ack)).0.poll().1
            == Signal::Finish(Ok(())),
        m.begin(total).poll().1 == Signal::Finish(Ok(())),
        m.begin(total).poll().0.cursor == 0,
{
}

/// While an engine is paused it asks for no line.
pub proof fn law_pause_suspends_dispatch(m: Model, events: Seq<Event>)
    requires
        m.paused,
        without_resume(events),
    ensures
        m.run(events).paused,
        m.requests(events) == 0,
    decreases events.len(),
{
    if events.len() > 0 {
        let earlier = events.drop_last();
        assert forall|i: int| 0 <= i < earlier.len() implies !(#[trigger] earlier[i] is Resume) by {
            assert(earlier[i] == events[i]);
        }
        law_pause_suspends_dispatch(m, earlier);
        assert(!(events[events.len() - 1] is Resume));
    }
}

/// For as long as an engine is paused nothing is transmitted, under a
/// driver that polls directly before it transmits: the position stays.
pub proof fn law_pause_sends_nothing(m: Model, events: Seq<Event>)
    requires
        m.paused,
        without_resume(events),
        without_begin(events),
        polls_before_sending(events),
    ensures
        m.run(events).cursor == m.cursor,
        m.transmitted(events) =~= Seq::<nat>::empty(),
{
    lemma_held_engine_transmits_nothing(m, events);
}

/// A pause neither skips nor repeats a line: a paused engine with lines
/// left waits, keeps its position, and once resumed hands out the very line
/// it stood at; also where that line had been handed out when the pause
/// came.
pub proof fn law_resume_continues_in_place(m: Model)
    requires
        m.wf(),
        m.phase is Checkpoint || m.phase is Sending,
        !m.stopped,
        m.cursor < m.total,
        m.window >= 1,
    ensures
        m.pause().poll().1 == Signal::WaitResume,
        m.pause().poll().0.cursor == m.cursor,
        m.pause().poll().0.resume().poll().1 == Signal::Send(m.cursor),
        m.pause().poll().0.resume().poll().0.cursor == m.cursor,
{
}

/// Within one call the lines are transmitted in the order in which they
/// stand, each once and none skipped, whatever pauses, resumptions, polls and
/// reports intervene: the i-th line transmitted is the line with index i.
pub proof fn law_lines_transmitted_in_order(m: Model, total: nat, events: Seq<Event>)
    requires
        m.wf(),
        without_begin(events),
    ensures
        m.begin(total).transmitted(events).len() == m.begin(total).run(events).cursor,
        m.begin(total).transmitted(events).len() <= total,
        forall|i: int|
            0 <= i < m.begin(total).transmitted(events).len() ==> m.begin(total).transmitted(
                events,
            )[i] == i,
{
    lemma_transmission_follows_cursor(m.begin(total), events);
}

/// The invariant behind [`law_lines_transmitted_in_order`]: the number of
/// lines transmitted so far is the cursor.
proof fn lemma_transmission_follows_cursor(start: Model, events: Seq<Event>)
    requires
        start.wf(),
        start.cursor == 0,
        without_begin(events),
    ensures
        start.run(events).wf(),
        start.run(events).total <= start.total,
        start.transmitted(events).len() == start.run(events).cursor,
        forall|i: int|
            0 <= i < start.transmitted(events).len() ==> start.transmitted(events)[i] == i,
    decreases events.len(),
{
    if events.len() > 0 {
        let earlier = events.drop_last();
        assert forall|i: int| 0 <= i < earlier.len() implies !(#[trigger] earlier[i] is Begin) by {
            assert(earlier[i] == events[i]);
        }
        lemma_transmission_follows_cursor(start, earlier);
        assert(!(events[events.len() - 1] is Begin));
        law_transition_keeps_validity(start.run(earlier), events.last());
    }
}

/// Every acknowledgment in `acks` is a success.
pub open spec fn all_accepted(acks: Seq<Seq<char>>) -> bool {
    forall|i: int| 0 <= i < acks.len() ==> accepts(#[trigger] acks[i])
}

/// With a window of at least one and every acknowledgment a success, a call
/// over `total` lines succeeds after exactly `total` exchanges: after fewer
/// the engine asks for the next line in order, after `total` it finishes
/// with success and has transmitted them all.
pub proof fn law_accepted_lines_all_stream(m: Model, total: nat, acks: Seq<Seq<char>>)
    requires
        m.wf(),
        m.window >= 1,
        !m.paused,
        !m.stopped,
        all_accepted(acks),
        acks.len() <= total,
    ensures
        m.begin(total).exchanges(acks).0.wf(),
        m.begin(total).exchanges(acks).0.cursor == acks.len(),
        m.begin(total).exchanges(acks).0.in_flight == 0,
        !m.begin(total).exchanges(acks).0.stopped,
        !m.begin(total).exchanges(acks).0.paused,
        m.begin(total).exchanges(acks).0.window == m.window,
        m.begin(total).exchanges(acks).0.strict == m.strict,
        m.begin(total).exchanges(acks).0.total == total,
        acks.len() < total ==> m.begin(total).exchanges(acks).1 == Signal::Send(acks.len()),
        acks.len() < total ==> m.begin(total).exchanges(acks).0.phase is Sending,
        acks.len() == total ==> m.begin(total).exchanges(acks).1 == Signal::Finish(Ok(())),
        acks.len() == total ==> m.begin(total).exchanges(acks).0.phase is Dormant,
    decreases acks.len(),
{
    if acks.len() > 0 {
        let earlier = acks.drop_last();
        assert forall|i: int| 0 <= i < earlier.len() implies accepts(#[trigger] earlier[i]) by {
            assert(earlier[i] == acks[i]);
        }
        law_accepted_lines_all_stream(m, total, earlier);
        assert(accepts(acks[acks.len() - 1]));
    }
}

/// If the k-th acknowledgment is the first that is not a success, the call
/// fails with a device error that holds the raw acknowledgment, exactly k
/// lines have been transmitted, and the engine is stopped: by
/// [`law_stop_is_final`] it never asks for a line again.
pub proof fn law_rejected_ack_aborts(
    m: Model,
    total: nat,
    accepted: Seq<Seq<char>>,
    rejected: Seq<char>,
)
    requires
        m.wf(),
        m.strict,
        m.window >= 1,
        !m.paused,
        !m.stopped,
        all_accepted(accepted),
        accepted.len() < total,
        !accepts(rejected),
    ensures
        ({
            let sent = m.begin(total).exchanges(accepted).0.line_sent(Ok(()));
            let answered = sent.0.ack_received(Ok(rejected));
            &&& sent.1 == Signal::ReadAck
            &&& answered.1 == Signal::Finish(Err(StreamFault::Device(rejected)))
            &&& answered.0.cursor == accepted.len() + 1
            &&& answered.0.stopped
            &&& answered.0.state() is Stopped
        }),
{
    law_accepted_lines_all_stream(m, total, accepted);
}

/// A failure of the channel ends the call with that failure unchanged, and
/// leaves the control signals as they were.
pub proof fn law_channel_failure_passes_through(m: Model, fault: TransportFault)
    ensures
        m.phase is Sending ==> m.line_sent(Err(fault)).1 == Signal::Finish(
            Err(StreamFault::Transport(fault)),
        ),
        m.phase is AwaitingAck ==> m.ack_received(Err(fault)).1 == Signal::Finish(
            Err(StreamFault::Transport(fault)),
        ),
        m.line_sent(Err(fault)).0.stopped == m.stopped,
        m.ack_received(Err(fault)).0.stopped == m.stopped,
        m.line_sent(Err(fault)).0.paused == m.paused,
        m.ack_received(Err(fault)).0.paused == m.paused,
{
}

/// An engine that does not judge acknowledgments takes every answer for a
/// success: no answer stops it, and only the channel can fail its call.
pub proof fn law_lenient_engine_accepts_every_ack(m: Model, ack: Seq<char>)
    requires
        !m.strict,
    ensures
        m.satisfied_by(ack),
        m.ack_received(Ok(ack)).0.stopped == m.stopped,
        m.ack_received(Ok(ack)).1 == Signal::Proceed,
{
}

/// A source without a further line ends the call with success: at once
/// where no acknowledgment is outstanding, and else after it has been read.
/// No line is asked for afterwards.
pub proof fn law_end_of_lines_finishes(m: Model, ack: Seq<char>)
    requires
        m.wf(),
    ensures
        m.end().0.wf(),
        m.end().0.cursor == m.cursor,
        !(m.phase is AwaitingAck) ==> m.end().1 == Signal::Finish(Ok(())),
        m.phase is AwaitingAck ==> m.end().1 == Signal::ReadAck,
        (m.phase is AwaitingAck && m.satisfied_by(ack)) ==> m.end().0.ack_received(
            Ok(ack),
        ).0.poll().1 == Signal::Finish(Ok(())),
        !(m.end().0.poll().1 is Send),
{
}

/// The transitions of the state that observers see.
pub proof fn law_observed_transitions(m: Model, ack: Seq<char>)
    requires
        m.wf(),
        !m.stopped,
    ensures
        // any state that is not terminal becomes Paused on a pause
        m.pause().state() is Paused,
        // any state becomes Stopped on a stop
        m.stop().state() is Stopped,
        // Paused becomes Idle on a resumption, and Sending with the next poll
        (m.phase is Checkpoint || m.phase is Dormant) ==> m.pause().resume().state() is Idle,
        (m.phase is Checkpoint && m.cursor < m.total && m.window >= 1)
            ==> m.pause().resume().poll().0.state() is Sending,
        // Idle becomes Sending when the next line is handed out
        (m.phase is Checkpoint && !m.paused && m.cursor < m.total && m.window >= 1)
            ==> m.poll().0.state() is Sending,
        // Sending becomes AwaitingAck after the transmission
        (m.phase is Sending && !m.paused) ==> m.line_sent(Ok(())).0.state() is AwaitingAck,
        // AwaitingAck becomes Stopped on a rejected acknowledgment
        (m.phase is AwaitingAck && !m.satisfied_by(ack)) ==> m.ack_received(Ok(ack)).0.state()
            is Stopped,
        // AwaitingAck becomes Idle on a success
        (m.phase is AwaitingAck && m.satisfied_by(ack) && !m.paused) ==> m.ack_received(
            Ok(ack),
        ).0.state() is Idle,
{
}

/// The steps of a driver that sends each line it is asked for with success
/// and reads these acknowledgments in answer.
pub open spec fn exchange_steps(lines: Seq<Seq<char>>, acks: Seq<Seq<char>>) -> Seq<Step>
    decreases acks.len(),
{
    if acks.len() == 0 {
        Seq::<Step>::empty()
    } else {
        exchange_steps(lines, acks.drop_last()).push(
            Step::Send(lines[acks.len() - 1], Ok(())),
        ).push(Step::Read(Ok(acks.last())))
    }
}

/// A streaming call over a channel that takes every line, and whose device
/// answers every line with a success, runs like the undisturbed model: it
/// sends the lines in order, one exchange each, and ends with success after
/// the last.
pub proof fn law_stream_of_accepted_lines(m: Model, lines: Seq<Seq<char>>, acks: Seq<Seq<char>>)
    requires
        m.wf(),
        m.window >= 1,
        !m.paused,
        !m.stopped,
        all_accepted(acks),
        acks.len() <= lines.len(),
    ensures
        m.begin(lines.len()).replay(lines, exchange_steps(lines, acks)) == Some(
            m.begin(lines.len()).exchanges(acks),
        ),
        acks.len() == lines.len() ==> (m.begin(lines.len()).replay(
            lines,
            exchange_steps(lines, acks),
        ) matches Some((after, signal)) && signal == Signal::Finish(Ok(())) && after.cursor
            == lines.len()),
    decreases acks.len(),
{
    let start = m.begin(lines.len());
    law_accepted_lines_all_stream(m, lines.len(), acks);
    if acks.len() > 0 {
        let earlier = acks.drop_last();
        assert forall|i: int| 0 <= i < earlier.len() implies accepts(#[trigger] earlier[i]) by {
            assert(earlier[i] == acks[i]);
        }
        law_stream_of_accepted_lines(m, lines, earlier);
        law_accepted_lines_all_stream(m, lines.len(), earlier);
        assert(accepts(acks[acks.len() - 1]));
        let sent = exchange_steps(lines, earlier).push(Step::Send(lines[acks.len() - 1], Ok(())));
        let steps = exchange_steps(lines, acks);
        assert(steps == sent.push(Step::Read(Ok(acks.last()))));
        assert(steps.drop_last() =~= sent);
        assert(sent.drop_last() =~= exchange_steps(lines, earlier));
        assert(start.replay(lines, sent) == Some(start.exchanges(earlier).0.line_sent(Ok(()))));
    }
}

/// A streaming call whose k-th acknowledgment is the first that is not a
/// success ends with a device error that holds that acknowledgment as it
/// was read, after exactly k lines; the engine is stopped, so that it never
/// asks for a line again.
pub proof fn law_stream_aborts_at_rejected_ack(
    m: Model,
    lines: Seq<Seq<char>>,
    accepted: Seq<Seq<char>>,
    rejected: Seq<char>,
)
    requires
        m.wf(),
        m.strict,
        m.window >= 1,
        !m.paused,
        !m.stopped,
        all_accepted(accepted),
        accepted.len() < lines.len(),
        !accepts(rejected),
    ensures
        m.begin(lines.len()).replay(lines, exchange_steps(lines, accepted.push(rejected)))
            matches Some((after, signal)) && signal == Signal::Finish(
            Err(StreamFault::Device(rejected)),
        ) && after.cursor == accepted.len() + 1 && after.stopped,
{
    let start = m.begin(lines.len());
    let acks = accepted.push(rejected);
    law_stream_of_accepted_lines(m, lines, accepted);
    law_accepted_lines_all_stream(m, lines.len(), accepted);
    law_rejected_ack_aborts(m, lines.len(), accepted, rejected);
    assert(acks.drop_last() =~= accepted);
    let sent = exchange_steps(lines, accepted).push(Step::Send(lines[acks.len() - 1], Ok(())));
    let steps = exchange_steps(lines, acks);
    assert(steps == sent.push(Step::Read(Ok(rejected))));
    assert(steps.drop_last() =~= sent);
    assert(sent.drop_last() =~= exchange_steps(lines, accepted));
    assert(start.replay(lines, sent) == Some(start.exchanges(accepted).0.line_sent(Ok(()))));
}

/// Whether a step of a streaming call went well: a send that the transport
/// took, or a read of an answer that the engine takes for a success.
pub open spec fn went_well(m: Model, step: Step) -> bool {
    match step {
        Step::Send(_, outcome) => outcome is Ok,
        Step::Read(answer) => answer is Ok && m.satisfied_by(answer->Ok_0),
        _ => false,
    }
}

/// The steps of a streaming call come in exchanges: a send, then a read,
/// and so on; the k-th send is of line k; and every step but the last went
/// well.
pub open spec fn in_exchanges(m: Model, lines: Seq<Seq<char>>, steps: Seq<Step>) -> bool {
    &&& forall|i: int|
        0 <= i < steps.len() && i % 2 == 0 ==> (#[trigger] steps[i]) is Send && i / 2
            < lines.len() && steps[i]->Send_0 == lines[i / 2]
    &&& forall|i: int| 0 <= i < steps.len() && i % 2 == 1 ==> (#[trigger] steps[i]) is Read
    &&& forall|i: int| 0 <= i < steps.len() - 1 ==> went_well(m, #[trigger] steps[i])
}

/// What the last step of a streaming call makes of the call: the engine
/// `after` it and what the engine asks.
pub open spec fn settles(
    m: Model,
    lines: Seq<Seq<char>>,
    steps: Seq<Step>,
    after: Model,
    signal: Signal,
) -> bool {
    if steps.len() == 0 {
        (after, signal) == m.begin(lines.len()).poll()
    } else {
        match steps.last() {
            // a line is on the wire: its acknowledgment is to be read
            Step::Send(_, Ok(())) => {
                &&& signal == Signal::ReadAck
                &&& after.phase is AwaitingAck
                &&& after.cursor == (steps.len() + 1) / 2
            },
            // a failure of the channel ends the call, unchanged
            Step::Send(_, Err(fault)) => {
                &&& signal == Signal::Finish(Err(StreamFault::Transport(fault)))
                &&& after.cursor == (steps.len() - 1) / 2
            },
            Step::Read(Err(fault)) => {
                &&& signal == Signal::Finish(Err(StreamFault::Transport(fault)))
                &&& after.cursor == steps.len() / 2
            },
            Step::Read(Ok(text)) => if m.satisfied_by(text) {
                // an exchange is complete: the next line is asked for, or
                // the call waits or is over with success
                &&& after.cursor == steps.len() / 2
                &&& !(signal is ReadAck)
                &&& !(signal is Proceed)
                &&& (signal is Send ==> signal == Signal::Send(after.cursor) && after.phase
                    is Sending)
                &&& (signal is Finish ==> signal == Signal::Finish(Ok(())))
            } else {
                // a rejected acknowledgment ends the call and stops the engine
                &&& signal == Signal::Finish(Err(StreamFault::Device(text)))
                &&& after.stopped
                &&& after.cursor == steps.len() / 2
            },
            _ => false,
        }
    }
}

/// The engine and its answer after a streaming call over `lines` that did
/// these steps on its channel.
pub open spec fn answer_of(m: Model, lines: Seq<Seq<char>>, steps: Seq<Step>) -> (Model, Signal) {
    m.begin(lines.len()).replay(lines, steps)->Some_0
}

/// The steps of every streaming call have the shape of whole exchanges:
/// whatever a call did on its channel, it sent and read in turn, the k-th
/// send was of line k, every step but the last went well, and the answer of
/// the call is the one that its last step settles.
pub proof fn law_steps_of_a_call(m: Model, lines: Seq<Seq<char>>, steps: Seq<Step>)
    requires
        m.wf(),
        m.begin(lines.len()).replay(lines, steps) is Some,
    ensures
        in_exchanges(m, lines, steps),
        settles(m, lines, steps, answer_of(m, lines, steps).0, answer_of(m, lines, steps).1),
        answer_of(m, lines, steps).0.wf(),
        answer_of(m, lines, steps).0.strict == m.strict,
        answer_of(m, lines, steps).0.total == lines.len(),
    decreases steps.len(),
{
    let start = m.begin(lines.len());
    if steps.len() > 0 {
        let earlier = steps.drop_last();
        let last = steps[steps.len() - 1];
        assert(start.replay(lines, earlier) is Some);
        law_steps_of_a_call(m, lines, earlier);
        let (engine, asked) = answer_of(m, lines, earlier);
        assert(asked is Send || asked is ReadAck);
        if earlier.len() > 0 {
            assert(went_well(m, earlier.last()));
            assert(earlier.last() == steps[steps.len() - 2]);
        }
        assert forall|i: int| 0 <= i < steps.len() - 1 implies went_well(
            m,
            #[trigger] steps[i],
        ) by {
            if i < earlier.len() - 1 {
                assert(steps[i] == earlier[i]);
                assert(went_well(m, earlier[i]));
            }
        }
        assert forall|i: int| 0 <= i < steps.len() && i % 2 == 0 implies (#[trigger] steps[i])
            is Send && i / 2 < lines.len() && steps[i]->Send_0 == lines[i / 2] by {
            if i < earlier.len() {
                assert(steps[i] == earlier[i]);
            }
        }
        assert forall|i: int| 0 <= i < steps.len() && i % 2 == 1 implies (#[trigger] steps[i])
            is Read by {
            if i < earlier.len() {
                assert(steps[i] == earlier[i]);
            }
        }
        law_transition_keeps_validity(engine, crate::machine::Event::Poll);
    }
}

} // verus!
