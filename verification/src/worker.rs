//! Decision logic of the keep-alive worker.
//!
//! The worker owns the current mode and sleeps on a channel with a timeout.
//! Each wake-up is one of three events: a new mode arrived, the timeout
//! elapsed with no message, or every sender is gone. [`worker_step`] decides,
//! from the current mode and the event, which mode to assert to the power
//! manager and whether the worker keeps running; the surrounding application
//! runs the blocking loop, performs the assertion call and feeds the events
//! back in. [`run_worker_model`] replays a whole event sequence, so that the
//! worker's trace of assertion calls can be computed and examined.

use vstd::prelude::*;

use crate::mode::State;

verus! {

/// What woke the worker up.
#[derive(Clone, Copy, Debug, PartialEq, Eq, Structural)]
pub enum WorkerEvent {
    /// A new mode was received on the channel.
    Received(State),
    /// No message arrived within the re-assertion interval.
    TimedOut,
    /// Every sender has been dropped: the shutdown signal.
    Disconnected,
}

/// Whether the worker keeps running after a step, and in which mode.
#[derive(Clone, Copy, Debug, PartialEq, Eq, Structural)]
pub enum WorkerStatus {
    /// The worker stays alive, owning this mode.
    Running(State),
    /// The worker has asserted the default mode and exits.
    Terminated,
}

/// One decision of the worker: the mode whose flags are asserted now, and the
/// status the worker is in afterwards.
#[derive(Clone, Copy, Debug, PartialEq, Eq, Structural)]
pub struct StepOutcome {
    /// The mode asserted to the power manager in this step.
    pub assert_mode: State,
    /// The worker's status after the step.
    pub next: WorkerStatus,
}

/// The worker's decision for one event while running in mode `current`:
/// a received mode is asserted and becomes current; a timeout re-asserts the
/// current mode; a disconnect asserts the default mode once and terminates.
pub open spec fn spec_worker_step(current: State, event: WorkerEvent) -> StepOutcome {
    match event {
        WorkerEvent::Received(m) => StepOutcome {
            assert_mode: m,
            next: WorkerStatus::Running(m),
        },
        WorkerEvent::TimedOut => StepOutcome {
            assert_mode: current,
            next: WorkerStatus::Running(current),
        },
        WorkerEvent::Disconnected => StepOutcome {
            assert_mode: State::Default,
            next: WorkerStatus::Terminated,
        },
    }
}

/// Decide one step of the worker. Exactly one assertion call follows every
/// event; only a disconnect ends the worker, and it ends it in the default
/// mode.
pub fn worker_step(current: State, event: WorkerEvent) -> (r: StepOutcome)
    ensures
        r == spec_worker_step(current, event),
        event matches WorkerEvent::Received(m) ==> r.assert_mode == m && r.next == WorkerStatus::Running(m),
        event is TimedOut ==> r.assert_mode == current && r.next == WorkerStatus::Running(current),
        event is Disconnected ==> r.assert_mode == State::Default && r.next is Terminated,
{
    match event {
        WorkerEvent::Received(m) => StepOutcome {
            assert_mode: m,
            next: WorkerStatus::Running(m),
        },
        WorkerEvent::TimedOut => StepOutcome {
            assert_mode: current,
            next: WorkerStatus::Running(current),
        },
        WorkerEvent::Disconnected => StepOutcome {
            assert_mode: State::Default,
            next: WorkerStatus::Terminated,
        },
    }
}

/// The modes asserted by the worker's loop while it runs in mode `current`
/// and the events in `events` reach it in order. Processing stops at the
/// first disconnect: no event reaches a terminated worker.
pub open spec fn loop_assertions(current: State, events: Seq<WorkerEvent>) -> Seq<State>
    decreases events.len(),
{
    if events.len() == 0 {
        Seq::empty()
    } else {
        let step = spec_worker_step(current, events[0]);
        match step.next {
            WorkerStatus::Running(m) => seq![step.assert_mode] + loop_assertions(m, events.skip(1)),
            WorkerStatus::Terminated => seq![step.assert_mode],
        }
    }
}

/// The full trace of modes asserted by a worker started in `init`: the
/// initial assertion made on start, then one assertion per event until the
/// first disconnect.
pub open spec fn worker_assertions(init: State, events: Seq<WorkerEvent>) -> Seq<State> {
    seq![init] + loop_assertions(init, events)
}

/// Replay a worker run: start in `init`, feed the events in order, and return
/// the trace of asserted modes.
pub fn run_worker_model(init: State, events: &Vec<WorkerEvent>) -> (trace: Vec<State>)
    ensures
        trace@ == worker_assertions(init, events@),
{
    let mut trace = run_loop_model(init, events, 0);
    proof {
        assert(events@.skip(0) =~= events@);
    }
    trace.insert(0, init);
    proof {
        assert(trace@ =~= worker_assertions(init, events@));
    }
    trace
}

/// Replay the worker's loop from event `i` onward while running in mode
/// `current`.
fn run_loop_model(current: State, events: &Vec<WorkerEvent>, i: usize) -> (trace: Vec<State>)
    requires
        i <= events@.len(),
    ensures
        trace@ == loop_assertions(current, events@.skip(i as int)),
    decreases events@.len() - i,
{
    if i == events.len() {
        proof {
            assert(events@.skip(i as int) =~= Seq::<WorkerEvent>::empty());
        }
        Vec::new()
    } else {
        proof {
            assert(events@.skip(i as int)[0] == events@[i as int]);
            assert(events@.skip(i as int).skip(1) =~= events@.skip(i as int + 1));
        }
        let step = worker_step(current, events[i]);
        match step.next {
            WorkerStatus::Running(m) => {
                let mut trace = run_loop_model(m, events, i + 1);
                trace.insert(0, step.assert_mode);
                proof {
                    assert(trace@ =~= loop_assertions(current, events@.skip(i as int)));
                }
                trace
            }
            WorkerStatus::Terminated => {
                let mut trace: Vec<State> = Vec::new();
                trace.push(step.assert_mode);
                proof {
                    assert(trace@ =~= loop_assertions(current, events@.skip(i as int)));
                }
                trace
            }
        }
    }
}

/// While the worker stays alive, each step asserts exactly the mode the
/// worker owns afterwards: the OS assertion state always reflects the current
/// mode, refreshed at the latest one re-assertion interval after it was set.
pub proof fn lemma_assertion_reflects_current_mode(current: State, event: WorkerEvent)
    ensures
        spec_worker_step(current, event).next matches WorkerStatus::Running(m)
            ==> spec_worker_step(current, event).assert_mode == m,
{
}

/// Modes sent to a running worker are asserted in send order: a worker that
/// only receives messages asserts its initial mode and then exactly the
/// received modes, in order, each becoming current until superseded.
pub proof fn lemma_sends_asserted_in_order(init: State, modes: Seq<State>)
    ensures
        worker_assertions(init, modes.map_values(|m: State| WorkerEvent::Received(m)))
            == seq![init] + modes,
{
    lemma_received_loop(init, modes);
}

/// The loop part of [`lemma_sends_asserted_in_order`]: received modes are
/// echoed as assertions, one each, in order.
proof fn lemma_received_loop(current: State, modes: Seq<State>)
    ensures
        loop_assertions(current, modes.map_values(|m: State| WorkerEvent::Received(m))) == modes,
    decreases modes.len(),
{
    let events = modes.map_values(|m: State| WorkerEvent::Received(m));
    if modes.len() == 0 {
        assert(loop_assertions(current, events) =~= modes);
    } else {
        lemma_received_loop(modes[0], modes.skip(1));
        assert(events.skip(1) =~= modes.skip(1).map_values(|m: State| WorkerEvent::Received(m)));
        assert(loop_assertions(current, events) =~= modes);
    }
}

/// An idle timeout before any message re-asserts the current mode once and
/// changes nothing else: the trace gains one extra assertion of the initial
/// mode, and the rest of the run is as without the timeout.
pub proof fn lemma_idle_reassertion(init: State, rest: Seq<WorkerEvent>)
    ensures
        worker_assertions(init, seq![WorkerEvent::TimedOut] + rest)
            == seq![init, init] + loop_assertions(init, rest),
{
    let events = seq![WorkerEvent::TimedOut] + rest;
    assert(events.skip(1) =~= rest);
    assert(worker_assertions(init, events) =~= seq![init, init] + loop_assertions(init, rest));
}

/// Closing every handle shuts the worker down with exactly one final
/// assertion of the default mode: up to the first disconnect the worker makes
/// one assertion per event, the disconnect adds the default assertion, and no
/// assertion follows it, whatever events the sequence still holds.
pub proof fn lemma_disconnect_is_final(init: State, events: Seq<WorkerEvent>, i: int)
    requires
        0 <= i < events.len(),
        events[i] is Disconnected,
        forall|j: int| 0 <= j < i ==> !(events[j] is Disconnected),
    ensures
        worker_assertions(init, events).len() == i + 2,
        worker_assertions(init, events).last() == State::Default,
{
    lemma_disconnect_loop(init, events, i);
}

/// The loop part of [`lemma_disconnect_is_final`].
proof fn lemma_disconnect_loop(current: State, events: Seq<WorkerEvent>, i: int)
    requires
        0 <= i < events.len(),
        events[i] is Disconnected,
        forall|j: int| 0 <= j < i ==> !(events[j] is Disconnected),
    ensures
        loop_assertions(current, events).len() == i + 1,
        loop_assertions(current, events).last() == State::Default,
    decreases i,
{
    if i == 0 {
        assert(loop_assertions(current, events) =~= seq![State::Default]);
    } else {
        // events[0] is not the disconnect, so the step keeps the worker running.
        let tail = events.skip(1);
        assert(tail[i - 1] == events[i]);
        assert(forall|j: int| 0 <= j < i - 1 ==> tail[j] == events[j + 1] && !(tail[j] is Disconnected));
        match spec_worker_step(current, events[0]).next {
            WorkerStatus::Running(m) => {
                lemma_disconnect_loop(m, tail, i - 1);
            }
            WorkerStatus::Terminated => {
                assert(false);
            }
        }
    }
}

/// Starting a worker in any mode and closing it at once yields exactly two
/// assertions: the initial mode, then the default mode.
pub proof fn lemma_start_then_close(init: State)
    ensures
        worker_assertions(init, seq![WorkerEvent::Disconnected]) == seq![init, State::Default],
{
    assert(worker_assertions(init, seq![WorkerEvent::Disconnected]) =~= seq![init, State::Default]);
}

} // verus!

