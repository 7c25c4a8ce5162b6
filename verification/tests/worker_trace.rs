use rivatiker::{
    flags_for, run_worker_model, worker_step, State, StepOutcome, WorkerEvent, WorkerStatus,
};

#[test]
fn received_mode_is_asserted_and_becomes_current() {
    let step = worker_step(State::Default, WorkerEvent::Received(State::NoSystemSleep));
    assert_eq!(
        step,
        StepOutcome {
            assert_mode: State::NoSystemSleep,
            next: WorkerStatus::Running(State::NoSystemSleep),
        }
    );
}

#[test]
fn three_sends_give_three_assertions_in_order() {
    let events = vec![
        WorkerEvent::Received(State::NoSystemSleep),
        WorkerEvent::Received(State::NoMonitorSleep),
        WorkerEvent::Received(State::Default),
    ];
    let trace = run_worker_model(State::Default, &events);
    // One initial assertion on start, then exactly one per sent mode, in send order.
    assert_eq!(trace.len(), 4);
    let flags: Vec<u32> = trace[1..].iter().map(|m| flags_for(*m)).collect();
    assert_eq!(
        flags,
        vec![
            flags_for(State::NoSystemSleep),
            flags_for(State::NoMonitorSleep),
            flags_for(State::Default),
        ]
    );
}

#[test]
fn idle_timeout_reasserts_current_mode() {
    let step = worker_step(State::NoMonitorSleep, WorkerEvent::TimedOut);
    assert_eq!(step.assert_mode, State::NoMonitorSleep);
    assert_eq!(step.next, WorkerStatus::Running(State::NoMonitorSleep));

    // A quiet interval while no-monitor-sleep is current: one extra assertion
    // of that same mode appears before the next message is processed.
    let events = vec![WorkerEvent::TimedOut, WorkerEvent::Received(State::Default)];
    let trace = run_worker_model(State::NoMonitorSleep, &events);
    assert_eq!(
        trace,
        vec![State::NoMonitorSleep, State::NoMonitorSleep, State::Default]
    );
}

#[test]
fn disconnect_asserts_default_once_and_stops() {
    let step = worker_step(State::NoSystemSleep, WorkerEvent::Disconnected);
    assert_eq!(step.assert_mode, State::Default);
    assert_eq!(step.next, WorkerStatus::Terminated);

    // Whatever the sequence still holds after the disconnect never reaches the
    // worker: the trace ends with the single default assertion.
    let events = vec![
        WorkerEvent::Received(State::NoSystemSleep),
        WorkerEvent::Disconnected,
        WorkerEvent::Received(State::NoMonitorSleep),
        WorkerEvent::TimedOut,
    ];
    let trace = run_worker_model(State::NoSystemSleep, &events);
    assert_eq!(
        trace,
        vec![State::NoSystemSleep, State::NoSystemSleep, State::Default]
    );
}

#[test]
fn start_then_close_asserts_initial_then_default() {
    for init in [
        State::Default,
        State::NoSystemSleep,
        State::NoMonitorSleep,
        State::AwayMode,
    ] {
        let trace = run_worker_model(init, &vec![WorkerEvent::Disconnected]);
        assert_eq!(trace, vec![init, State::Default]);
    }
}

#[test]
fn empty_run_asserts_only_the_initial_mode() {
    let trace = run_worker_model(State::AwayMode, &Vec::new());
    assert_eq!(trace, vec![State::AwayMode]);
}
