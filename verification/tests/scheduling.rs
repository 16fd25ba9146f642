use vatis::schedule::{begin_running, finish_draining, run_schedule, step, Action, Event, Phase};

#[test]
fn one_run_per_tick() {
    let events = vec![Event::TimerTick; 5];
    let actions = run_schedule(&events);
    assert_eq!(actions.len(), 5);
    assert!(actions.iter().all(|a| *a == Action::RunSample));
}

#[test]
fn interrupt_between_ticks_drains_once() {
    let events = vec![
        Event::TimerTick,
        Event::TimerTick,
        Event::Interrupt,
        Event::TimerTick,
        Event::Terminate,
    ];
    let actions = run_schedule(&events);
    assert_eq!(actions, vec![Action::RunSample, Action::RunSample, Action::Disconnect]);
    let disconnects = actions.iter().filter(|a| **a == Action::Disconnect).count();
    assert_eq!(disconnects, 1);
}

#[test]
fn terminate_acts_like_interrupt() {
    let events = vec![Event::Terminate, Event::TimerTick];
    let actions = run_schedule(&events);
    assert_eq!(actions, vec![Action::Disconnect]);
}

#[test]
fn no_events_no_actions() {
    let events: Vec<Event> = Vec::new();
    let actions = run_schedule(&events);
    assert!(actions.is_empty());
}

#[test]
fn step_transitions() {
    assert_eq!(step(Phase::Running, Event::TimerTick), (Phase::Running, Action::RunSample));
    assert_eq!(step(Phase::Running, Event::Interrupt), (Phase::Draining, Action::Disconnect));
    assert_eq!(step(Phase::Running, Event::Terminate), (Phase::Draining, Action::Disconnect));
}

#[test]
fn lifecycle_phases() {
    let running = begin_running(Phase::Connecting);
    assert_eq!(running, Phase::Running);
    let (drained, _) = step(running, Event::Interrupt);
    assert_eq!(drained, Phase::Draining);
    assert_eq!(finish_draining(drained), Phase::Stopped);
}
