//! The scheduling and shutdown loop, as a state machine: the loop owns
//! a repeating timer and two signal listeners, races them, runs one
//! sampling tick per timer firing, and on the first signal drains
//! (disconnects exactly once) and stops. Events are consumed only
//! between ticks, so an in-flight tick always completes before a
//! signal takes effect.

use vstd::prelude::*;

verus! {

/// The lifecycle of the loop: connect and arm, then run ticks, then
/// drain (disconnect) once, then stop.
#[derive(Clone, Copy, PartialEq, Eq, Structural, Debug)]
pub enum Phase {
    Connecting,
    Running,
    Draining,
    Stopped,
}

/// One event the running loop can win its three-way race with.
#[derive(Clone, Copy, PartialEq, Eq, Structural, Debug)]
pub enum Event {
    TimerTick,
    Interrupt,
    Terminate,
}

/// What the loop does in response to one event.
#[derive(Clone, Copy, PartialEq, Eq, Structural, Debug)]
pub enum Action {
    RunSample,
    Disconnect,
}

/// The transition the running loop takes on one event: a timer tick
/// runs one sample and stays in `Running`; either signal moves to
/// `Draining` with one disconnect.
pub open spec fn spec_step(event: Event) -> (Phase, Action) {
    match event {
        Event::TimerTick => (Phase::Running, Action::RunSample),
        Event::Interrupt => (Phase::Draining, Action::Disconnect),
        Event::Terminate => (Phase::Draining, Action::Disconnect),
    }
}

/// Startup is complete: the connection is established, identity is
/// resolved and the timer is armed, so the loop starts running.
pub fn begin_running(phase: Phase) -> (next: Phase)
    requires
        phase == Phase::Connecting,
    ensures
        next == Phase::Running,
{
    Phase::Running
}

/// One iteration of the running loop's three-way race.
pub fn step(phase: Phase, event: Event) -> (r: (Phase, Action))
    requires
        phase == Phase::Running,
    ensures
        r == spec_step(event),
{
    match event {
        Event::TimerTick => (Phase::Running, Action::RunSample),
        Event::Interrupt => (Phase::Draining, Action::Disconnect),
        Event::Terminate => (Phase::Draining, Action::Disconnect),
    }
}

/// The one disconnect of the draining phase has been performed
/// (successfully or not): the loop stops either way.
pub fn finish_draining(phase: Phase) -> (next: Phase)
    requires
        phase == Phase::Draining,
    ensures
        next == Phase::Stopped,
{
    Phase::Stopped
}

/// The actions a running loop takes over a sequence of raced events:
/// one sample per timer tick until the first signal, which produces
/// one disconnect and ends the loop; later events are never consumed.
pub open spec fn spec_schedule(events: Seq<Event>) -> Seq<Action>
    decreases events.len(),
{
    if events.len() == 0 {
        Seq::empty()
    } else if events[0] is TimerTick {
        seq![Action::RunSample] + spec_schedule(events.drop_first())
    } else {
        seq![Action::Disconnect]
    }
}

/// The index of the first signal in `events`, or the length if every
/// event is a timer tick.
pub open spec fn first_signal(events: Seq<Event>) -> int
    decreases events.len(),
{
    if events.len() == 0 {
        0
    } else if events[0] is TimerTick {
        1 + first_signal(events.drop_first())
    } else {
        0
    }
}

/// The shape of every schedule: one sample per tick before the first
/// signal, then — only if a signal occurs — a single final disconnect.
pub proof fn lemma_schedule_shape(events: Seq<Event>)
    ensures
        0 <= first_signal(events) <= events.len(),
        first_signal(events) < events.len() ==> spec_schedule(events).len() == first_signal(events)
            + 1,
        first_signal(events) == events.len() ==> spec_schedule(events).len() == first_signal(
            events,
        ),
        forall|k: int|
            0 <= k < first_signal(events) ==> spec_schedule(events)[k] == Action::RunSample,
        first_signal(events) < events.len() ==> spec_schedule(events)[first_signal(events)]
            == Action::Disconnect,
        forall|k: int| 0 <= k < first_signal(events) ==> events[k] is TimerTick,
        first_signal(events) < events.len() ==> !(events[first_signal(events)] is TimerTick),
    decreases events.len(),
{
    if events.len() == 0 {
    } else if events[0] is TimerTick {
        lemma_schedule_shape(events.drop_first());
        let rest = events.drop_first();
        assert forall|k: int|
            0 <= k < first_signal(events) implies spec_schedule(events)[k]
            == Action::RunSample by {
            if k > 0 {
                assert(spec_schedule(events)[k] == spec_schedule(rest)[k - 1]);
            }
        }
        assert forall|k: int| 0 <= k < first_signal(events) implies events[k] is TimerTick by {
            if k > 0 {
                assert(events[k] == rest[k - 1]);
            }
        }
    } else {
    }
}

/// Law: with no signal delivered, the loop issues exactly one sampling
/// run per timer tick — never more, never fewer, and no disconnect.
pub proof fn lemma_one_run_per_tick(events: Seq<Event>)
    requires
        forall|k: int| 0 <= k < events.len() ==> events[k] is TimerTick,
    ensures
        spec_schedule(events).len() == events.len(),
        forall|k: int| 0 <= k < events.len() ==> spec_schedule(events)[k] == Action::RunSample,
    decreases events.len(),
{
    if events.len() > 0 {
        let rest = events.drop_first();
        assert(forall|k: int| 0 <= k < rest.len() ==> rest[k] == events[k + 1]);
        lemma_one_run_per_tick(rest);
        assert forall|k: int|
            0 <= k < events.len() implies spec_schedule(events)[k] == Action::RunSample by {
            if k > 0 {
                assert(spec_schedule(events)[k] == spec_schedule(rest)[k - 1]);
            }
        }
    }
}

/// Law: a signal delivered between ticks (the first non-tick event)
/// ends the loop with exactly one disconnect, placed after every
/// sampling run, and no event after it is consumed.
pub proof fn lemma_signal_drains_once(events: Seq<Event>, s: int)
    requires
        0 <= s < events.len(),
        forall|k: int| 0 <= k < s ==> events[k] is TimerTick,
        !(events[s] is TimerTick),
    ensures
        spec_schedule(events).len() == s + 1,
        spec_schedule(events)[s] == Action::Disconnect,
        forall|k: int| 0 <= k < s ==> spec_schedule(events)[k] == Action::RunSample,
        forall|k: int|
            0 <= k < spec_schedule(events).len() && spec_schedule(events)[k] == Action::Disconnect
                ==> k == s,
    decreases events.len(),
{
    lemma_first_signal_at(events, s);
    lemma_schedule_shape(events);
}

/// If every event before `s` is a timer tick and the event at `s` is
/// not, then `s` is the first signal.
proof fn lemma_first_signal_at(events: Seq<Event>, s: int)
    requires
        0 <= s < events.len(),
        forall|k: int| 0 <= k < s ==> events[k] is TimerTick,
        !(events[s] is TimerTick),
    ensures
        first_signal(events) == s,
    decreases events.len(),
{
    if s > 0 {
        let rest = events.drop_first();
        assert(forall|k: int| 0 <= k < rest.len() ==> rest[k] == events[k + 1]);
        lemma_first_signal_at(rest, s - 1);
    }
}

/// Runs the race loop over a whole sequence of events, from the
/// `Running` phase: the resulting action trace is `spec_schedule`.
pub fn run_schedule(events: &Vec<Event>) -> (out: Vec<Action>)
    ensures
        out@ == spec_schedule(events@),
{
    let ghost all = events@;
    let mut out: Vec<Action> = Vec::new();
    let mut phase = Phase::Running;
    let mut i: usize = 0;
    while i < events.len()
        invariant
            i <= events@.len(),
            phase == Phase::Running,
            out@.len() == i,
            forall|k: int| 0 <= k < i as int ==> events@[k] is TimerTick,
            forall|k: int| 0 <= k < i as int ==> out@[k] == Action::RunSample,
        decreases events@.len() - i,
    {
        let (next, action) = step(phase, events[i]);
        out.push(action);
        if !matches!(next, Phase::Running) {
            proof {
                lemma_signal_drains_once(events@, i as int);
                assert(out@ =~= spec_schedule(events@));
            }
            return out;
        }
        phase = next;
        i = i + 1;
    }
    proof {
        lemma_one_run_per_tick(events@);
        assert(out@ =~= spec_schedule(events@));
    }
    out
}

} // verus!
