//! The decisions of the process-bootstrap path.
//!
//! The platform loader transfers control to the entry symbol once it has
//! performed relocation and set up the data segments. From there the process
//! calls the user's entry function once and then leaves through the platform's
//! exit call, whether the user function returns or fails. A failure never
//! unwinds: the panic path goes straight to the exit call.
//!
//! The freestanding shim that owns the real symbols asks `step` what to do
//! next, performs the action, and reports what happened as the next event.
use vstd::prelude::*;

verus! {

/// Where the process is in its lifetime.
#[derive(Clone, Copy, Debug, PartialEq, Eq, Structural)]
pub enum Phase {
    /// The loader has relocated the program and handed over control.
    Loaded,
    /// The user's entry function is running.
    Running,
    /// The user's entry function returned and the process exited.
    NormalExit,
    /// The program failed and the process exited without unwinding.
    PanicExit,
}

/// What the shim observed.
#[derive(Clone, Copy, Debug, PartialEq, Eq, Structural)]
pub enum Event {
    /// Control arrived at the entry symbol.
    Start,
    /// The user's entry function returned.
    UserReturned,
    /// The failure machinery invoked the panic handler.
    Panicked,
}

/// What the shim must do next.
#[derive(Clone, Copy, Debug, PartialEq, Eq, Structural)]
pub enum Action {
    /// Call the user's entry function.
    CallUserEntry,
    /// Call the platform's exit call, which does not return.
    ExitToShell,
    /// Nothing: the event cannot arise in this phase.
    Ignore,
}

/// The process has exited.
pub open spec fn is_exited(p: Phase) -> bool {
    p is NormalExit || p is PanicExit
}

/// The next phase and the action for event `e` in phase `p`.
pub open spec fn transition(p: Phase, e: Event) -> (Phase, Action) {
    match (p, e) {
        (Phase::Loaded, Event::Start) => (Phase::Running, Action::CallUserEntry),
        (Phase::Running, Event::UserReturned) => (Phase::NormalExit, Action::ExitToShell),
        (Phase::Loaded, Event::Panicked) => (Phase::PanicExit, Action::ExitToShell),
        (Phase::Running, Event::Panicked) => (Phase::PanicExit, Action::ExitToShell),
        _ => (p, Action::Ignore),
    }
}

/// The phase reached and the actions taken when `events` arrive in phase `p`.
pub open spec fn run(p: Phase, events: Seq<Event>) -> (Phase, Seq<Action>)
    decreases events.len(),
{
    if events.len() == 0 {
        (p, Seq::empty())
    } else {
        let first = transition(p, events[0]);
        let rest = run(first.0, events.drop_first());
        (rest.0, seq![first.1] + rest.1)
    }
}

/// `n` actions that do nothing.
pub open spec fn idle(n: nat) -> Seq<Action> {
    Seq::new(n, |k: int| Action::Ignore)
}

/// Decides the next phase and action for event `e` in phase `p`.
pub fn step(p: Phase, e: Event) -> (r: (Phase, Action))
    ensures
        r == transition(p, e),
{
    match (p, e) {
        (Phase::Loaded, Event::Start) => (Phase::Running, Action::CallUserEntry),
        (Phase::Running, Event::UserReturned) => (Phase::NormalExit, Action::ExitToShell),
        (Phase::Loaded, Event::Panicked) => (Phase::PanicExit, Action::ExitToShell),
        (Phase::Running, Event::Panicked) => (Phase::PanicExit, Action::ExitToShell),
        _ => (p, Action::Ignore),
    }
}

/// Once the process has exited it stays exited, and no event makes it act.
pub proof fn lemma_exit_is_final(p: Phase, events: Seq<Event>)
    requires
        is_exited(p),
    ensures
        run(p, events).0 == p,
        run(p, events).1 == idle(events.len()),
    decreases events.len(),
{
    if events.len() > 0 {
        lemma_exit_is_final(p, events.drop_first());
        assert(seq![Action::Ignore] + idle((events.len() - 1) as nat) =~= idle(events.len()));
    }
}

/// The entry path: after control arrives at the entry symbol, the user's entry
/// function is called exactly once and then the exit call exactly once,
/// whether the user function returns or fails; whatever comes later, the
/// process has exited and takes no further action.
pub proof fn lemma_entry_point(outcome: Event, later: Seq<Event>)
    requires
        outcome is UserReturned || outcome is Panicked,
    ensures
        ({
            let r = run(Phase::Loaded, seq![Event::Start, outcome] + later);
            &&& is_exited(r.0)
            &&& r.1 == seq![Action::CallUserEntry, Action::ExitToShell] + idle(later.len())
        }),
{
    let events = seq![Event::Start, outcome] + later;
    let tail = events.drop_first();
    assert(tail =~= seq![outcome] + later);
    assert(tail.drop_first() =~= later);
    let exited = transition(Phase::Running, outcome).0;
    lemma_exit_is_final(exited, later);
    assert(run(Phase::Running, tail).1 =~= seq![Action::ExitToShell] + idle(later.len()));
    assert(run(Phase::Loaded, events).1 =~= seq![Action::CallUserEntry, Action::ExitToShell]
        + idle(later.len()));
}

/// The panic path: from any phase in which code runs, a failure leads to
/// exactly one exit call and never to a call of the user's entry function;
/// whatever comes later, the process has exited and takes no further action.
pub proof fn lemma_panic_exits(p: Phase, later: Seq<Event>)
    requires
        !is_exited(p),
    ensures
        ({
            let r = run(p, seq![Event::Panicked] + later);
            &&& r.0 == Phase::PanicExit
            &&& r.1 == seq![Action::ExitToShell] + idle(later.len())
        }),
{
    let events = seq![Event::Panicked] + later;
    assert(events.drop_first() =~= later);
    lemma_exit_is_final(Phase::PanicExit, later);
}

/// Once the user's entry function has been called, or the process has exited,
/// no event leads to calling it again.
pub proof fn lemma_no_call_after_start(p: Phase, events: Seq<Event>)
    requires
        !(p is Loaded),
    ensures
        forall|k: int| 0 <= k < events.len() ==> run(p, events).1[k] != Action::CallUserEntry,
    decreases events.len(),
{
    if events.len() > 0 {
        let next = transition(p, events[0]).0;
        lemma_no_call_after_start(next, events.drop_first());
        lemma_len_of_run(next, events.drop_first());
        let r = run(p, events).1;
        assert forall|k: int| 0 <= k < events.len() implies r[k] != Action::CallUserEntry by {
            if k > 0 {
                assert(r[k] == run(next, events.drop_first()).1[k - 1]);
            }
        }
    }
}

/// Whatever events arrive after the loader hands over control, the user's
/// entry function is called at most once, the exit call is made at most once,
/// and the call of the user's entry function comes before the exit call.
pub proof fn lemma_each_call_at_most_once(events: Seq<Event>)
    ensures
        ({
            let acts = run(Phase::Loaded, events).1;
            &&& acts.len() == events.len()
            &&& forall|i: int, j: int|
                #![trigger acts[i], acts[j]]
                0 <= i < acts.len() && 0 <= j < acts.len() && acts[i] == Action::CallUserEntry
                    && acts[j] == Action::CallUserEntry ==> i == j
            &&& forall|i: int, j: int|
                #![trigger acts[i], acts[j]]
                0 <= i < acts.len() && 0 <= j < acts.len() && acts[i] == Action::ExitToShell
                    && acts[j] == Action::ExitToShell ==> i == j
            &&& forall|i: int, j: int|
                #![trigger acts[i], acts[j]]
                0 <= i < acts.len() && 0 <= j < acts.len() && acts[i] == Action::CallUserEntry
                    && acts[j] == Action::ExitToShell ==> i < j
        }),
{
    lemma_at_most_once_from(Phase::Loaded, events);
}

proof fn lemma_at_most_once_from(p: Phase, events: Seq<Event>)
    requires
        !is_exited(p),
    ensures
        ({
            let acts = run(p, events).1;
            &&& acts.len() == events.len()
            &&& forall|i: int, j: int|
                #![trigger acts[i], acts[j]]
                0 <= i < acts.len() && 0 <= j < acts.len() && acts[i] == Action::CallUserEntry
                    && acts[j] == Action::CallUserEntry ==> i == j
            &&& forall|i: int, j: int|
                #![trigger acts[i], acts[j]]
                0 <= i < acts.len() && 0 <= j < acts.len() && acts[i] == Action::ExitToShell
                    && acts[j] == Action::ExitToShell ==> i == j
            &&& forall|i: int, j: int|
                #![trigger acts[i], acts[j]]
                0 <= i < acts.len() && 0 <= j < acts.len() && acts[i] == Action::CallUserEntry
                    && acts[j] == Action::ExitToShell ==> i < j
        }),
    decreases events.len(),
{
    if events.len() > 0 {
        let first = transition(p, events[0]);
        let rest_events = events.drop_first();
        let rest = run(first.0, rest_events).1;
        let acts = run(p, events).1;
        assert(acts =~= seq![first.1] + rest);
        if is_exited(first.0) {
            lemma_exit_is_final(first.0, rest_events);
            assert forall|k: int| 0 < k < acts.len() implies acts[k] == Action::Ignore by {
                assert(acts[k] == rest[k - 1]);
            }
        } else {
            lemma_at_most_once_from(first.0, rest_events);
            if first.1 == Action::CallUserEntry {
                lemma_no_call_after_start(first.0, rest_events);
            }
            assert forall|k: int| 0 < k < acts.len() implies acts[k] == rest[k - 1] by {}
        }
    }
    lemma_len_of_run(p, events);
}

/// One action is taken for each event.
proof fn lemma_len_of_run(p: Phase, events: Seq<Event>)
    ensures
        run(p, events).1.len() == events.len(),
    decreases events.len(),
{
    if events.len() > 0 {
        lemma_len_of_run(transition(p, events[0]).0, events.drop_first());
    }
}

} // verus!
