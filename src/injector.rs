//! The injector's run: find the target process, check that its install
//! directory holds the bypass marker, then either offer to create the marker
//! and stop, or inject the payload once.
use vstd::prelude::*;

verus! {

/// The executable name the target process is found by.
pub fn target_executable() -> (r: &'static str)
    ensures
        r@ == "eldenring.exe"@,
{
    "eldenring.exe"
}

/// The marker file whose presence in the target's directory lets injection go ahead.
pub fn marker_file_name() -> (r: &'static str)
    ensures
        r@ == "steam_appid.txt"@,
{
    "steam_appid.txt"
}

/// What the remediation writes into the marker file.
pub fn marker_contents() -> (r: &'static str)
    ensures
        r@ == "1245620"@,
{
    "1245620"
}

/// The payload module beside the injector: the primary name where that file
/// exists, else the secondary one.
pub fn payload_file_name(primary_exists: bool) -> (r: &'static str)
    ensures
        primary_exists ==> r@ == "jdsd_er_practice_tool.dll"@,
        !primary_exists ==> r@ == "libjdsd_er_practice_tool.dll"@,
{
    if primary_exists {
        "jdsd_er_practice_tool.dll"
    } else {
        "libjdsd_er_practice_tool.dll"
    }
}

/// Where a run stands.
#[derive(Clone, Copy, Debug, PartialEq, Eq, Structural)]
pub enum Phase {
    Start,
    LocatingTarget,
    CheckingPrecondition,
    Remediating,
    Injecting,
    /// The payload was injected.
    Done,
    /// The marker was missing; the run stopped after the remediation offer.
    Aborted,
    /// The target process is not running.
    NoTarget,
    /// A step failed; the failure was reported.
    Failed,
}

/// What the surroundings report back after carrying out an action.
#[derive(Clone, Copy, Debug, PartialEq, Eq, Structural)]
pub enum Event {
    Begin,
    TargetFound,
    TargetMissing,
    MarkerPresent,
    MarkerAbsent,
    /// The target's directory could not be determined.
    ProbeFailed,
    /// The user picked the executable and the marker was written beside it.
    MarkerWritten,
    /// The user picked no executable.
    RemediationDeclined,
    /// The marker could not be written.
    RemediationFailed,
    Injected,
    InjectionFailed,
}

/// What the surroundings are to do next.
#[derive(Clone, Copy, Debug, PartialEq, Eq, Structural)]
pub enum Action {
    FindTarget,
    CheckMarker,
    /// Explain the missing bypass, ask for the executable, write the marker.
    OfferRemediation,
    /// Ask the loader to place the payload in the target, once.
    Inject,
    ReportNoTarget,
    ReportRemediated,
    ReportNotRemediated,
    ReportError,
    ReportInjectionFailure,
    /// Nothing: the run is over, or the event does not belong to this phase.
    Idle,
}

/// The protocol: the next phase and action for each phase and event. An
/// event that does not belong to the phase changes nothing.
pub open spec fn transition(phase: Phase, event: Event) -> (Phase, Action) {
    match (phase, event) {
        (Phase::Start, Event::Begin) => (Phase::LocatingTarget, Action::FindTarget),
        (Phase::LocatingTarget, Event::TargetFound) => (
            Phase::CheckingPrecondition,
            Action::CheckMarker,
        ),
        (Phase::LocatingTarget, Event::TargetMissing) => (Phase::NoTarget, Action::ReportNoTarget),
        (Phase::CheckingPrecondition, Event::MarkerPresent) => (Phase::Injecting, Action::Inject),
        (Phase::CheckingPrecondition, Event::MarkerAbsent) => (
            Phase::Remediating,
            Action::OfferRemediation,
        ),
        (Phase::CheckingPrecondition, Event::ProbeFailed) => (Phase::Failed, Action::ReportError),
        (Phase::Remediating, Event::MarkerWritten) => (Phase::Aborted, Action::ReportRemediated),
        (Phase::Remediating, Event::RemediationDeclined) => (
            Phase::Aborted,
            Action::ReportNotRemediated,
        ),
        (Phase::Remediating, Event::RemediationFailed) => (Phase::Failed, Action::ReportError),
        (Phase::Injecting, Event::Injected) => (Phase::Done, Action::Idle),
        (Phase::Injecting, Event::InjectionFailed) => (
            Phase::Failed,
            Action::ReportInjectionFailure,
        ),
        _ => (phase, Action::Idle),
    }
}

/// The phase after `events`, starting from `phase`, and the actions asked for on the way.
pub open spec fn run(phase: Phase, events: Seq<Event>) -> (Phase, Seq<Action>)
    decreases events.len(),
{
    if events.len() == 0 {
        (phase, Seq::empty())
    } else {
        let (next, action) = transition(phase, events[0]);
        let (last, rest) = run(next, events.drop_first());
        (last, seq![action] + rest)
    }
}

/// How many of `actions` are injections.
pub open spec fn injections(actions: Seq<Action>) -> nat
    decreases actions.len(),
{
    if actions.len() == 0 {
        0
    } else {
        (if actions[0] == Action::Inject {
            1nat
        } else {
            0nat
        }) + injections(actions.drop_first())
    }
}

/// Whether a phase still lies before the precondition's outcome.
pub open spec fn before_injection(phase: Phase) -> bool {
    phase == Phase::Start || phase == Phase::LocatingTarget || phase
        == Phase::CheckingPrecondition
}

/// One run of the injector.
pub struct Injector {
    phase: Phase,
}

impl Injector {
    pub closed spec fn spec_phase(&self) -> Phase {
        self.phase
    }

    pub fn new() -> (r: Injector)
        ensures
            r.spec_phase() == Phase::Start,
    {
        Injector { phase: Phase::Start }
    }

    pub fn phase(&self) -> (r: Phase)
        ensures
            r == self.spec_phase(),
    {
        self.phase
    }

    /// Takes one event and says what to do next.
    pub fn handle(&mut self, event: Event) -> (r: Action)
        ensures
            (final(self).spec_phase(), r) == transition(old(self).spec_phase(), event),
    {
        let (next, action) = match (self.phase, event) {
            (Phase::Start, Event::Begin) => (Phase::LocatingTarget, Action::FindTarget),
            (Phase::LocatingTarget, Event::TargetFound) => (
                Phase::CheckingPrecondition,
                Action::CheckMarker,
            ),
            (Phase::LocatingTarget, Event::TargetMissing) => (
                Phase::NoTarget,
                Action::ReportNoTarget,
            ),
            (Phase::CheckingPrecondition, Event::MarkerPresent) => (
                Phase::Injecting,
                Action::Inject,
            ),
            (Phase::CheckingPrecondition, Event::MarkerAbsent) => (
                Phase::Remediating,
                Action::OfferRemediation,
            ),
            (Phase::CheckingPrecondition, Event::ProbeFailed) => (
                Phase::Failed,
                Action::ReportError,
            ),
            (Phase::Remediating, Event::MarkerWritten) => (
                Phase::Aborted,
                Action::ReportRemediated,
            ),
            (Phase::Remediating, Event::RemediationDeclined) => (
                Phase::Aborted,
                Action::ReportNotRemediated,
            ),
            (Phase::Remediating, Event::RemediationFailed) => (
                Phase::Failed,
                Action::ReportError,
            ),
            (Phase::Injecting, Event::Injected) => (Phase::Done, Action::Idle),
            (Phase::Injecting, Event::InjectionFailed) => (
                Phase::Failed,
                Action::ReportInjectionFailure,
            ),
            _ => (self.phase, Action::Idle),
        };
        self.phase = next;
        action
    }
}

/// From a phase past the precondition check, no event ever asks for an injection.
pub proof fn lemma_no_injection_after_check(phase: Phase, events: Seq<Event>)
    requires
        !before_injection(phase),
    ensures
        injections(run(phase, events).1) == 0,
        !before_injection(run(phase, events).0),
    decreases events.len(),
{
    if events.len() > 0 {
        let (next, action) = transition(phase, events[0]);
        lemma_no_injection_after_check(next, events.drop_first());
        assert((seq![action] + run(next, events.drop_first()).1).drop_first() =~= run(
            next,
            events.drop_first(),
        ).1);
    }
}

/// A run never asks for more than one injection, whatever the events.
pub proof fn lemma_at_most_one_injection(phase: Phase, events: Seq<Event>)
    ensures
        injections(run(phase, events).1) <= 1,
    decreases events.len(),
{
    if events.len() > 0 {
        let (next, action) = transition(phase, events[0]);
        let rest = run(next, events.drop_first()).1;
        assert((seq![action] + rest).drop_first() =~= rest);
        if action == Action::Inject {
            lemma_no_injection_after_check(next, events.drop_first());
        } else {
            lemma_at_most_one_injection(next, events.drop_first());
        }
    }
}

/// One step of a run: the first event's transition, then the rest.
proof fn lemma_run_step(phase: Phase, events: Seq<Event>)
    requires
        events.len() > 0,
    ensures
        run(phase, events).0 == run(transition(phase, events[0]).0, events.drop_first()).0,
        run(phase, events).1[0] == transition(phase, events[0]).1,
        injections(run(phase, events).1) == (if transition(phase, events[0]).1 == Action::Inject {
            1nat
        } else {
            0nat
        }) + injections(run(transition(phase, events[0]).0, events.drop_first()).1),
{
    let (next, action) = transition(phase, events[0]);
    let rest = run(next, events.drop_first()).1;
    assert((seq![action] + rest).drop_first() =~= rest);
}

/// With the target not running, the run ends with no target and injects nothing.
pub proof fn lemma_missing_target(events: Seq<Event>)
    ensures
        run(Phase::Start, seq![Event::Begin, Event::TargetMissing] + events).0 == Phase::NoTarget,
        injections(run(Phase::Start, seq![Event::Begin, Event::TargetMissing] + events).1) == 0,
{
    let all = seq![Event::Begin, Event::TargetMissing] + events;
    assert(all[0] == Event::Begin);
    assert(all.drop_first()[0] == Event::TargetMissing);
    assert(all.drop_first().drop_first() =~= events);
    lemma_run_step(Phase::Start, all);
    lemma_run_step(Phase::LocatingTarget, all.drop_first());
    lemma_no_injection_after_check(Phase::NoTarget, events);
    lemma_no_target_stays(events);
}

/// Once no target was found, the run stays there.
proof fn lemma_no_target_stays(events: Seq<Event>)
    ensures
        run(Phase::NoTarget, events).0 == Phase::NoTarget,
    decreases events.len(),
{
    if events.len() > 0 {
        lemma_run_step(Phase::NoTarget, events);
        lemma_no_target_stays(events.drop_first());
    }
}

/// With the marker missing, the remediation is offered and nothing is injected.
pub proof fn lemma_missing_marker(events: Seq<Event>)
    ensures
        run(
            Phase::Start,
            seq![Event::Begin, Event::TargetFound, Event::MarkerAbsent] + events,
        ).1[2] == Action::OfferRemediation,
        injections(
            run(Phase::Start, seq![Event::Begin, Event::TargetFound, Event::MarkerAbsent] + events).1,
        ) == 0,
{
    let all = seq![Event::Begin, Event::TargetFound, Event::MarkerAbsent] + events;
    lemma_first_three(all, Event::Begin, Event::TargetFound, Event::MarkerAbsent, events);
    lemma_no_injection_after_check(Phase::Remediating, events);
}

/// With the target running and the marker present, exactly one injection is asked for.
pub proof fn lemma_injects_once(events: Seq<Event>)
    ensures
        run(
            Phase::Start,
            seq![Event::Begin, Event::TargetFound, Event::MarkerPresent] + events,
        ).1[2] == Action::Inject,
        injections(
            run(Phase::Start, seq![Event::Begin, Event::TargetFound, Event::MarkerPresent] + events).1,
        ) == 1,
{
    let all = seq![Event::Begin, Event::TargetFound, Event::MarkerPresent] + events;
    lemma_first_three(all, Event::Begin, Event::TargetFound, Event::MarkerPresent, events);
    lemma_no_injection_after_check(Phase::Injecting, events);
}

/// A run that opens with three given events, unfolded over them.
proof fn lemma_first_three(all: Seq<Event>, a: Event, b: Event, c: Event, events: Seq<Event>)
    requires
        all == seq![a, b, c] + events,
    ensures
        ({
            let (after_a, act_a) = transition(Phase::Start, a);
            let (after_b, act_b) = transition(after_a, b);
            let (after_c, act_c) = transition(after_b, c);
            &&& run(Phase::Start, all).1[2] == act_c
            &&& injections(run(Phase::Start, all).1) == (if act_a == Action::Inject {
                1nat
            } else {
                0nat
            }) + (if act_b == Action::Inject {
                1nat
            } else {
                0nat
            }) + (if act_c == Action::Inject {
                1nat
            } else {
                0nat
            }) + injections(run(after_c, events).1)
        }),
{
    assert(all[0] == a);
    assert(all.drop_first()[0] == b);
    assert(all.drop_first().drop_first()[0] == c);
    assert(all.drop_first().drop_first().drop_first() =~= events);
    let (after_a, act_a) = transition(Phase::Start, a);
    let (after_b, act_b) = transition(after_a, b);
    lemma_run_step(Phase::Start, all);
    lemma_run_step(after_a, all.drop_first());
    lemma_run_step(after_b, all.drop_first().drop_first());
    let r2 = run(after_b, all.drop_first().drop_first()).1;
    let r1 = run(after_a, all.drop_first()).1;
    let r0 = run(Phase::Start, all).1;
    assert(r0 =~= seq![act_a] + r1);
    assert(r1 =~= seq![act_b] + r2);
}

} // verus!
