use no_logo::injector::{marker_contents, marker_file_name, payload_file_name, target_executable, Action, Event, Injector, Phase};

fn drive(events: &[Event]) -> (Phase, Vec<Action>) {
    let mut inj = Injector::new();
    let actions = events.iter().map(|e| inj.handle(*e)).collect();
    (inj.phase(), actions)
}

#[test]
fn missing_target_ends_the_run() {
    let (phase, actions) = drive(&[Event::Begin, Event::TargetMissing, Event::MarkerPresent]);
    assert_eq!(phase, Phase::NoTarget);
    assert_eq!(actions, vec![Action::FindTarget, Action::ReportNoTarget, Action::Idle]);
}

#[test]
fn missing_marker_offers_remediation_and_aborts() {
    let (phase, actions) =
        drive(&[Event::Begin, Event::TargetFound, Event::MarkerAbsent, Event::MarkerWritten, Event::Injected]);
    assert_eq!(phase, Phase::Aborted);
    assert_eq!(
        actions,
        vec![Action::FindTarget, Action::CheckMarker, Action::OfferRemediation, Action::ReportRemediated, Action::Idle]
    );
    assert!(!actions.contains(&Action::Inject));
}

#[test]
fn declined_remediation_aborts() {
    let (phase, actions) = drive(&[Event::Begin, Event::TargetFound, Event::MarkerAbsent, Event::RemediationDeclined]);
    assert_eq!(phase, Phase::Aborted);
    assert_eq!(actions[3], Action::ReportNotRemediated);
}

#[test]
fn failed_remediation_is_reported() {
    let (phase, actions) = drive(&[Event::Begin, Event::TargetFound, Event::MarkerAbsent, Event::RemediationFailed]);
    assert_eq!(phase, Phase::Failed);
    assert_eq!(actions[3], Action::ReportError);
}

#[test]
fn marker_present_injects_once() {
    let (phase, actions) = drive(&[
        Event::Begin,
        Event::TargetFound,
        Event::MarkerPresent,
        Event::MarkerPresent,
        Event::Injected,
        Event::Begin,
    ]);
    assert_eq!(phase, Phase::Done);
    assert_eq!(actions.iter().filter(|a| **a == Action::Inject).count(), 1);
    assert_eq!(actions[2], Action::Inject);
}

#[test]
fn injection_failure_is_reported_without_retry() {
    let (phase, actions) =
        drive(&[Event::Begin, Event::TargetFound, Event::MarkerPresent, Event::InjectionFailed, Event::MarkerPresent]);
    assert_eq!(phase, Phase::Failed);
    assert_eq!(actions[3], Action::ReportInjectionFailure);
    assert_eq!(actions.iter().filter(|a| **a == Action::Inject).count(), 1);
}

#[test]
fn probe_failure_is_reported() {
    let (phase, actions) = drive(&[Event::Begin, Event::TargetFound, Event::ProbeFailed]);
    assert_eq!(phase, Phase::Failed);
    assert_eq!(actions[2], Action::ReportError);
}

#[test]
fn out_of_place_event_changes_nothing() {
    let mut inj = Injector::new();
    assert_eq!(inj.handle(Event::TargetFound), Action::Idle);
    assert_eq!(inj.phase(), Phase::Start);
}

#[test]
fn names_of_the_files_involved() {
    assert_eq!(target_executable(), "eldenring.exe");
    assert_eq!(marker_file_name(), "steam_appid.txt");
    assert_eq!(marker_contents(), "1245620");
    assert_eq!(payload_file_name(true), "jdsd_er_practice_tool.dll");
    assert_eq!(payload_file_name(false), "libjdsd_er_practice_tool.dll");
}
