use radial_menus::access::{ensure_file_access, read_needs_access_check, read_needs_access_check_given, AccessAction, AccessEvent, AccessPhase};

fn run(first: AccessEvent, second: AccessEvent) -> AccessAction {
    let (phase, action) = ensure_file_access(AccessPhase::NotChecked, AccessEvent::Begin);
    assert!(matches!(action, AccessAction::Probe));
    let (phase, action) = ensure_file_access(phase, first);
    if phase == AccessPhase::Done {
        return action;
    }
    assert!(matches!(action, AccessAction::Prompt));
    let (phase, action) = ensure_file_access(phase, AccessEvent::PromptDismissed);
    assert!(matches!(action, AccessAction::Probe));
    let (phase, action) = ensure_file_access(phase, second);
    assert_eq!(phase, AccessPhase::Done);
    action
}

#[test]
fn access_granted_on_first_probe() {
    assert!(matches!(run(AccessEvent::ProbeSucceeded, AccessEvent::ProbeFailed), AccessAction::Proceed));
}

#[test]
fn access_granted_after_prompt() {
    assert!(matches!(run(AccessEvent::ProbeFailed, AccessEvent::ProbeSucceeded), AccessAction::Proceed));
}

#[test]
fn access_refused_after_two_failures() {
    match run(AccessEvent::ProbeFailed, AccessEvent::ProbeFailed) {
        AccessAction::Refuse(e) => assert!(e.message().starts_with("File system access required.")),
        _ => panic!("expected a refusal"),
    }
}

#[test]
fn out_of_order_event_is_ignored() {
    let (phase, action) = ensure_file_access(AccessPhase::Done, AccessEvent::ProbeFailed);
    assert_eq!(phase, AccessPhase::Done);
    assert!(matches!(action, AccessAction::Ignore));
}

#[test]
fn bundled_files_skip_the_access_check() {
    assert!(!read_needs_access_check("/Applications/Editor.app/commands.json"));
    assert!(!read_needs_access_check("/tmp/_MEIPASS42/commands.json"));
    assert!(read_needs_access_check("/Users/me/menus/a.json"));
    assert!(read_needs_access_check("/ApplicationsExtra/a.json"));
    assert!(!read_needs_access_check_given(true, "/x"));
    assert!(read_needs_access_check_given(false, "/x"));
}
