use vstd::prelude::*;
use crate::error::FileError;
use crate::text::{contains_text, has_infix};

verus! {

/// How far a file-access check has gone.
#[derive(Clone, Copy, Debug, PartialEq, Eq, Structural)]
pub enum AccessPhase {
    /// Nothing has been tried yet.
    NotChecked,
    /// The first probe of a well-known directory is under way.
    Probing,
    /// The first probe failed and the user is being asked to grant access.
    Prompting,
    /// The one probe that follows the prompt is under way.
    Reprobing,
    /// The check has decided.
    Done,
}

/// What the caller reports back after carrying out the last action.
#[derive(Clone, Copy, Debug, PartialEq, Eq, Structural)]
pub enum AccessEvent {
    /// The check is to begin.
    Begin,
    /// The probe could read the directory.
    ProbeSucceeded,
    /// The probe could not read the directory.
    ProbeFailed,
    /// The prompt was shown and dismissed.
    PromptDismissed,
}

/// What the caller is to do next.
#[derive(Clone, Debug)]
pub enum AccessAction {
    /// Try to read a well-known directory and report the outcome.
    Probe,
    /// Show the user a prompt that explains the access that is needed.
    Prompt,
    /// Access is granted: go on with the operation.
    Proceed,
    /// Access is refused: fail the operation with this error.
    Refuse(FileError),
    /// The event does not fit the phase: nothing to do.
    Ignore,
}

/// One step of the check: the next phase and the action, as a table.
pub open spec fn access_step(phase: AccessPhase, event: AccessEvent) -> (AccessPhase, AccessAction) {
    match (phase, event) {
        (AccessPhase::NotChecked, AccessEvent::Begin) => (AccessPhase::Probing, AccessAction::Probe),
        (AccessPhase::Probing, AccessEvent::ProbeSucceeded) => (AccessPhase::Done, AccessAction::Proceed),
        (AccessPhase::Probing, AccessEvent::ProbeFailed) => (AccessPhase::Prompting, AccessAction::Prompt),
        (AccessPhase::Prompting, AccessEvent::PromptDismissed) => (AccessPhase::Reprobing, AccessAction::Probe),
        (AccessPhase::Reprobing, AccessEvent::ProbeSucceeded) => (AccessPhase::Done, AccessAction::Proceed),
        (AccessPhase::Reprobing, AccessEvent::ProbeFailed) => (
            AccessPhase::Done,
            AccessAction::Refuse(FileError::AccessDenied),
        ),
        _ => (phase, AccessAction::Ignore),
    }
}

/// The outcome of a whole check in which the first probe gave `first` and,
/// when that failed, the probe after the prompt gave `second`.
pub open spec fn access_run(first: AccessEvent, second: AccessEvent) -> (AccessPhase, AccessAction) {
    let s1 = access_step(AccessPhase::NotChecked, AccessEvent::Begin);
    let s2 = access_step(s1.0, first);
    if s2.0 == AccessPhase::Done {
        s2
    } else {
        let s3 = access_step(s2.0, AccessEvent::PromptDismissed);
        access_step(s3.0, second)
    }
}

pub open spec fn is_probe_outcome(e: AccessEvent) -> bool {
    e == AccessEvent::ProbeSucceeded || e == AccessEvent::ProbeFailed
}

/// Decides the next step of a best-effort check that the operating system
/// lets this program read the user's files: probe once; if that fails, prompt
/// the user and probe once more; grant on the first probe that succeeds,
/// refuse when both failed.
pub fn ensure_file_access(phase: AccessPhase, event: AccessEvent) -> (r: (AccessPhase, AccessAction))
    ensures
        r == access_step(phase, event),
{
    match (phase, event) {
        (AccessPhase::NotChecked, AccessEvent::Begin) => (AccessPhase::Probing, AccessAction::Probe),
        (AccessPhase::Probing, AccessEvent::ProbeSucceeded) => (AccessPhase::Done, AccessAction::Proceed),
        (AccessPhase::Probing, AccessEvent::ProbeFailed) => (AccessPhase::Prompting, AccessAction::Prompt),
        (AccessPhase::Prompting, AccessEvent::PromptDismissed) => (AccessPhase::Reprobing, AccessAction::Probe),
        (AccessPhase::Reprobing, AccessEvent::ProbeSucceeded) => (AccessPhase::Done, AccessAction::Proceed),
        (AccessPhase::Reprobing, AccessEvent::ProbeFailed) => (
            AccessPhase::Done,
            AccessAction::Refuse(FileError::AccessDenied),
        ),
        _ => (phase, AccessAction::Ignore),
    }
}

/// A whole check ends decided: it grants access exactly when one of its
/// probes succeeded, refuses it otherwise, and prompts only after a failed
/// first probe.
pub proof fn lemma_access_check_decides(first: AccessEvent, second: AccessEvent)
    requires
        is_probe_outcome(first),
        is_probe_outcome(second),
    ensures
        access_run(first, second).0 == AccessPhase::Done,
        access_run(first, second).1 is Proceed <==> (first == AccessEvent::ProbeSucceeded || second
            == AccessEvent::ProbeSucceeded),
        access_run(first, second).1 is Refuse <==> (first == AccessEvent::ProbeFailed && second
            == AccessEvent::ProbeFailed),
        first == AccessEvent::ProbeFailed <==> access_step(AccessPhase::Probing, first).1 is Prompt,
{
}

/// Whether `path`, read as a file-system path, starts with the components of `base`.
pub uninterp spec fn path_starts_with(path: Seq<char>, base: Seq<char>) -> bool;

/// Relies on `std::path::Path::starts_with`: whether the path's leading
/// components are those of `base`; this depends on the two texts alone.
#[verifier::external_body]
fn path_has_base(path: &str, base: &str) -> (r: bool)
    ensures
        r == path_starts_with(path@, base@),
{
    std::path::Path::new(path).starts_with(base)
}

/// Whether reading the file at `path` is preceded by an access check, given
/// whether the path lies under the system's application directory: files
/// inside an application bundle or a bundled-resource directory (whose name
/// holds `_MEIPASS`) are read without one.
pub fn read_needs_access_check_given(under_applications: bool, path: &str) -> (r: bool)
    ensures
        r == (!under_applications && !has_infix(path@, "_MEIPASS"@)),
{
    !under_applications && !contains_text(path, "_MEIPASS")
}

/// Whether reading the file at `path` is preceded by an access check.
pub fn read_needs_access_check(path: &str) -> (r: bool)
    ensures
        r == (!path_starts_with(path@, "/Applications"@) && !has_infix(path@, "_MEIPASS"@)),
{
    let under = path_has_base(path, "/Applications");
    read_needs_access_check_given(under, path)
}

} // verus!
