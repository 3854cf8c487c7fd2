//! Which failures reach the caller.
//!
//! Most of what the shell does is best effort: a failure is dropped and the
//! work goes on. Only a command that the page invoked reports a failure back,
//! as the message of the failed step, and only for the steps whose failure the
//! page can act on. This module is the one place where that is decided.

use vstd::prelude::*;

verus! {

/// A step of the shell's work that can fail.
#[derive(Clone, Copy, Debug, PartialEq, Eq, Structural)]
pub enum Step {
    /// Writing the bytes of a save to their file.
    WriteFile,
    /// Finding the application's local data directory.
    ResolveDataDir,
    /// Removing one cache directory.
    RemoveCacheDir,
    /// Ending the helper process.
    KillSidecar,
    /// Asking the update service for a newer version.
    CheckForUpdates,
    /// Evaluating a script in the page.
    EvalScript,
}

/// Who asked for the step.
#[derive(Clone, Copy, Debug, PartialEq, Eq, Structural)]
pub enum Origin {
    /// The page, through a command; it gets an answer.
    Command,
    /// The shell itself, at startup or at exit; nobody waits for an answer.
    Hook,
}

/// Whether a failure of the step is reported: only to a command, and only
/// where a file could not be written or the data directory not be found.
pub open spec fn surfaced(step: Step, origin: Origin) -> bool {
    origin is Command && (step is WriteFile || step is ResolveDataDir)
}

/// What is answered for a step that ended with `outcome`: the outcome itself
/// where failures of the step are reported, and success otherwise.
pub open spec fn settled(step: Step, origin: Origin, outcome: Result<(), String>) -> Result<
    (),
    String,
> {
    if surfaced(step, origin) {
        outcome
    } else {
        Ok(())
    }
}

/// Whether a failure of the step is reported to who asked for it.
pub fn surfaces(step: Step, origin: Origin) -> (yes: bool)
    ensures
        yes == surfaced(step, origin),
{
    match origin {
        Origin::Command => match step {
            Step::WriteFile => true,
            Step::ResolveDataDir => true,
            Step::RemoveCacheDir => false,
            Step::KillSidecar => false,
            Step::CheckForUpdates => false,
            Step::EvalScript => false,
        },
        Origin::Hook => false,
    }
}

/// Settles the outcome of a step. A failure that is reported keeps its
/// message as it is; one that is not reported is dropped, and the step counts
/// as done.
pub fn settle(step: Step, origin: Origin, outcome: Result<(), String>) -> (answer: Result<
    (),
    String,
>)
    ensures
        answer == settled(step, origin, outcome),
{
    if surfaces(step, origin) {
        outcome
    } else {
        Ok(())
    }
}

/// A save that could not be written answers with the message of the write,
/// and one that was written answers with success.
pub proof fn law_save_reports_the_write(outcome: Result<(), String>)
    ensures
        settled(Step::WriteFile, Origin::Command, outcome) == outcome,
{
}

/// Ending the helper never fails for its caller: whether the helper was not
/// running or could not be ended, the answer is success.
pub proof fn law_kill_never_fails(origin: Origin, outcome: Result<(), String>)
    ensures
        settled(Step::KillSidecar, origin, outcome) == Ok::<(), String>(()),
{
}

/// A cache clear fails for its caller only where the data directory was not
/// found; a directory that could not be removed does not fail it.
pub proof fn law_clear_reports_only_the_data_dir(origin: Origin, outcome: Result<(), String>)
    ensures
        settled(Step::RemoveCacheDir, origin, outcome) == Ok::<(), String>(()),
        settled(Step::ResolveDataDir, Origin::Command, outcome) == outcome,
        settled(Step::ResolveDataDir, Origin::Hook, outcome) == Ok::<(), String>(()),
{
}

/// Nothing that the shell does of its own accord reports a failure.
pub proof fn law_hooks_never_fail(step: Step, outcome: Result<(), String>)
    ensures
        settled(step, Origin::Hook, outcome) == Ok::<(), String>(()),
{
}

} // verus!
