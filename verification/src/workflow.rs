//! The orchestration state machine.
//!
//! The workflow is linear: `Start -> NameValidated -> DirectoriesCreated ->
//! TemplatesLoaded -> FilesWritten -> Done`, with every failure moving to
//! the terminal `Failed` phase. The caller drives it: [`next_action`] says
//! what to perform in the current phase, the caller performs it and reports
//! the outcome as an [`Event`], and [`apply_event`] yields the next phase.
//! There are no retries and no cleanup of already-created state.
use vstd::prelude::*;

use crate::error::ScaffoldError;

verus! {

/// Where the workflow stands.
#[derive(Clone, Copy, PartialEq, Eq, Structural)]
pub enum Phase {
    Start,
    NameValidated,
    DirectoriesCreated,
    TemplatesLoaded,
    FilesWritten,
    Done,
    Failed,
}

/// The outcome of one performed action.
#[derive(Clone, Copy, PartialEq, Eq, Structural)]
pub enum Event {
    NameAccepted,
    NameRejected,
    DirectoriesMade,
    DirectoryFailed,
    TemplatesResolved,
    TemplatesFailed,
    FilesSaved,
    WriteFailed,
    InstallSkipped,
    InstallSucceeded,
    InstallFailed,
}

/// What the caller performs next.
#[derive(Clone, Copy, PartialEq, Eq, Structural)]
pub enum Action {
    ValidateName,
    CreateDirectories,
    LoadTemplates,
    WriteFiles,
    RunInstaller,
}

/// The action due in each phase; `None` when nothing is left to perform.
/// With `skip_install` set, no phase ever asks for the installer.
pub open spec fn next_action_spec(phase: Phase, skip_install: bool) -> Option<Action> {
    match phase {
        Phase::Start => Some(Action::ValidateName),
        Phase::NameValidated => Some(Action::CreateDirectories),
        Phase::DirectoriesCreated => Some(Action::LoadTemplates),
        Phase::TemplatesLoaded => Some(Action::WriteFiles),
        Phase::FilesWritten => if skip_install {
            None
        } else {
            Some(Action::RunInstaller)
        },
        Phase::Done => None,
        Phase::Failed => None,
    }
}

/// The phase after an event: each phase advances on its success event and
/// fails otherwise; `Done` and `Failed` are terminal.
pub open spec fn apply_event_spec(phase: Phase, event: Event) -> Phase {
    match phase {
        Phase::Start => match event {
            Event::NameAccepted => Phase::NameValidated,
            _ => Phase::Failed,
        },
        Phase::NameValidated => match event {
            Event::DirectoriesMade => Phase::DirectoriesCreated,
            _ => Phase::Failed,
        },
        Phase::DirectoriesCreated => match event {
            Event::TemplatesResolved => Phase::TemplatesLoaded,
            _ => Phase::Failed,
        },
        Phase::TemplatesLoaded => match event {
            Event::FilesSaved => Phase::FilesWritten,
            _ => Phase::Failed,
        },
        Phase::FilesWritten => match event {
            Event::InstallSkipped => Phase::Done,
            Event::InstallSucceeded => Phase::Done,
            _ => Phase::Failed,
        },
        Phase::Done => Phase::Done,
        Phase::Failed => Phase::Failed,
    }
}

/// The process exit status for a terminal phase: zero exactly on `Done`.
pub open spec fn exit_code_spec(phase: Phase) -> i32 {
    if phase is Done {
        0
    } else {
        1
    }
}

pub fn next_action(phase: Phase, skip_install: bool) -> (r: Option<Action>)
    ensures
        r == next_action_spec(phase, skip_install),
{
    match phase {
        Phase::Start => Some(Action::ValidateName),
        Phase::NameValidated => Some(Action::CreateDirectories),
        Phase::DirectoriesCreated => Some(Action::LoadTemplates),
        Phase::TemplatesLoaded => Some(Action::WriteFiles),
        Phase::FilesWritten => if skip_install {
            None
        } else {
            Some(Action::RunInstaller)
        },
        Phase::Done => None,
        Phase::Failed => None,
    }
}

pub fn apply_event(phase: Phase, event: Event) -> (r: Phase)
    ensures
        r == apply_event_spec(phase, event),
{
    match phase {
        Phase::Start => match event {
            Event::NameAccepted => Phase::NameValidated,
            _ => Phase::Failed,
        },
        Phase::NameValidated => match event {
            Event::DirectoriesMade => Phase::DirectoriesCreated,
            _ => Phase::Failed,
        },
        Phase::DirectoriesCreated => match event {
            Event::TemplatesResolved => Phase::TemplatesLoaded,
            _ => Phase::Failed,
        },
        Phase::TemplatesLoaded => match event {
            Event::FilesSaved => Phase::FilesWritten,
            _ => Phase::Failed,
        },
        Phase::FilesWritten => match event {
            Event::InstallSkipped => Phase::Done,
            Event::InstallSucceeded => Phase::Done,
            _ => Phase::Failed,
        },
        Phase::Done => Phase::Done,
        Phase::Failed => Phase::Failed,
    }
}

pub fn exit_code(phase: Phase) -> (r: i32)
    ensures
        r == exit_code_spec(phase),
        r == 0 <==> phase is Done,
{
    match phase {
        Phase::Done => 0,
        _ => 1,
    }
}

/// Judge the package-manager invocation: `launched` says whether the
/// subprocess could be started at all, `code` is its exit status and
/// `stderr` its captured error output. Success exactly when it launched
/// and exited zero; otherwise the specific installation error.
pub fn interpret_install(launched: bool, code: i32, stderr: Vec<u8>) -> (r: Result<
    (),
    ScaffoldError,
>)
    ensures
        r is Ok <==> (launched && code == 0),
        (launched && code != 0) ==> (r matches Err(e) && e matches ScaffoldError::InstallError {
            code: c,
            stderr: s,
        } && c == Some(code) && s@ == stderr@),
        !launched ==> (r matches Err(e) && e matches ScaffoldError::InstallError {
            code: c,
            stderr: s,
        } && c is None && s@ == stderr@),
{
    if !launched {
        Err(ScaffoldError::InstallError { code: None, stderr })
    } else if code != 0 {
        Err(ScaffoldError::InstallError { code: Some(code), stderr })
    } else {
        Ok(())
    }
}

/// The phase reached from `Start` after a sequence of events.
pub open spec fn run_phases(events: Seq<Event>) -> Phase
    decreases events.len(),
{
    if events.len() == 0 {
        Phase::Start
    } else {
        apply_event_spec(run_phases(events.drop_last()), events.last())
    }
}

/// How far along the pipeline a phase is; the two terminal phases are
/// furthest. Events never move the workflow backwards.
pub open spec fn phase_rank(phase: Phase) -> int {
    match phase {
        Phase::Start => 0,
        Phase::NameValidated => 1,
        Phase::DirectoriesCreated => 2,
        Phase::TemplatesLoaded => 3,
        Phase::FilesWritten => 4,
        Phase::Done => 5,
        Phase::Failed => 5,
    }
}

proof fn lemma_rank_monotone(phase: Phase, event: Event)
    ensures
        phase_rank(apply_event_spec(phase, event)) >= phase_rank(phase),
        phase != Phase::Done && phase != Phase::Failed ==> phase_rank(
            apply_event_spec(phase, event),
        ) > phase_rank(phase),
{
}

proof fn lemma_run_rank_monotone(events: Seq<Event>, i: int, j: int)
    requires
        0 <= i <= j <= events.len(),
    ensures
        phase_rank(run_phases(events.take(i))) <= phase_rank(run_phases(events.take(j))),
    decreases j - i,
{
    if i < j {
        lemma_run_rank_monotone(events, i, j - 1);
        let prefix = events.take(j);
        assert(prefix.drop_last() =~= events.take(j - 1));
        lemma_rank_monotone(run_phases(events.take(j - 1)), prefix.last());
    }
}

/// If the template stage never succeeds — in particular when a remote fetch
/// fails — the workflow never reaches `TemplatesLoaded`, so the file-writing
/// action is never issued and nothing is put on disk.
pub proof fn lemma_fetch_failure_writes_nothing(events: Seq<Event>, skip_install: bool)
    requires
        forall|i: int| 0 <= i < events.len() ==> !((#[trigger] events[i]) is TemplatesResolved),
    ensures
        forall|i: int|
            0 <= i <= events.len() ==> next_action_spec(
                run_phases(#[trigger] events.take(i)),
                skip_install,
            ) != Some(Action::WriteFiles),
{
    assert forall|i: int| 0 <= i <= events.len() implies next_action_spec(
        run_phases(#[trigger] events.take(i)),
        skip_install,
    ) != Some(Action::WriteFiles) by {
        lemma_run_avoids_templates_loaded(events.take(i));
    }
}

proof fn lemma_run_avoids_templates_loaded(events: Seq<Event>)
    requires
        forall|i: int| 0 <= i < events.len() ==> !((#[trigger] events[i]) is TemplatesResolved),
    ensures
        run_phases(events) != Phase::TemplatesLoaded,
    decreases events.len(),
{
    if events.len() > 0 {
        let prefix = events.drop_last();
        assert(forall|i: int|
            0 <= i < prefix.len() ==> !((#[trigger] prefix[i]) is TemplatesResolved));
        lemma_run_avoids_templates_loaded(prefix);
        assert(!(events.last() is TemplatesResolved));
    }
}

/// With the install-skip option set, no phase ever asks for the installer,
/// and once the files are written a skipped installation ends the workflow
/// in `Done`, whose exit status is zero.
pub proof fn lemma_skip_install_clean_exit(phase: Phase)
    ensures
        next_action_spec(phase, true) != Some(Action::RunInstaller),
        apply_event_spec(Phase::FilesWritten, Event::InstallSkipped) == Phase::Done,
        exit_code_spec(Phase::Done) == 0,
{
}

/// A failed installation ends the workflow in `Failed` with a non-zero exit
/// status, and nothing further is performed — in particular the already
/// written files are not touched again (no action removes files, and the
/// file-writing action is never issued twice).
pub proof fn lemma_install_failure_keeps_files(skip_install: bool)
    ensures
        apply_event_spec(Phase::FilesWritten, Event::InstallFailed) == Phase::Failed,
        exit_code_spec(Phase::Failed) != 0,
        next_action_spec(Phase::Failed, skip_install) is None,
        forall|e: Event| apply_event_spec(Phase::Failed, e) == Phase::Failed,
{
}

/// The file-writing action is issued at most once in any run: once the
/// workflow has left `TemplatesLoaded` it never returns there.
pub proof fn lemma_files_written_at_most_once(
    events: Seq<Event>,
    skip_install: bool,
    i: int,
    j: int,
)
    requires
        0 <= i < j <= events.len(),
        next_action_spec(run_phases(events.take(i)), skip_install) == Some(Action::WriteFiles),
    ensures
        next_action_spec(run_phases(events.take(j)), skip_install) != Some(Action::WriteFiles),
{
    assert(run_phases(events.take(i)) == Phase::TemplatesLoaded);
    let step = events.take(i + 1);
    assert(step.drop_last() =~= events.take(i));
    lemma_rank_monotone(run_phases(events.take(i)), step.last());
    lemma_run_rank_monotone(events, i + 1, j);
    assert(phase_rank(run_phases(events.take(j))) > 3);
}

} // verus!
