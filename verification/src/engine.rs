//! The update and install state machine.
//!
//! The engine decides and a driver acts. In each state the engine names one
//! action (`next_action`); the driver performs it and reports what happened
//! as an event; `step` gives the state that follows. The engine never touches
//! the file system or the process table itself.
//!
//! A run moves forward only: self-update check, self-update, process check,
//! removal of the previous installation, staging, extraction, search for the
//! executable, shortcut, done. Every state may end the run by failing.

use crate::install_utils::{add_spaces, spaced};
use vstd::prelude::*;

verus! {

/// The file system operation that failed.
#[derive(Debug, Clone, Copy, PartialEq, Eq, Structural)]
pub enum FsOperation {
    Copy,
    Delete,
    Rename,
    CreateDirectory,
}

/// A failure of the file system, with the error code of the operating system.
#[derive(Debug, Clone, Copy, PartialEq, Eq, Structural)]
pub struct FilesystemError {
    pub operation: FsOperation,
    /// The code that the operating system gave, 0 where it gave none.
    pub os_code: i32,
}

/// Why a run failed.
#[derive(Debug, Clone, Copy, PartialEq, Eq, Structural)]
pub enum WorkflowError {
    /// The application is running and must be closed first.
    AlreadyRunning,
    /// The source directory cannot be read or holds no archive.
    NoArchiveAvailable,
    /// The install directory holds no executable after extraction.
    ExecutableNotFound,
    /// The local application data directory is not available.
    LocalAppDataUnavailable,
    /// The file system failed while the archive was staged.
    Filesystem(FilesystemError),
    /// The user called the run off.
    Cancelled,
}

/// What the driver does with the installed executable at the end of a run.
#[derive(Debug, Clone, Copy, PartialEq, Eq, Structural)]
pub enum LaunchMode {
    /// Hand the path back; the user starts the application.
    OnUserAction,
    /// Start the application at once.
    Immediately,
}

/// One logical application: its name, the directory in which its archives are
/// published, and the directory into which it is unpacked.
#[derive(Debug, Clone, PartialEq, Eq)]
pub struct DeploymentTarget {
    pub name: String,
    pub source_directory: String,
    pub install_directory: String,
}

impl DeploymentTarget {
    /// The name under which the application shows in the process table: its
    /// name and `.exe`.
    pub fn process_name(&self) -> (name: String)
        ensures
            name@ == self.name@ + ".exe"@,
    {
        self.name.clone().concat(".exe")
    }

    /// The file name of the application's shortcut: its display name and
    /// `.lnk`.
    pub fn shortcut_file_name(&self) -> (name: String)
        ensures
            name@ == spaced(self.name@) + ".lnk"@,
    {
        add_spaces(self.name.as_str()).concat(".lnk")
    }
}

/// How the attempt to stage the newest archive ended.
#[derive(Debug, Clone, PartialEq, Eq)]
pub enum StageOutcome {
    /// The archive was copied to this path.
    Staged(String),
    /// The source directory could not be listed.
    SourceUnreadable,
    /// The source directory holds no archive.
    NoArchive,
    /// Copying the archive failed.
    CopyFailed(FilesystemError),
}

/// The state of one run: the phase it is in, with the path of the staged
/// archive and of the installed executable in the phases that have them.
#[derive(Debug, Clone, PartialEq, Eq)]
pub enum DeploymentState {
    /// The installer is about to look for a newer version of itself.
    SelfUpdateCheck,
    /// The installer is replacing itself. The running executable is renamed
    /// aside before the newer one is unpacked in its place.
    SelfUpdating { renamed_aside: bool, },
    /// No installer was ever installed locally: it is being fetched.
    FetchSelfUpdate,
    /// The installer is up to date; the installation can begin.
    Ready,
    /// The process table is being searched for the application.
    CheckRunningProcess,
    /// The previous installation is being removed.
    UninstallPrevious,
    /// The newest archive is being copied to the staging location.
    StageArchive,
    /// The staged archive is being unpacked.
    Extract { archive: String, },
    /// The install directory is being searched for the executable.
    LocateExecutable { archive: String, },
    /// The shortcut is being made and the staged archive deleted.
    FinalizeInstall { archive: String, executable: String, },
    /// The application is installed.
    Complete { executable: String, },
    /// The installer replaced itself and must be started again. Nothing was
    /// installed in this run.
    RestartRequired,
    /// The run failed.
    Failed(WorkflowError),
}

/// What the driver reports back to the engine.
#[derive(Debug, Clone, PartialEq, Eq)]
pub enum Event {
    /// The installer was inspected: whether it was ever installed locally,
    /// when the running executable was modified, and when the newest archive
    /// of the installer itself was.
    InstallerInspected { installed: bool, local_modified: Option<u64>, remote_modified: Option<u64>, },
    /// The running installer was renamed aside, or could not be.
    InstallerRenamed { renamed: bool, },
    /// The newest archive of the installer was staged and unpacked, or not.
    InstallerFetched(StageOutcome),
    /// The installation was announced.
    Started,
    /// The process table was searched for the application.
    ProcessChecked { running: bool, },
    /// What there was of a previous installation is removed.
    PreviousRemoved,
    /// The newest archive of the application was staged, or not.
    ArchiveStaged(StageOutcome),
    /// Every entry of the staged archive was tried.
    ArchiveExtracted,
    /// The install directory was searched for the executable.
    ExecutableLocated(Option<String>),
    /// The shortcut was made and the staged archive deleted, as far as that
    /// went.
    InstallFinalized,
    /// The local application data directory, below which everything is
    /// staged and installed, turned out not to be available. Reported in
    /// place of the answer to any action.
    LocalAppDataUnavailable,
    /// The user asked for the run to stop. The driver looks for this between
    /// two actions and reports it in place of the next answer.
    CancelRequested,
}

/// What the engine asks the driver to do.
#[derive(Debug, Clone, PartialEq, Eq)]
pub enum Action {
    /// Delete installers that earlier self-updates renamed aside, then look
    /// up the local installer and the newest archive of the installer.
    /// Answered by `InstallerInspected`.
    InspectInstaller,
    /// Rename the running executable aside; do not delete it. Answered by
    /// `InstallerRenamed`.
    RenameInstallerAside,
    /// Stage the newest archive of the installer and unpack it into the
    /// installer's own directory. Answered by `InstallerFetched`.
    FetchInstaller,
    /// Announce the installation. Answered by `Started`.
    Start,
    /// Search the process table for the application's executable name.
    /// Answered by `ProcessChecked`.
    CheckProcess,
    /// Remove the previous installation. Answered by `PreviousRemoved`.
    RemovePrevious,
    /// Copy the newest archive of the application to the staging location.
    /// Answered by `ArchiveStaged`.
    StageArchive,
    /// Unpack the archive into the install directory, entry by entry.
    /// Answered by `ArchiveExtracted`.
    ExtractArchive { archive: String, },
    /// Search the install directory for the executable. Answered by
    /// `ExecutableLocated`.
    LocateExecutable,
    /// Make the shortcut to the executable and delete the staged archive.
    /// Answered by `InstallFinalized`.
    FinalizeInstall { archive: String, executable: String, },
    /// Start the installed application. The run is over.
    Launch { executable: String, },
    /// Offer the installed application to the user. The run is over.
    OfferLaunch { executable: String, },
    /// Do nothing more. The run is over.
    Halt,
}

/// The error with which a run fails when staging ends in `outcome`, for
/// every outcome but a staged archive.
pub open spec fn stage_error(outcome: StageOutcome) -> WorkflowError {
    match outcome {
        StageOutcome::CopyFailed(e) => WorkflowError::Filesystem(e),
        _ => WorkflowError::NoArchiveAvailable,
    }
}

/// The installer is to replace itself: the newest archive of the installer
/// is strictly newer than the running executable. Where either time is not
/// known there is nothing to compare.
pub open spec fn update_is_due(local_modified: Option<u64>, remote_modified: Option<u64>) -> bool {
    local_modified is Some && remote_modified is Some && remote_modified->0 > local_modified->0
}

/// The run is over in this state.
pub open spec fn is_terminal_spec(state: DeploymentState) -> bool {
    state is Complete || state is RestartRequired || state is Failed
}

/// The error with which `event` ends a run that is not over, if it is one of
/// the two events that do so in every state.
pub open spec fn abort_error(event: Event) -> Option<WorkflowError> {
    match event {
        Event::LocalAppDataUnavailable => Some(WorkflowError::LocalAppDataUnavailable),
        Event::CancelRequested => Some(WorkflowError::Cancelled),
        _ => None,
    }
}

/// The state after `event` in `state`. A run that is over stays as it is. An
/// event that calls the run off fails it. Of the other events, only the one
/// that answers the action of the state moves the run on; any other changes
/// nothing.
pub open spec fn step_spec(state: DeploymentState, event: Event) -> DeploymentState {
    if is_terminal_spec(state) {
        state
    } else if abort_error(event) is Some {
        DeploymentState::Failed(abort_error(event)->0)
    } else {
        advance_spec(state, event)
    }
}

/// The state after an event that answers an action.
pub open spec fn advance_spec(state: DeploymentState, event: Event) -> DeploymentState {
    match (state, event) {
        (
            DeploymentState::SelfUpdateCheck,
            Event::InstallerInspected { installed, local_modified, remote_modified },
        ) => if !installed {
            DeploymentState::FetchSelfUpdate
        } else if update_is_due(local_modified, remote_modified) {
            DeploymentState::SelfUpdating { renamed_aside: false }
        } else {
            DeploymentState::Ready
        },
        (
            DeploymentState::SelfUpdating { renamed_aside: false },
            Event::InstallerRenamed { renamed },
        ) => if renamed {
            DeploymentState::SelfUpdating { renamed_aside: true }
        } else {
            DeploymentState::Ready
        },
        (
            DeploymentState::SelfUpdating { renamed_aside: true },
            Event::InstallerFetched(outcome),
        ) => match outcome {
            StageOutcome::Staged(_) => DeploymentState::RestartRequired,
            _ => DeploymentState::Failed(stage_error(outcome)),
        },
        (DeploymentState::FetchSelfUpdate, Event::InstallerFetched(_)) => DeploymentState::Ready,
        (DeploymentState::Ready, Event::Started) => DeploymentState::CheckRunningProcess,
        (DeploymentState::CheckRunningProcess, Event::ProcessChecked { running }) => if running {
            DeploymentState::Failed(WorkflowError::AlreadyRunning)
        } else {
            DeploymentState::UninstallPrevious
        },
        (DeploymentState::UninstallPrevious, Event::PreviousRemoved) => DeploymentState::StageArchive,
        (DeploymentState::StageArchive, Event::ArchiveStaged(outcome)) => match outcome {
            StageOutcome::Staged(archive) => DeploymentState::Extract { archive },
            _ => DeploymentState::Failed(stage_error(outcome)),
        },
        (DeploymentState::Extract { archive }, Event::ArchiveExtracted) => {
            DeploymentState::LocateExecutable { archive }
        },
        (DeploymentState::LocateExecutable { archive }, Event::ExecutableLocated(found)) => {
            match found {
                Some(executable) => DeploymentState::FinalizeInstall { archive, executable },
                None => DeploymentState::Failed(WorkflowError::ExecutableNotFound),
            }
        },
        (DeploymentState::FinalizeInstall { archive, executable }, Event::InstallFinalized) => {
            DeploymentState::Complete { executable }
        },
        _ => state,
    }
}

/// The action that the engine asks for in `state`.
pub open spec fn action_spec(state: DeploymentState, mode: LaunchMode) -> Action {
    match state {
        DeploymentState::SelfUpdateCheck => Action::InspectInstaller,
        DeploymentState::SelfUpdating { renamed_aside } => if renamed_aside {
            Action::FetchInstaller
        } else {
            Action::RenameInstallerAside
        },
        DeploymentState::FetchSelfUpdate => Action::FetchInstaller,
        DeploymentState::Ready => Action::Start,
        DeploymentState::CheckRunningProcess => Action::CheckProcess,
        DeploymentState::UninstallPrevious => Action::RemovePrevious,
        DeploymentState::StageArchive => Action::StageArchive,
        DeploymentState::Extract { archive } => Action::ExtractArchive { archive },
        DeploymentState::LocateExecutable { archive } => Action::LocateExecutable,
        DeploymentState::FinalizeInstall { archive, executable } => Action::FinalizeInstall {
            archive,
            executable,
        },
        DeploymentState::Complete { executable } => match mode {
            LaunchMode::Immediately => Action::Launch { executable },
            LaunchMode::OnUserAction => Action::OfferLaunch { executable },
        },
        DeploymentState::RestartRequired => Action::Halt,
        DeploymentState::Failed(_) => Action::Halt,
    }
}

/// The place of a state in the forward order of a run.
pub open spec fn rank(state: DeploymentState) -> nat {
    match state {
        DeploymentState::SelfUpdateCheck => 0,
        DeploymentState::SelfUpdating { renamed_aside } => if renamed_aside {
            2
        } else {
            1
        },
        DeploymentState::FetchSelfUpdate => 3,
        DeploymentState::Ready => 4,
        DeploymentState::CheckRunningProcess => 5,
        DeploymentState::UninstallPrevious => 6,
        DeploymentState::StageArchive => 7,
        DeploymentState::Extract { .. } => 8,
        DeploymentState::LocateExecutable { .. } => 9,
        DeploymentState::FinalizeInstall { .. } => 10,
        DeploymentState::Complete { .. } => 11,
        DeploymentState::RestartRequired => 11,
        DeploymentState::Failed(_) => 11,
    }
}

/// The action changes what lies in the application's install directory or
/// among its shortcuts.
pub open spec fn touches_installation(action: Action) -> bool {
    action is RemovePrevious || action is ExtractArchive || action is FinalizeInstall
}

/// The staged archive of a state, where it has one.
pub open spec fn staged_archive_spec(state: DeploymentState) -> Option<String> {
    match state {
        DeploymentState::Extract { archive } => Some(archive),
        DeploymentState::LocateExecutable { archive } => Some(archive),
        DeploymentState::FinalizeInstall { archive, executable } => Some(archive),
        _ => None,
    }
}

/// The installed executable of a state, where it is known.
pub open spec fn executable_spec(state: DeploymentState) -> Option<String> {
    match state {
        DeploymentState::FinalizeInstall { archive, executable } => Some(executable),
        DeploymentState::Complete { executable } => Some(executable),
        _ => None,
    }
}

/// Decides whether the installer replaces itself: only if the newest archive
/// of the installer is strictly newer than the running executable.
pub fn is_update_due(local_modified: Option<u64>, remote_modified: Option<u64>) -> (due: bool)
    ensures
        due == update_is_due(local_modified, remote_modified),
{
    match (local_modified, remote_modified) {
        (Some(local), Some(remote)) => remote > local,
        _ => false,
    }
}

fn staging_failure(outcome: &StageOutcome) -> (error: WorkflowError)
    ensures
        error == stage_error(*outcome),
{
    match outcome {
        StageOutcome::CopyFailed(e) => WorkflowError::Filesystem(*e),
        _ => WorkflowError::NoArchiveAvailable,
    }
}

impl DeploymentState {
    /// The state in which every run begins.
    pub fn new() -> (state: DeploymentState)
        ensures
            state == DeploymentState::SelfUpdateCheck,
    {
        DeploymentState::SelfUpdateCheck
    }

    /// Whether the run is over.
    pub fn is_terminal(&self) -> (terminal: bool)
        ensures
            terminal == is_terminal_spec(*self),
    {
        match self {
            DeploymentState::Complete { .. } => true,
            DeploymentState::RestartRequired => true,
            DeploymentState::Failed(_) => true,
            _ => false,
        }
    }

    /// The path of the staged archive, in the states that have one.
    pub fn staged_archive(&self) -> (archive: Option<&String>)
        ensures
            match archive {
                Some(path) => staged_archive_spec(*self) == Some(*path),
                None => staged_archive_spec(*self) is None,
            },
    {
        match self {
            DeploymentState::Extract { archive } => Some(archive),
            DeploymentState::LocateExecutable { archive } => Some(archive),
            DeploymentState::FinalizeInstall { archive, .. } => Some(archive),
            _ => None,
        }
    }

    /// The path of the installed executable, in the states that know it.
    pub fn executable(&self) -> (executable: Option<&String>)
        ensures
            match executable {
                Some(path) => executable_spec(*self) == Some(*path),
                None => executable_spec(*self) is None,
            },
    {
        match self {
            DeploymentState::FinalizeInstall { executable, .. } => Some(executable),
            DeploymentState::Complete { executable } => Some(executable),
            _ => None,
        }
    }

    /// The action that the driver is to perform in this state.
    pub fn next_action(&self, mode: LaunchMode) -> (action: Action)
        ensures
            action == action_spec(*self, mode),
    {
        match self {
            DeploymentState::SelfUpdateCheck => Action::InspectInstaller,
            DeploymentState::SelfUpdating { renamed_aside } => {
                if *renamed_aside {
                    Action::FetchInstaller
                } else {
                    Action::RenameInstallerAside
                }
            },
            DeploymentState::FetchSelfUpdate => Action::FetchInstaller,
            DeploymentState::Ready => Action::Start,
            DeploymentState::CheckRunningProcess => Action::CheckProcess,
            DeploymentState::UninstallPrevious => Action::RemovePrevious,
            DeploymentState::StageArchive => Action::StageArchive,
            DeploymentState::Extract { archive } => Action::ExtractArchive {
                archive: archive.clone(),
            },
            DeploymentState::LocateExecutable { .. } => Action::LocateExecutable,
            DeploymentState::FinalizeInstall { archive, executable } => Action::FinalizeInstall {
                archive: archive.clone(),
                executable: executable.clone(),
            },
            DeploymentState::Complete { executable } => match mode {
                LaunchMode::Immediately => Action::Launch { executable: executable.clone() },
                LaunchMode::OnUserAction => Action::OfferLaunch { executable: executable.clone() },
            },
            DeploymentState::RestartRequired => Action::Halt,
            DeploymentState::Failed(_) => Action::Halt,
        }
    }

    /// The state that follows when the driver reports `event`.
    ///
    /// A run that is over stays as it is. In any other state the report that
    /// the local application data directory is missing, or that the user
    /// wants to stop, fails the run. Otherwise only the event that answers
    /// the action of the state moves the run on, and any other event leaves
    /// the state as it is.
    pub fn step(self, event: Event) -> (next: DeploymentState)
        ensures
            next == step_spec(self, event),
    {
        if self.is_terminal() {
            return self;
        }
        match event {
            Event::LocalAppDataUnavailable => {
                return DeploymentState::Failed(WorkflowError::LocalAppDataUnavailable);
            },
            Event::CancelRequested => {
                return DeploymentState::Failed(WorkflowError::Cancelled);
            },
            _ => {},
        }
        match (self, event) {
            (
                DeploymentState::SelfUpdateCheck,
                Event::InstallerInspected { installed, local_modified, remote_modified },
            ) => {
                if !installed {
                    DeploymentState::FetchSelfUpdate
                } else if is_update_due(local_modified, remote_modified) {
                    DeploymentState::SelfUpdating { renamed_aside: false }
                } else {
                    DeploymentState::Ready
                }
            },
            (
                DeploymentState::SelfUpdating { renamed_aside: false },
                Event::InstallerRenamed { renamed },
            ) => {
                if renamed {
                    DeploymentState::SelfUpdating { renamed_aside: true }
                } else {
                    DeploymentState::Ready
                }
            },
            (
                DeploymentState::SelfUpdating { renamed_aside: true },
                Event::InstallerFetched(outcome),
            ) => match outcome {
                StageOutcome::Staged(_) => DeploymentState::RestartRequired,
                other => DeploymentState::Failed(staging_failure(&other)),
            },
            (DeploymentState::FetchSelfUpdate, Event::InstallerFetched(_)) => DeploymentState::Ready,
            (DeploymentState::Ready, Event::Started) => DeploymentState::CheckRunningProcess,
            (DeploymentState::CheckRunningProcess, Event::ProcessChecked { running }) => {
                if running {
                    DeploymentState::Failed(WorkflowError::AlreadyRunning)
                } else {
                    DeploymentState::UninstallPrevious
                }
            },
            (DeploymentState::UninstallPrevious, Event::PreviousRemoved) => {
                DeploymentState::StageArchive
            },
            (DeploymentState::StageArchive, Event::ArchiveStaged(outcome)) => match outcome {
                StageOutcome::Staged(archive) => DeploymentState::Extract { archive },
                other => DeploymentState::Failed(staging_failure(&other)),
            },
            (DeploymentState::Extract { archive }, Event::ArchiveExtracted) => {
                DeploymentState::LocateExecutable { archive }
            },
            (DeploymentState::LocateExecutable { archive }, Event::ExecutableLocated(found)) => {
                match found {
                    Some(executable) => DeploymentState::FinalizeInstall { archive, executable },
                    None => DeploymentState::Failed(WorkflowError::ExecutableNotFound),
                }
            },
            (DeploymentState::FinalizeInstall { executable, .. }, Event::InstallFinalized) => {
                DeploymentState::Complete { executable }
            },
            (state, _) => state,
        }
    }
}

/// The state after a whole sequence of events, taken one after the other.
pub open spec fn run_spec(state: DeploymentState, events: Seq<Event>) -> DeploymentState
    decreases events.len(),
{
    if events.len() == 0 {
        state
    } else {
        step_spec(run_spec(state, events.drop_last()), events.last())
    }
}

/// A run never moves backward: no event takes a state to an earlier one, and
/// an event that changes the state takes it strictly forward.
pub proof fn lemma_step_moves_forward(state: DeploymentState, event: Event)
    ensures
        rank(state) <= rank(step_spec(state, event)),
        step_spec(state, event) != state ==> rank(state) < rank(step_spec(state, event)),
{
}

/// Whatever the driver reports, and however often, the run never moves
/// backward.
pub proof fn lemma_run_moves_forward(state: DeploymentState, events: Seq<Event>)
    ensures
        rank(state) <= rank(run_spec(state, events)),
    decreases events.len(),
{
    if events.len() > 0 {
        lemma_run_moves_forward(state, events.drop_last());
        lemma_step_moves_forward(run_spec(state, events.drop_last()), events.last());
    }
}

/// A run that is over stays as it ended: no event changes a complete or
/// failed run, or one that waits for the installer to be restarted.
pub proof fn lemma_finished_run_stays_finished(state: DeploymentState, events: Seq<Event>)
    requires
        is_terminal_spec(state),
    ensures
        run_spec(state, events) == state,
    decreases events.len(),
{
    if events.len() > 0 {
        lemma_finished_run_stays_finished(state, events.drop_last());
    }
}

/// When the application is found running, the run fails with
/// `AlreadyRunning`, the engine asks for nothing more, and it stays so
/// whatever is reported afterwards.
pub proof fn lemma_running_application_stops_run(mode: LaunchMode, later: Seq<Event>)
    ensures
        step_spec(DeploymentState::CheckRunningProcess, Event::ProcessChecked { running: true })
            == DeploymentState::Failed(WorkflowError::AlreadyRunning),
        run_spec(DeploymentState::Failed(WorkflowError::AlreadyRunning), later)
            == DeploymentState::Failed(WorkflowError::AlreadyRunning),
        action_spec(DeploymentState::Failed(WorkflowError::AlreadyRunning), mode) == Action::Halt,
{
    lemma_finished_run_stays_finished(DeploymentState::Failed(WorkflowError::AlreadyRunning), later);
}

/// Up to the process check the engine asks for nothing that touches the
/// installation, and after a failure it asks for nothing at all: the install
/// directory of an application that is running is left as it is.
pub proof fn lemma_installation_untouched_until_checked(state: DeploymentState, mode: LaunchMode)
    requires
        rank(state) <= rank(DeploymentState::CheckRunningProcess) || state is Failed,
    ensures
        !touches_installation(action_spec(state, mode)),
        state is Failed ==> action_spec(state, mode) == Action::Halt,
{
}

/// The installer replaces itself exactly when it was installed before and
/// the newest archive of the installer is strictly newer than the running
/// executable. With equal times the run goes on to the installation.
pub proof fn lemma_self_update_only_when_newer(local: u64, remote: u64)
    ensures
        step_spec(
            DeploymentState::SelfUpdateCheck,
            Event::InstallerInspected {
                installed: true,
                local_modified: Some(local),
                remote_modified: Some(remote),
            },
        ) == if remote > local {
            DeploymentState::SelfUpdating { renamed_aside: false }
        } else {
            DeploymentState::Ready
        },
{
}

/// The running installer is renamed only in a self-update: the engine asks
/// for the rename in no other state.
pub proof fn lemma_rename_only_in_self_update(state: DeploymentState, mode: LaunchMode)
    ensures
        action_spec(state, mode) is RenameInstallerAside <==> state
            == (DeploymentState::SelfUpdating { renamed_aside: false }),
{
}

/// In a self-update the new installer is unpacked only after the running one
/// was renamed aside: the state that asks for the unpacking is entered by a
/// successful rename and in no other way.
pub proof fn lemma_rename_precedes_unpacking(state: DeploymentState, event: Event)
    requires
        step_spec(state, event) == (DeploymentState::SelfUpdating { renamed_aside: true }),
        state != (DeploymentState::SelfUpdating { renamed_aside: true }),
    ensures
        state == (DeploymentState::SelfUpdating { renamed_aside: false }),
        event == (Event::InstallerRenamed { renamed: true }),
{
}

/// Each failure has its one cause. A run fails with `AlreadyRunning` only at
/// the process check, with `ExecutableNotFound` only when the install
/// directory holds no executable, with `NoArchiveAvailable` or a file system
/// error only when an archive could not be staged, and with the two other
/// errors only on the event that reports them.
pub proof fn lemma_failure_has_its_cause(state: DeploymentState, event: Event)
    requires
        !(state is Failed),
        step_spec(state, event) is Failed,
    ensures
        match step_spec(state, event)->Failed_0 {
            WorkflowError::AlreadyRunning => state is CheckRunningProcess && event
                == (Event::ProcessChecked { running: true }),
            WorkflowError::ExecutableNotFound => state is LocateExecutable && event
                == Event::ExecutableLocated(None),
            WorkflowError::NoArchiveAvailable => {
                &&& state is StageArchive && event is ArchiveStaged || state
                    == (DeploymentState::SelfUpdating { renamed_aside: true }) && event
                    is InstallerFetched
                &&& staging_outcome(event) is SourceUnreadable || staging_outcome(event) is NoArchive
            },
            WorkflowError::Filesystem(e) => {
                &&& state is StageArchive && event is ArchiveStaged || state
                    == (DeploymentState::SelfUpdating { renamed_aside: true }) && event
                    is InstallerFetched
                &&& staging_outcome(event) == StageOutcome::CopyFailed(e)
            },
            WorkflowError::LocalAppDataUnavailable => event is LocalAppDataUnavailable,
            WorkflowError::Cancelled => event is CancelRequested,
        },
{
}

/// The installed application is launched, or offered to the user, only when
/// the run is complete, and then it is the executable that was found.
pub proof fn lemma_launch_only_when_complete(state: DeploymentState, mode: LaunchMode)
    ensures
        (action_spec(state, mode) is Launch || action_spec(state, mode) is OfferLaunch) <==> state
            is Complete,
        action_spec(state, mode) matches Action::Launch { executable } ==> Some(executable)
            == executable_spec(state) && mode == LaunchMode::Immediately,
        action_spec(state, mode) matches Action::OfferLaunch { executable } ==> Some(executable)
            == executable_spec(state) && mode == LaunchMode::OnUserAction,
{
}

/// A run can be called off in every state in which it is not over.
pub proof fn lemma_cancel_stops_every_running_state(state: DeploymentState)
    requires
        !is_terminal_spec(state),
    ensures
        step_spec(state, Event::CancelRequested) == DeploymentState::Failed(
            WorkflowError::Cancelled,
        ),
        step_spec(state, Event::LocalAppDataUnavailable) == DeploymentState::Failed(
            WorkflowError::LocalAppDataUnavailable,
        ),
{
}

/// The staging outcome that an event reports, for the two events that report
/// one.
pub open spec fn staging_outcome(event: Event) -> StageOutcome {
    match event {
        Event::ArchiveStaged(outcome) => outcome,
        Event::InstallerFetched(outcome) => outcome,
        _ => StageOutcome::NoArchive,
    }
}

/// The paths that a state holds are those that the driver reported, for as
/// long as the run does not fail: the staged archive from staging on until
/// the installation is finalized, the executable from its discovery on.
pub proof fn lemma_paths_are_carried(state: DeploymentState, event: Event)
    ensures
        state is StageArchive && event is ArchiveStaged && staging_outcome(event) is Staged
            ==> staged_archive_spec(step_spec(state, event)) == Some(
            staging_outcome(event)->Staged_0,
        ),
        staged_archive_spec(state) is Some && !(step_spec(state, event) is Complete) && !(step_spec(
            state,
            event,
        ) is Failed) ==> staged_archive_spec(step_spec(state, event)) == staged_archive_spec(state),
        executable_spec(state) is Some && !(step_spec(state, event) is Failed) ==> executable_spec(
            step_spec(state, event),
        ) == executable_spec(state),
{
}

} // verus!
