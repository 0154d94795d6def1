use app_installer::engine::{
    is_update_due, Action, DeploymentState, DeploymentTarget, Event, FilesystemError, FsOperation,
    LaunchMode, StageOutcome, WorkflowError,
};

fn inspected(installed: bool, local: Option<u64>, remote: Option<u64>) -> Event {
    Event::InstallerInspected { installed, local_modified: local, remote_modified: remote }
}

fn run(mut state: DeploymentState, events: Vec<Event>) -> DeploymentState {
    for event in events {
        state = state.step(event);
    }
    state
}

fn checked_and_clear() -> DeploymentState {
    run(
        DeploymentState::new(),
        vec![
            inspected(true, Some(10), Some(10)),
            Event::Started,
            Event::ProcessChecked { running: false },
        ],
    )
}

#[test]
fn a_run_begins_with_the_self_update_check() {
    let state = DeploymentState::new();
    assert_eq!(state, DeploymentState::SelfUpdateCheck);
    assert!(!state.is_terminal());
    assert_eq!(state.next_action(LaunchMode::Immediately), Action::InspectInstaller);
    assert_eq!(state.staged_archive(), None);
    assert_eq!(state.executable(), None);
}

#[test]
fn a_whole_installation() {
    let mode = LaunchMode::OnUserAction;
    let state = DeploymentState::new().step(inspected(true, Some(100), Some(100)));
    assert_eq!(state, DeploymentState::Ready);
    assert_eq!(state.next_action(mode), Action::Start);
    let state = state.step(Event::Started);
    assert_eq!(state, DeploymentState::CheckRunningProcess);
    assert_eq!(state.next_action(mode), Action::CheckProcess);
    let state = state.step(Event::ProcessChecked { running: false });
    assert_eq!(state, DeploymentState::UninstallPrevious);
    assert_eq!(state.next_action(mode), Action::RemovePrevious);
    let state = state.step(Event::PreviousRemoved);
    assert_eq!(state, DeploymentState::StageArchive);
    assert_eq!(state.next_action(mode), Action::StageArchive);
    let state = state.step(Event::ArchiveStaged(StageOutcome::Staged("stage/app.zip".to_string())));
    assert_eq!(state, DeploymentState::Extract { archive: "stage/app.zip".to_string() });
    assert_eq!(state.staged_archive(), Some(&"stage/app.zip".to_string()));
    assert_eq!(
        state.next_action(mode),
        Action::ExtractArchive { archive: "stage/app.zip".to_string() }
    );
    let state = state.step(Event::ArchiveExtracted);
    assert_eq!(state, DeploymentState::LocateExecutable { archive: "stage/app.zip".to_string() });
    assert_eq!(state.next_action(mode), Action::LocateExecutable);
    assert_eq!(state.executable(), None);
    let state = state.step(Event::ExecutableLocated(Some("apps/App/app.exe".to_string())));
    assert_eq!(
        state,
        DeploymentState::FinalizeInstall {
            archive: "stage/app.zip".to_string(),
            executable: "apps/App/app.exe".to_string(),
        }
    );
    assert_eq!(state.staged_archive(), Some(&"stage/app.zip".to_string()));
    assert_eq!(state.executable(), Some(&"apps/App/app.exe".to_string()));
    assert_eq!(
        state.next_action(mode),
        Action::FinalizeInstall {
            archive: "stage/app.zip".to_string(),
            executable: "apps/App/app.exe".to_string(),
        }
    );
    assert!(!state.is_terminal());
    let state = state.step(Event::InstallFinalized);
    assert_eq!(state, DeploymentState::Complete { executable: "apps/App/app.exe".to_string() });
    assert!(state.is_terminal());
    assert_eq!(state.staged_archive(), None);
    assert_eq!(state.executable(), Some(&"apps/App/app.exe".to_string()));
}

#[test]
fn a_complete_run_launches_as_the_caller_wants() {
    let state = DeploymentState::Complete { executable: "apps/App/app.exe".to_string() };
    assert_eq!(
        state.next_action(LaunchMode::Immediately),
        Action::Launch { executable: "apps/App/app.exe".to_string() }
    );
    assert_eq!(
        state.next_action(LaunchMode::OnUserAction),
        Action::OfferLaunch { executable: "apps/App/app.exe".to_string() }
    );
}

#[test]
fn a_running_application_fails_the_run() {
    let state = run(DeploymentState::new(), vec![inspected(true, None, None), Event::Started]);
    assert_eq!(state, DeploymentState::CheckRunningProcess);
    let state = state.step(Event::ProcessChecked { running: true });
    assert_eq!(state, DeploymentState::Failed(WorkflowError::AlreadyRunning));
    assert!(state.is_terminal());
    assert_eq!(state.next_action(LaunchMode::Immediately), Action::Halt);
    assert_eq!(state.next_action(LaunchMode::OnUserAction), Action::Halt);
    // Nothing that is reported afterwards brings the run back to life.
    let state = run(
        state,
        vec![
            Event::ProcessChecked { running: false },
            Event::PreviousRemoved,
            Event::ArchiveStaged(StageOutcome::Staged("stage/app.zip".to_string())),
            Event::ArchiveExtracted,
            Event::InstallFinalized,
        ],
    );
    assert_eq!(state, DeploymentState::Failed(WorkflowError::AlreadyRunning));
    assert_eq!(state.next_action(LaunchMode::Immediately), Action::Halt);
}

#[test]
fn no_action_before_the_process_check_touches_the_installation() {
    let before = vec![
        DeploymentState::SelfUpdateCheck,
        DeploymentState::SelfUpdating { renamed_aside: false },
        DeploymentState::SelfUpdating { renamed_aside: true },
        DeploymentState::FetchSelfUpdate,
        DeploymentState::Ready,
        DeploymentState::CheckRunningProcess,
        DeploymentState::Failed(WorkflowError::AlreadyRunning),
    ];
    for state in before {
        let action = state.next_action(LaunchMode::Immediately);
        assert!(!matches!(
            action,
            Action::RemovePrevious | Action::ExtractArchive { .. } | Action::FinalizeInstall { .. }
        ));
    }
}

#[test]
fn a_newer_installer_archive_starts_the_self_update() {
    let state = DeploymentState::new().step(inspected(true, Some(1000), Some(1001)));
    assert_eq!(state, DeploymentState::SelfUpdating { renamed_aside: false });
    assert_eq!(state.next_action(LaunchMode::OnUserAction), Action::RenameInstallerAside);
    let state = state.step(Event::InstallerRenamed { renamed: true });
    assert_eq!(state, DeploymentState::SelfUpdating { renamed_aside: true });
    assert_eq!(state.next_action(LaunchMode::OnUserAction), Action::FetchInstaller);
    let state = state.step(Event::InstallerFetched(StageOutcome::Staged("stage/i.zip".to_string())));
    assert_eq!(state, DeploymentState::RestartRequired);
    assert!(state.is_terminal());
    assert_eq!(state.next_action(LaunchMode::OnUserAction), Action::Halt);
    // The application itself is not installed in this run.
    assert_eq!(state.step(Event::Started), DeploymentState::RestartRequired);
}

#[test]
fn an_installer_archive_of_the_same_age_is_left_alone() {
    let state = DeploymentState::new().step(inspected(true, Some(1000), Some(1000)));
    assert_eq!(state, DeploymentState::Ready);
    assert_ne!(state.next_action(LaunchMode::OnUserAction), Action::RenameInstallerAside);
    let older = DeploymentState::new().step(inspected(true, Some(1000), Some(999)));
    assert_eq!(older, DeploymentState::Ready);
}

#[test]
fn is_update_due_compares_strictly() {
    assert!(is_update_due(Some(0), Some(1)));
    assert!(is_update_due(Some(u64::MAX - 1), Some(u64::MAX)));
    assert!(!is_update_due(Some(1), Some(1)));
    assert!(!is_update_due(Some(2), Some(1)));
    assert!(!is_update_due(None, Some(1)));
    assert!(!is_update_due(Some(1), None));
    assert!(!is_update_due(None, None));
}

#[test]
fn unknown_times_mean_no_self_update() {
    assert_eq!(DeploymentState::new().step(inspected(true, None, Some(5))), DeploymentState::Ready);
    assert_eq!(DeploymentState::new().step(inspected(true, Some(5), None)), DeploymentState::Ready);
}

#[test]
fn an_installer_never_installed_is_fetched_first() {
    let state = DeploymentState::new().step(inspected(false, Some(1), Some(9)));
    assert_eq!(state, DeploymentState::FetchSelfUpdate);
    assert_eq!(state.next_action(LaunchMode::Immediately), Action::FetchInstaller);
    let fetched = state.clone().step(Event::InstallerFetched(StageOutcome::Staged("s".to_string())));
    assert_eq!(fetched, DeploymentState::Ready);
    let not_fetched = state.step(Event::InstallerFetched(StageOutcome::NoArchive));
    assert_eq!(not_fetched, DeploymentState::Ready);
}

#[test]
fn a_failed_rename_gives_up_the_self_update() {
    let state = DeploymentState::SelfUpdating { renamed_aside: false };
    assert_eq!(state.step(Event::InstallerRenamed { renamed: false }), DeploymentState::Ready);
}

#[test]
fn a_failed_self_update_fails_the_run() {
    let state = DeploymentState::SelfUpdating { renamed_aside: true };
    assert_eq!(
        state.clone().step(Event::InstallerFetched(StageOutcome::NoArchive)),
        DeploymentState::Failed(WorkflowError::NoArchiveAvailable)
    );
    let error = FilesystemError { operation: FsOperation::Copy, os_code: 5 };
    assert_eq!(
        state.step(Event::InstallerFetched(StageOutcome::CopyFailed(error))),
        DeploymentState::Failed(WorkflowError::Filesystem(error))
    );
}

#[test]
fn staging_failures_fail_the_run() {
    let state = checked_and_clear().step(Event::PreviousRemoved);
    assert_eq!(state, DeploymentState::StageArchive);
    assert_eq!(
        state.clone().step(Event::ArchiveStaged(StageOutcome::NoArchive)),
        DeploymentState::Failed(WorkflowError::NoArchiveAvailable)
    );
    assert_eq!(
        state.clone().step(Event::ArchiveStaged(StageOutcome::SourceUnreadable)),
        DeploymentState::Failed(WorkflowError::NoArchiveAvailable)
    );
    let error = FilesystemError { operation: FsOperation::Copy, os_code: 112 };
    assert_eq!(
        state.step(Event::ArchiveStaged(StageOutcome::CopyFailed(error))),
        DeploymentState::Failed(WorkflowError::Filesystem(error))
    );
}

#[test]
fn a_missing_executable_fails_the_run() {
    let state = DeploymentState::LocateExecutable { archive: "stage/app.zip".to_string() };
    let state = state.step(Event::ExecutableLocated(None));
    assert_eq!(state, DeploymentState::Failed(WorkflowError::ExecutableNotFound));
    assert_eq!(state.next_action(LaunchMode::Immediately), Action::Halt);
    assert_eq!(state.executable(), None);
}

#[test]
fn an_event_out_of_turn_changes_nothing() {
    let state = DeploymentState::new();
    assert_eq!(state.clone().step(Event::Started), state);
    assert_eq!(state.clone().step(Event::ProcessChecked { running: true }), state);
    assert_eq!(state.clone().step(Event::InstallFinalized), state);
    let staging = DeploymentState::StageArchive;
    assert_eq!(
        staging.clone().step(Event::InstallerFetched(StageOutcome::Staged("x".to_string()))),
        staging
    );
    assert_eq!(staging.clone().step(Event::ExecutableLocated(Some("x".to_string()))), staging);
    let renaming = DeploymentState::SelfUpdating { renamed_aside: false };
    assert_eq!(
        renaming.clone().step(Event::InstallerFetched(StageOutcome::Staged("x".to_string()))),
        renaming
    );
    let unpacking = DeploymentState::SelfUpdating { renamed_aside: true };
    assert_eq!(unpacking.clone().step(Event::InstallerRenamed { renamed: true }), unpacking);
}

#[test]
fn a_finished_run_stays_finished() {
    let complete = DeploymentState::Complete { executable: "e".to_string() };
    assert_eq!(complete.clone().step(inspected(false, None, None)), complete);
    assert_eq!(complete.clone().step(Event::InstallFinalized), complete);
    let failed = DeploymentState::Failed(WorkflowError::NoArchiveAvailable);
    assert_eq!(
        failed.clone().step(Event::ArchiveStaged(StageOutcome::Staged("s".to_string()))),
        failed
    );
}

#[test]
fn target_names_follow_the_application_name() {
    let target = DeploymentTarget {
        name: "MyCoolApp".to_string(),
        source_directory: "C:\\dev\\apps\\MyCoolApp".to_string(),
        install_directory: "C:\\Users\\me\\AppData\\Local\\Utils\\MyCoolApp".to_string(),
    };
    assert_eq!(target.process_name(), "MyCoolApp.exe");
    assert_eq!(target.shortcut_file_name(), "My Cool App.lnk");
}

#[test]
fn a_missing_local_directory_fails_the_run_wherever_it_shows() {
    let states = vec![
        DeploymentState::SelfUpdateCheck,
        DeploymentState::SelfUpdating { renamed_aside: false },
        DeploymentState::SelfUpdating { renamed_aside: true },
        DeploymentState::FetchSelfUpdate,
        DeploymentState::Ready,
        DeploymentState::CheckRunningProcess,
        DeploymentState::UninstallPrevious,
        DeploymentState::StageArchive,
        DeploymentState::Extract { archive: "a".to_string() },
        DeploymentState::LocateExecutable { archive: "a".to_string() },
        DeploymentState::FinalizeInstall { archive: "a".to_string(), executable: "e".to_string() },
    ];
    for state in states {
        assert_eq!(
            state.clone().step(Event::LocalAppDataUnavailable),
            DeploymentState::Failed(WorkflowError::LocalAppDataUnavailable)
        );
        assert_eq!(
            state.step(Event::CancelRequested),
            DeploymentState::Failed(WorkflowError::Cancelled)
        );
    }
}

#[test]
fn a_finished_run_cannot_be_called_off() {
    let ends = vec![
        DeploymentState::Complete { executable: "e".to_string() },
        DeploymentState::RestartRequired,
        DeploymentState::Failed(WorkflowError::ExecutableNotFound),
    ];
    for state in ends {
        assert_eq!(state.clone().step(Event::CancelRequested), state);
        assert_eq!(state.clone().step(Event::LocalAppDataUnavailable), state);
    }
}
