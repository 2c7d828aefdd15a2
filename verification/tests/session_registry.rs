use termul_manager::session_recovery::registry::{
    LastShutdown, RecoveredSession, RecoveredSessionKind, RecoveredSessionStatus, RegistryRead,
    SessionRegistry, StartupRecoveryState, SESSION_REGISTRY_SCHEMA_VERSION,
};
use termul_manager::session_recovery::save::{
    fresh_temp_file_name, temp_file_name, AtomicSave, SaveStep,
};

fn terminal_session(session_id: &str, pid: u32) -> RecoveredSession {
    RecoveredSession {
        session_id: session_id.to_string(),
        kind: RecoveredSessionKind::Terminal,
        status: RecoveredSessionStatus::Running,
        pid: Some(pid),
        process_group_id: Some(pid),
        command: Some("pi".to_string()),
        args: Vec::new(),
        shell: Some("bash".to_string()),
        cwd: Some("/tmp".to_string()),
        cols: Some(80),
        rows: Some(24),
        scrollback_journal_path: None,
        exit_code: None,
        recovery_reason: None,
    }
}

#[test]
fn clean_shutdown_stays_clean() {
    let registry = SessionRegistry::new(123);
    assert_eq!(
        registry.classify_startup(123, 1_000),
        StartupRecoveryState::Clean
    );
}

#[test]
fn keep_running_restores_attachable_sessions() {
    let mut registry = SessionRegistry::new(123);
    registry.last_shutdown = LastShutdown::KeepRunning;
    assert_eq!(
        registry.classify_startup(123, 1_000),
        StartupRecoveryState::KeepRunning
    );
}

#[test]
fn stale_heartbeat_after_unknown_shutdown_is_crashed_or_unknown() {
    let mut registry = SessionRegistry::new(123);
    registry.last_shutdown = LastShutdown::CrashedOrUnknown;
    registry.last_heartbeat_at_ms = 1_000;
    assert_eq!(
        registry.classify_startup(123, 10_000),
        StartupRecoveryState::CrashedOrUnknown
    );
}

#[test]
fn dead_supervisor_marks_running_terminal_lost() {
    let mut registry = SessionRegistry::new(123);
    registry.sessions.push(RecoveredSession::terminal("s1", 456));
    registry.mark_lost_sessions(&|pid| pid != 456);
    assert_eq!(registry.sessions[0].status, RecoveredSessionStatus::Lost);
}

#[test]
fn missing_registry_loads_empty_clean_registry() {
    let loaded = SessionRegistry::load_or_new("/nowhere/sessions.json", None, 77).unwrap();
    assert_eq!(loaded.supervisor_pid, 77);
    assert_eq!(loaded.last_shutdown, LastShutdown::Clean);
    assert_eq!(loaded.schema_version, SESSION_REGISTRY_SCHEMA_VERSION);
    assert_eq!(loaded.last_heartbeat_at_ms, 0);
    assert!(loaded.sessions.is_empty());
}

#[test]
fn live_background_cli_survives_simulated_crash_and_stays_recoverable() {
    let mut registry = SessionRegistry::new(4242);
    registry.last_shutdown = LastShutdown::CrashedOrUnknown;
    registry.last_heartbeat_at_ms = 1_000;
    registry.sessions.push(terminal_session("sess-alive", 900));
    let mut reloaded = SessionRegistry::load("/r", RegistryRead::Parsed(registry)).unwrap();
    assert_eq!(
        reloaded.classify_startup(4242, 10_000),
        StartupRecoveryState::CrashedOrUnknown
    );
    reloaded.mark_lost_sessions(&|pid| pid == 900);
    assert_eq!(reloaded.sessions[0].status, RecoveredSessionStatus::Running);
    assert!(reloaded.sessions[0].recovery_reason.is_none());
}

#[test]
fn dead_background_cli_is_marked_lost_after_simulated_crash() {
    let mut registry = SessionRegistry::new(4242);
    registry.last_shutdown = LastShutdown::CrashedOrUnknown;
    registry.sessions.push(terminal_session("sess-dead", 901));
    let mut reloaded = SessionRegistry::load("/r", RegistryRead::Parsed(registry)).unwrap();
    reloaded.mark_lost_sessions(&|_| false);
    assert_eq!(reloaded.sessions[0].status, RecoveredSessionStatus::Lost);
    assert_eq!(
        reloaded.sessions[0].recovery_reason.as_deref(),
        Some("process_not_found")
    );
}

#[test]
fn clean_shutdown_reload_shows_no_recovery() {
    let registry = SessionRegistry::new(4242);
    let reloaded = SessionRegistry::load("/r", RegistryRead::Parsed(registry)).unwrap();
    assert_eq!(
        reloaded.classify_startup(4242, 10_000),
        StartupRecoveryState::Clean
    );
    assert!(reloaded.sessions.is_empty());
}

#[test]
fn only_running_sessions_with_a_process_are_marked() {
    let mut registry = SessionRegistry::new(1);
    registry.sessions.push(terminal_session("exited", 2));
    registry.sessions[0].status = RecoveredSessionStatus::Exited;
    registry.sessions.push(terminal_session("no-process", 3));
    registry.sessions[1].pid = None;
    registry.sessions.push(terminal_session("dead", 4));
    registry.mark_lost_sessions(&|_| false);
    assert_eq!(registry.sessions[0].status, RecoveredSessionStatus::Exited);
    assert_eq!(registry.sessions[1].status, RecoveredSessionStatus::Running);
    assert_eq!(registry.sessions[2].status, RecoveredSessionStatus::Lost);
    assert_eq!(registry.sessions[2].command.as_deref(), Some("pi"));

    registry.sessions[2].recovery_reason = Some("known".to_string());
    registry.mark_lost_sessions(&|_| false);
    assert_eq!(registry.sessions[2].recovery_reason.as_deref(), Some("known"));
}

#[test]
fn registry_that_cannot_be_had_says_why() {
    let unread = SessionRegistry::load("/r.json", RegistryRead::Unreadable("denied".to_string()));
    assert_eq!(
        unread.unwrap_err(),
        "failed to read session registry /r.json: denied"
    );
    let unparsed = SessionRegistry::load_or_new(
        "/r.json",
        Some(RegistryRead::Unparsable("EOF".to_string())),
        1,
    );
    assert_eq!(
        unparsed.unwrap_err(),
        "failed to parse session registry /r.json: EOF"
    );
}

// Runs a save in which `failing` fails; gives the steps and what it came to.
fn run_save(parent: Option<&str>, failing: Option<SaveStep>) -> (Vec<SaveStep>, Result<(), String>) {
    let mut save: AtomicSave = SessionRegistry::save_atomic(
        "/d/sessions.json".to_string(),
        parent.map(str::to_string),
        "/d/.t.tmp".to_string(),
    );
    let mut steps = Vec::new();
    loop {
        if let Some(result) = save.result() {
            return (steps, result);
        }
        let step = save.step();
        steps.push(step);
        if failing == Some(step) {
            save.advance(Err("full".to_string()));
        } else {
            save.advance(Ok(()));
        }
    }
}

#[test]
fn save_goes_through_its_steps() {
    let (steps, result) = run_save(Some("/d"), None);
    assert_eq!(
        steps,
        vec![
            SaveStep::CreateParent,
            SaveStep::Serialize,
            SaveStep::CreateTemp,
            SaveStep::WriteTemp,
            SaveStep::SyncTemp,
            SaveStep::Replace,
            SaveStep::SyncParent,
        ]
    );
    assert_eq!(result, Ok(()));
}

#[test]
fn save_to_a_bare_name_has_no_directory() {
    let (steps, result) = run_save(Some(""), None);
    assert_eq!(steps[0], SaveStep::Serialize);
    assert_eq!(steps.last(), Some(&SaveStep::Replace));
    assert_eq!(result, Ok(()));
    assert_eq!(run_save(None, None).0, steps);
}

#[test]
fn save_that_fails_leaves_the_registry_alone() {
    let cases = [
        (
            SaveStep::CreateParent,
            "failed to create session registry directory /d: full",
        ),
        (SaveStep::Serialize, "failed to serialize session registry: full"),
        (
            SaveStep::CreateTemp,
            "failed to create session registry temp /d/.t.tmp: full",
        ),
        (
            SaveStep::WriteTemp,
            "failed to write session registry temp /d/.t.tmp: full",
        ),
        (
            SaveStep::SyncTemp,
            "failed to sync session registry temp /d/.t.tmp: full",
        ),
    ];
    for (step, text) in cases {
        let (steps, result) = run_save(Some("/d"), Some(step));
        assert!(!steps.contains(&SaveStep::Replace));
        assert_eq!(steps.last(), Some(&step));
        assert_eq!(result, Err(text.to_string()));
    }
}

#[test]
fn save_that_cannot_replace_removes_its_file() {
    let (steps, result) = run_save(Some("/d"), Some(SaveStep::Replace));
    assert_eq!(steps.last(), Some(&SaveStep::RemoveTemp));
    assert_eq!(
        result,
        Err("failed to replace session registry /d/sessions.json: full".to_string())
    );
    assert_eq!(run_save(Some("/d"), Some(SaveStep::SyncParent)).1, Ok(()));
}

#[test]
fn temporary_file_stands_beside_the_registry() {
    assert_eq!(temp_file_name(Some("s.json"), "id"), ".s.json.id.tmp");
    assert_eq!(temp_file_name(None, "id"), ".sessions.json.id.tmp");
    let a = fresh_temp_file_name(Some("s.json"));
    let b = fresh_temp_file_name(Some("s.json"));
    assert_ne!(a, b);
    assert_eq!(a.len(), ".s.json..tmp".len() + 36);
    assert!(a.starts_with(".s.json.") && a.ends_with(".tmp"));
    assert_eq!(&a[22..23], "4");
}
