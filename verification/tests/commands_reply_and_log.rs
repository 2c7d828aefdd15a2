use termul_manager::commands::log::{
    log_frontend_error, sanitize_log_field, LogLevel, MAX_FRONTEND_FIELD_LEN,
};
use termul_manager::commands::reply::{coded_reply, reply, Command, IpcResult};

#[test]
fn test_ipc_result_success() {
    let result: IpcResult<String> = IpcResult::success("test".to_string());
    assert!(result.success);
    assert_eq!(result.data, Some("test".to_string()));
    assert!(result.error.is_none());
    assert!(result.code.is_none());
}

#[test]
fn test_ipc_result_error() {
    let result: IpcResult<String> = IpcResult::error("test error", "TEST_ERROR");
    assert!(!result.success);
    assert!(result.data.is_none());
    assert_eq!(result.error, Some("test error".to_string()));
    assert_eq!(result.code, Some("TEST_ERROR".to_string()));
}

#[test]
fn ipc_result_error_takes_owned_texts() {
    let result: IpcResult<()> = IpcResult::error("owned".to_string(), "CODE".to_string());
    assert_eq!(result.error.as_deref(), Some("owned"));
    assert_eq!(result.code.as_deref(), Some("CODE"));
}

#[test]
fn sanitize_log_field_escapes_newlines_and_strips_controls() {
    let forged = "oops\n[startup] termul forged line\r\tend";
    let cleaned = sanitize_log_field(forged);
    assert!(!cleaned.contains('\n'));
    assert!(!cleaned.contains('\r'));
    assert!(!cleaned.contains('\t'));
    assert!(cleaned.contains("\\n[startup]"));

    let with_esc = "a\u{1b}[31mred\u{0007}b";
    assert_eq!(sanitize_log_field(with_esc), "a[31mredb");
}

#[test]
fn sanitize_log_field_truncates_oversized_input() {
    let huge = "x".repeat(MAX_FRONTEND_FIELD_LEN + 100);
    let cleaned = sanitize_log_field(&huge);
    assert!(cleaned.ends_with("…[truncated]"));
    assert!(cleaned.chars().count() <= MAX_FRONTEND_FIELD_LEN + "…[truncated]".chars().count());
}

#[test]
fn field_of_the_longest_length_is_not_cut() {
    let full = "é".repeat(MAX_FRONTEND_FIELD_LEN);
    assert_eq!(sanitize_log_field(&full), full);
}

#[test]
fn next_line_and_delete_are_control_characters() {
    assert_eq!(sanitize_log_field("a\u{85}b\u{7f}c\u{9f}d\u{a0}e"), "abcd\u{a0}e");
}

#[test]
fn report_of_the_window_is_one_line() {
    let (level, line) = log_frontend_error(
        None,
        "boom\nat home".to_string(),
        None,
        Some("f\ng".to_string()),
        Some("<App>".to_string()),
    );
    assert_eq!(level, LogLevel::Error);
    assert_eq!(
        line,
        "[frontend] [renderer] boom\\nat home | stack: f\\ng | component stack: <App>"
    );
}

#[test]
fn report_of_the_window_may_be_a_warning() {
    let warn = log_frontend_error(
        Some("warn".to_string()),
        "m".to_string(),
        Some("s".to_string()),
        None,
        None,
    );
    assert_eq!(warn.0, LogLevel::Warn);
    assert_eq!(warn.1, "[frontend] [s] m");
    let other = log_frontend_error(Some("info".to_string()), "m".to_string(), None, None, None);
    assert_eq!(other.0, LogLevel::Error);
}

#[test]
fn replies_carry_the_code_of_their_command() {
    let done: IpcResult<u8> = reply(Command::SftpMkdir, Ok(7));
    assert!(done.success);
    assert_eq!(done.data, Some(7));
    let cases = [
        (Command::TerminalSpawn, "SPAWN_FAILED"),
        (Command::TerminalWrite, "WRITE_FAILED"),
        (Command::TerminalRemoveRendererRef, "TERMINAL_NOT_FOUND"),
        (Command::AgentRegistryFetch, "AGENT_REGISTRY_FETCH_FAILED"),
        (
            Command::BrowserTabUpdateAnnotationMarkerSelection,
            "BROWSER_TAB_UPDATE_MARKER_SELECTION_FAILED",
        ),
        (Command::SshDeleteProfile, "SSH_PROFILE_ERROR"),
        (Command::SftpCreateFile, "SFTP_CREATE_ERROR"),
        (Command::RemoteServerStop, "REMOTE_STOP_FAILED"),
    ];
    for (command, code) in cases {
        let failed: IpcResult<u8> = reply(command, Err("why".to_string()));
        assert!(!failed.success);
        assert!(failed.data.is_none());
        assert_eq!(failed.error.as_deref(), Some("why"));
        assert_eq!(failed.code.as_deref(), Some(code));
    }
}

#[test]
fn replies_may_bring_their_own_code() {
    let failed: IpcResult<()> = coded_reply(Err(("text".to_string(), "OWN".to_string())));
    assert_eq!(failed.error.as_deref(), Some("text"));
    assert_eq!(failed.code.as_deref(), Some("OWN"));
    let done: IpcResult<u8> = coded_reply(Ok(3));
    assert_eq!(done.data, Some(3));
}
