use termul_manager::session_recovery::bridge::{
    attach_request, daemon_terminals_enabled, pump, DaemonTerminalBridge, PumpStep,
};
use termul_manager::session_recovery::client::{
    connect_error, handshake_result, hello_request, list_recovered_sessions, list_result,
    spawn_request, spawn_result, terminal_list_recovered_sessions, DaemonListing,
};
use termul_manager::session_recovery::daemon::{
    exit_code_of, new_session_id, plan_spawn, resize_error, ReadOutcome, ReaderStep, Session,
    SessionTable, SpawnOutcome, SpawnStage,
};
use termul_manager::session_recovery::ipc::{
    decode_frame, encode_frame, transport_error, SpawnSpec, SupervisorRequest, SupervisorResponse,
    TransportAction, SUPERVISOR_PROTOCOL_VERSION,
};
use termul_manager::session_recovery::registry::{RecoveredSession, RecoveredSessionStatus};
use termul_manager::session_recovery::scrollback::{Scrollback, SCROLLBACK_CAP};
use termul_manager::session_recovery::server::{
    answer, attach_frames, event_frame, select_auth_token, Connection, Gate, SessionEvent, Work,
    WorkOutcome,
};

fn echo_spec(line: &str) -> SpawnSpec {
    SpawnSpec {
        shell: Some("/bin/sh".to_string()),
        cwd: Some("/tmp".to_string()),
        cols: 80,
        rows: 24,
        command: Some("/bin/sh".to_string()),
        args: vec!["-c".to_string(), format!("printf '{line}'; sleep 0.2")],
        env: vec![],
    }
}

fn started(nanos: u128) -> SpawnOutcome {
    SpawnOutcome::Started { child_pid: Some(456), own_pid: 123, nanos }
}

#[test]
fn list_reflects_spawned_session() {
    let mut table = SessionTable::new();
    assert!(table.is_empty());
    let (id, pid) = table.spawn(echo_spec("x"), started(7)).unwrap();
    let listed = table.list();
    assert_eq!(listed.len(), 1);
    assert_eq!(listed[0].session_id, id);
    assert_eq!(listed[0].pid, Some(pid));
    assert_eq!(id, "sess-123-7");
    assert_eq!(pid, 456);
    assert!(!table.is_empty());
}

#[test]
fn spawn_captures_output_in_scrollback() {
    let mut table = SessionTable::new();
    let (id, _) = table.spawn(echo_spec("hello-supervisor"), started(1)).unwrap();
    match table.on_read(&id, ReadOutcome::Bytes(b"hello-".to_vec())) {
        ReaderStep::Broadcast(bytes) => assert_eq!(bytes, b"hello-"),
        _ => panic!("output is sent on"),
    }
    assert!(matches!(table.on_read(&id, ReadOutcome::Interrupted), ReaderStep::ReadOn));
    table.on_read(&id, ReadOutcome::Bytes(b"supervisor".to_vec()));
    assert!(!table.get(&id).unwrap().is_exited());
    assert!(matches!(table.on_read(&id, ReadOutcome::Bytes(vec![])), ReaderStep::Reap));
    assert!(matches!(table.on_read(&id, ReadOutcome::Failed), ReaderStep::Reap));
    table.on_reaped(&id, Some(3));
    let session = table.get(&id).unwrap();
    assert_eq!(session.scrollback_snapshot(), b"hello-supervisor");
    assert!(session.is_exited());
    assert_eq!(session.exit_code(), Some(3));
    assert_eq!(table.list()[0].status, RecoveredSessionStatus::Exited);
    assert_eq!(table.list()[0].exit_code, Some(3));
    assert!(table.get("other").is_none());
    assert!(matches!(
        table.on_read("other", ReadOutcome::Bytes(vec![1])),
        ReaderStep::Reap
    ));
}

#[test]
fn sessions_are_independent() {
    let mut table = SessionTable::new();
    let (a, _) = table.spawn(echo_spec("a"), started(1)).unwrap();
    let (b, _) = table.spawn(echo_spec("b"), started(2)).unwrap();
    table.on_read(&a, ReadOutcome::Bytes(b"only a".to_vec()));
    assert!(table.get(&b).unwrap().scrollback_snapshot().is_empty());
    let mut ids = table.kill_all();
    ids.sort();
    assert_eq!(ids, vec![a.clone(), b.clone()]);
    table.spawn(echo_spec("again"), started(1)).unwrap();
    assert_eq!(table.list().len(), 2);
    assert!(table.get(&a).unwrap().scrollback_snapshot().is_empty());
}

#[test]
fn session_that_does_not_start_changes_nothing() {
    let mut table = SessionTable::new();
    let cases = [
        (SpawnStage::OpenPty, "openpty failed: why"),
        (SpawnStage::SpawnCommand, "spawn failed: why"),
        (SpawnStage::CloneReader, "clone reader failed: why"),
        (SpawnStage::TakeWriter, "take writer failed: why"),
    ];
    for (stage, text) in cases {
        let failed = table.spawn(echo_spec("x"), SpawnOutcome::Failed(stage, "why".to_string()));
        assert_eq!(failed.unwrap_err(), text);
    }
    assert!(table.is_empty());
    let unknown = SpawnOutcome::Started { child_pid: None, own_pid: 1, nanos: 2 };
    assert_eq!(table.spawn(echo_spec("x"), unknown).unwrap().1, 0);
}

#[test]
fn session_is_told_without_its_environment() {
    let mut spec = echo_spec("x");
    spec.env = vec![("TOKEN".to_string(), "secret".to_string())];
    let session = Session::start("s".to_string(), 9, spec);
    let told = session.to_recovered();
    assert!(!format!("{:?}", told).contains("secret"));
    assert_eq!(told.command.as_deref(), Some("/bin/sh"));
    assert_eq!(told.args.len(), 2);
    assert_eq!(told.cols, Some(80));
    assert_eq!(told.process_group_id, Some(9));
    let mut plain = SpawnSpec::default();
    plain.shell = Some("/bin/zsh".to_string());
    let shell = Session::start("t".to_string(), 1, plain).to_recovered();
    assert_eq!(shell.command.as_deref(), Some("/bin/zsh"));
    assert_eq!(shell.rows, Some(0));
}

#[test]
fn exit_codes_are_signed() {
    assert_eq!(exit_code_of(Some(0)), 0);
    assert_eq!(exit_code_of(Some(u32::MAX)), -1);
    assert_eq!(exit_code_of(Some(0x8000_0000)), i32::MIN);
    assert_eq!(exit_code_of(Some(0xC000_013A)), 0xC000_013Au32 as i32);
    assert_eq!(exit_code_of(None), -1);
    assert_eq!(new_session_id(1, u128::MAX), format!("sess-1-{}", u128::MAX));
    assert_eq!(resize_error("EIO"), "resize failed: EIO");
}

#[test]
fn what_is_started_for_a_session() {
    let mut spec = SpawnSpec::default();
    let plan = plan_spawn(&spec, None);
    assert_eq!((plan.rows, plan.cols), (1, 1));
    assert_eq!(plan.program, "/bin/sh");
    assert_eq!(
        plan.env,
        vec![
            ("TERM".to_string(), "xterm-256color".to_string()),
            ("COLORTERM".to_string(), "truecolor".to_string()),
        ]
    );
    assert_eq!(plan_spawn(&spec, Some("/bin/fish".to_string())).program, "/bin/fish");
    spec.shell = Some("/bin/zsh".to_string());
    spec.env = vec![("TERM".to_string(), "dumb".to_string())];
    spec.rows = 50;
    let plan = plan_spawn(&spec, Some("/bin/fish".to_string()));
    assert_eq!(plan.program, "/bin/zsh");
    assert_eq!(plan.env[0].1, "dumb");
    assert_eq!(plan.env[1].1, "xterm-256color");
    assert_eq!(plan.rows, 50);
    spec.command = Some("htop".to_string());
    assert_eq!(plan_spawn(&spec, None).program, "htop");
}

#[test]
fn scrollback_keeps_the_end_of_the_output() {
    let mut kept = Scrollback::new();
    kept.append(&vec![1u8; SCROLLBACK_CAP]);
    assert_eq!(kept.snapshot().len(), SCROLLBACK_CAP);
    kept.append(&vec![2u8, 3u8]);
    let snapshot = kept.snapshot();
    assert_eq!(snapshot.len(), SCROLLBACK_CAP);
    assert_eq!(snapshot[SCROLLBACK_CAP - 3..], [1, 2, 3]);

    let mut at_once = Scrollback::new();
    let mut bytes = vec![1u8; SCROLLBACK_CAP];
    bytes.extend([2u8, 3u8]);
    at_once.append(&bytes);
    assert_eq!(at_once.snapshot(), snapshot);
}

#[test]
fn frames_are_lines() {
    let line = encode_frame("{\"type\":\"ok\"}".to_string());
    assert_eq!(line, "{\"type\":\"ok\"}\n");
    assert_eq!(decode_frame(&line).unwrap(), "{\"type\":\"ok\"}");
    assert_eq!(decode_frame("  {}\r\n").unwrap(), "{}");
    assert_eq!(decode_frame("\n").unwrap(), "");
    assert_eq!(decode_frame("").unwrap_err(), "daemon closed connection");
}

#[test]
fn transport_errors_say_what_was_done() {
    let cases = [
        (TransportAction::Encode, "encode: why"),
        (TransportAction::Write, "write: why"),
        (TransportAction::Flush, "flush: why"),
        (TransportAction::Read, "read: why"),
        (TransportAction::Decode, "decode: why"),
        (TransportAction::SetTimeout, "set timeout: why"),
        (TransportAction::CloneStream, "clone stream: why"),
    ];
    for (action, text) in cases {
        assert_eq!(transport_error(action, "why"), text);
    }
    assert_eq!(connect_error("/s.sock", "refused"), "connect /s.sock: refused");
}

#[test]
fn spawn_spec_is_compared_by_its_fields() {
    assert_eq!(echo_spec("x").copy(), echo_spec("x"));
    assert_ne!(echo_spec("x"), echo_spec("y"));
    assert_eq!(
        spawn_request(echo_spec("x")),
        SupervisorRequest::Spawn { spec: echo_spec("x") }
    );
}

fn error_response() -> SupervisorResponse {
    SupervisorResponse::Error { code: "c".to_string(), message: "m".to_string() }
}

#[test]
fn client_reads_the_answers() {
    match hello_request("tok") {
        SupervisorRequest::Hello { protocol_version, app_instance_id, auth_token } => {
            assert_eq!(protocol_version, 1);
            assert_eq!(app_instance_id, "termul-ui");
            assert_eq!(auth_token, "tok");
        }
        _ => panic!("hello comes first"),
    }
    let ack = SupervisorResponse::HelloAck { supervisor_pid: 1, protocol_version: 1 };
    assert_eq!(handshake_result(ack, ""), Ok(()));
    assert_eq!(
        handshake_result(error_response(), "").unwrap_err(),
        "handshake rejected (c): m"
    );
    assert_eq!(
        handshake_result(SupervisorResponse::Okay, "Ok").unwrap_err(),
        "unexpected handshake response: Ok"
    );

    let sessions = vec![RecoveredSession::terminal("s", 1)];
    let listed = list_result(SupervisorResponse::Sessions { sessions }, "").unwrap();
    assert_eq!(listed[0].session_id, "s");
    assert_eq!(
        list_result(error_response(), "").unwrap_err(),
        "list_sessions error (c): m"
    );
    assert_eq!(
        list_result(SupervisorResponse::Okay, "Ok").unwrap_err(),
        "unexpected list response: Ok"
    );

    let spawned = SupervisorResponse::Spawned { session_id: "s".to_string(), pid: 5 };
    assert_eq!(spawn_result(spawned, ""), Ok(("s".to_string(), 5)));
    assert_eq!(spawn_result(error_response(), "").unwrap_err(), "spawn error (c): m");
    assert_eq!(
        spawn_result(SupervisorResponse::Okay, "Ok").unwrap_err(),
        "unexpected spawn response: Ok"
    );
}

#[test]
fn unreachable_daemon_has_no_sessions() {
    let sessions = || vec![RecoveredSession::terminal("s", 1)];
    assert!(list_recovered_sessions(DaemonListing::NoToken).is_empty());
    assert!(list_recovered_sessions(DaemonListing::NotConnected("e".to_string())).is_empty());
    assert!(list_recovered_sessions(DaemonListing::Asked(Err("e".to_string()))).is_empty());
    assert_eq!(list_recovered_sessions(DaemonListing::Asked(Ok(sessions()))).len(), 1);
    let own = || vec![RecoveredSession::terminal("own", 2)];
    assert_eq!(terminal_list_recovered_sessions(sessions(), own())[0].session_id, "s");
    assert_eq!(terminal_list_recovered_sessions(vec![], own())[0].session_id, "own");
}

#[test]
fn bridge_knows_its_terminals() {
    let mut bridge = DaemonTerminalBridge::new();
    assert!(!bridge.has("t1"));
    assert_eq!(bridge.spawn("t1".to_string(), Ok(("s1".to_string(), 11))), Ok(11));
    assert_eq!(bridge.spawn("t2".to_string(), Ok(("s2".to_string(), 12))), Ok(12));
    assert_eq!(
        bridge.spawn("t3".to_string(), Err("refused".to_string())),
        Err("refused".to_string())
    );
    assert!(!bridge.has("t3"));
    assert_eq!(bridge.pid("t2"), Some(12));
    assert_eq!(
        bridge.write("t1", b"ls\n".to_vec()),
        Ok(SupervisorRequest::Write { session_id: "s1".to_string(), data: b"ls\n".to_vec() })
    );
    assert_eq!(
        bridge.resize("t2", 100, 40),
        Ok(SupervisorRequest::Resize { session_id: "s2".to_string(), cols: 100, rows: 40 })
    );
    assert_eq!(bridge.write("t3", vec![]).unwrap_err(), "no bridged terminal t3");
    assert_eq!(bridge.resize("t3", 1, 1).unwrap_err(), "no bridged terminal t3");
    assert_eq!(
        bridge.kill("t1"),
        Some(SupervisorRequest::Kill { session_id: "s1".to_string() })
    );
    assert!(bridge.kill("t1").is_none());
    assert!(!bridge.has("t1"));
    assert_eq!(bridge.pid("t1"), None);
    assert_eq!(bridge.pid("t2"), Some(12));
    assert_eq!(bridge.spawn("t2".to_string(), Ok(("s9".to_string(), 99))), Ok(99));
    assert_eq!(bridge.pid("t2"), Some(99));
}

#[test]
fn daemon_terminals_are_asked_for() {
    assert!(daemon_terminals_enabled(Some("1")));
    assert!(!daemon_terminals_enabled(Some("true")));
    assert!(!daemon_terminals_enabled(Some("")));
    assert!(!daemon_terminals_enabled(None));
}

#[test]
fn terminal_shows_replay_and_output_of_its_session() {
    let frames = vec![
        SupervisorResponse::Okay,
        SupervisorResponse::Scrollback { session_id: "s".to_string(), data: b"old ".to_vec() },
        SupervisorResponse::Output { session_id: "other".to_string(), data: b"no".to_vec() },
        SupervisorResponse::Exited { session_id: "other".to_string(), exit_code: 0 },
        SupervisorResponse::Output { session_id: "s".to_string(), data: vec![] },
        SupervisorResponse::Output { session_id: "s".to_string(), data: b"new".to_vec() },
        SupervisorResponse::Exited { session_id: "s".to_string(), exit_code: 0 },
        SupervisorResponse::Output { session_id: "s".to_string(), data: b"late".to_vec() },
    ];
    let mut shown = Vec::new();
    for frame in frames {
        match pump("s", Ok(frame)) {
            PumpStep::Show(bytes) => shown.extend(bytes),
            PumpStep::Skip => {}
            PumpStep::Stop => break,
        }
    }
    assert_eq!(shown, b"old new");
    assert!(matches!(pump("s", Err("closed".to_string())), PumpStep::Stop));
    assert_eq!(
        attach_request("s"),
        SupervisorRequest::Attach { session_id: "s".to_string() }
    );
}

fn hello(token: &str) -> SupervisorRequest {
    SupervisorRequest::Hello {
        protocol_version: 1,
        app_instance_id: "x".to_string(),
        auth_token: token.to_string(),
    }
}

fn is_unauthorized(gate: Gate) -> bool {
    match gate {
        Gate::Refuse(SupervisorResponse::Error { code, .. }) => code == "unauthorized",
        _ => false,
    }
}

#[test]
fn daemon_rejects_wrong_auth_token() {
    let token = Some("correct-horse-battery-staple".to_string());
    let mut bad = Connection::new(77, token.clone());
    assert!(is_unauthorized(bad.receive(hello("WRONG"))));
    assert!(is_unauthorized(bad.receive(SupervisorRequest::ListSessions)));

    let mut good = Connection::new(77, token);
    match good.receive(hello("correct-horse-battery-staple")) {
        Gate::Welcome(SupervisorResponse::HelloAck { supervisor_pid, protocol_version }) => {
            assert_eq!(supervisor_pid, 77);
            assert_eq!(protocol_version, SUPERVISOR_PROTOCOL_VERSION);
            assert_eq!(protocol_version, 1);
        }
        _ => panic!("the right secret is welcome"),
    }
    assert!(matches!(
        good.receive(SupervisorRequest::ListSessions),
        Gate::Pass(SupervisorRequest::ListSessions)
    ));
    assert!(matches!(
        good.receive(SupervisorRequest::Shutdown { kill_all: true }),
        Gate::Pass(SupervisorRequest::Shutdown { kill_all: true })
    ));
}

#[test]
fn daemon_requires_hello_before_other_requests() {
    let mut client = Connection::new(1, Some("tok-123".to_string()));
    assert!(is_unauthorized(client.receive(SupervisorRequest::ListSessions)));
    let mut admin = Connection::new(1, Some("tok-123".to_string()));
    assert!(matches!(admin.receive(hello("tok-123")), Gate::Welcome(_)));
    assert!(matches!(
        admin.receive(SupervisorRequest::Shutdown { kill_all: true }),
        Gate::Pass(_)
    ));
}

#[test]
fn without_a_secret_everyone_may_ask() {
    let mut open = Connection::new(1, None);
    assert!(matches!(open.receive(SupervisorRequest::ListSessions), Gate::Pass(_)));
    assert!(matches!(open.receive(hello("")), Gate::Welcome(_)));
    let text = |s: &str| Some(s.to_string());
    assert_eq!(select_auth_token(text("env"), text("file")), text("env"));
    assert_eq!(select_auth_token(text(""), text("file")), text("file"));
    assert_eq!(select_auth_token(None, None), None);
}

#[test]
fn daemon_answers_what_a_request_came_to() {
    let shown = |outcome: WorkOutcome| format!("{:?}", answer(outcome));
    let error = |code: &str, message: &str| {
        format!(
            "{:?}",
            SupervisorResponse::Error { code: code.to_string(), message: message.to_string() }
        )
    };
    match answer(WorkOutcome::Started("s".to_string(), 3)) {
        SupervisorResponse::Spawned { session_id, pid } => {
            assert_eq!((session_id.as_str(), pid), ("s", 3))
        }
        _ => panic!("a session was started"),
    }
    assert!(matches!(answer(WorkOutcome::Done), SupervisorResponse::Okay));
    match answer(WorkOutcome::Listed(vec![RecoveredSession::terminal("s", 1)])) {
        SupervisorResponse::Sessions { sessions } => assert_eq!(sessions[0].session_id, "s"),
        _ => panic!("sessions were listed"),
    }
    assert_eq!(shown(WorkOutcome::NoSession("s".to_string())), error("not_found", "s"));
    let failed = |work: Work| shown(WorkOutcome::Failed(work, "why".to_string()));
    assert_eq!(failed(Work::Spawn), error("spawn_failed", "why"));
    assert_eq!(failed(Work::Write), error("write_failed", "why"));
    assert_eq!(failed(Work::Resize), error("resize_failed", "why"));
    assert_eq!(shown(WorkOutcome::NotUnderstood("x".to_string())), error("bad_request", "x"));
}

#[test]
fn client_that_attaches_is_shown_the_session() {
    let mut table = SessionTable::new();
    let (id, _) = table.spawn(echo_spec("x"), started(5)).unwrap();
    table.on_read(&id, ReadOutcome::Bytes(b"before ".to_vec()));
    let mut frames = attach_frames(table.get(&id).unwrap());
    assert_eq!(frames.len(), 1);
    frames.push(event_frame(&id, SessionEvent::Output(b"after".to_vec())));
    frames.push(event_frame(&id, SessionEvent::Exited(0)));
    let mut shown = Vec::new();
    for frame in frames {
        match pump(&id, Ok(frame)) {
            PumpStep::Show(bytes) => shown.extend(bytes),
            PumpStep::Skip => {}
            PumpStep::Stop => break,
        }
    }
    assert_eq!(shown, b"before after");
    table.on_reaped(&id, Some(0));
    assert_eq!(attach_frames(table.get(&id).unwrap()).len(), 2);
}

#[test]
fn session_ids_tell_sessions_apart() {
    let ids = [
        new_session_id(1, 11),
        new_session_id(11, 1),
        new_session_id(1, 1),
        new_session_id(111, 0),
    ];
    for (i, a) in ids.iter().enumerate() {
        for (j, b) in ids.iter().enumerate() {
            assert_eq!(a == b, i == j);
        }
    }
}

#[test]
fn client_and_daemon_shake_hands() {
    let mut daemon = Connection::new(5, Some("right".to_string()));
    match daemon.receive(hello_request("wrong")) {
        Gate::Refuse(response) => assert_eq!(
            handshake_result(response, "").unwrap_err(),
            "handshake rejected (unauthorized): the token does not match"
        ),
        _ => panic!("another secret is refused"),
    }
    match daemon.receive(SupervisorRequest::ListSessions) {
        Gate::Refuse(response) => assert_eq!(
            list_result(response, "").unwrap_err(),
            "list_sessions error (unauthorized): say hello first"
        ),
        _ => panic!("the client may not ask"),
    }
    match daemon.receive(hello_request("right")) {
        Gate::Welcome(response) => assert_eq!(handshake_result(response, ""), Ok(())),
        _ => panic!("the right secret is welcome"),
    }
    assert!(matches!(daemon.receive(SupervisorRequest::ListSessions), Gate::Pass(_)));
}

#[test]
fn last_size_of_a_terminal_is_told() {
    let mut table = SessionTable::new();
    let (a, _) = table.spawn(echo_spec("a"), started(1)).unwrap();
    let (b, _) = table.spawn(echo_spec("b"), started(2)).unwrap();
    let size = |table: &SessionTable, id: &str| {
        let told = table.get(id).unwrap().to_recovered();
        (told.cols.unwrap(), told.rows.unwrap())
    };
    assert_eq!(size(&table, &a), (80, 24));
    table.on_resized(&a, 100, 40);
    table.on_resized(&a, 120, 50);
    table.on_resized("other", 1, 1);
    assert_eq!(size(&table, &a), (120, 50));
    assert_eq!(size(&table, &b), (80, 24));
    assert_eq!(table.list().len(), 2);
    assert_eq!(table.get(&a).unwrap().spec.cols, 80);
    let mut alone = Session::start("s".to_string(), 1, echo_spec("x"));
    alone.on_resized(10, 20);
    assert_eq!(alone.to_recovered().cols, Some(10));
    assert_eq!(alone.to_recovered().rows, Some(20));
    assert_eq!(alone.to_recovered().pid, Some(1));
}

#[test]
fn frame_has_one_line_end() {
    let line = encode_frame("{\"data\":\"a\\nb\"}".to_string());
    assert!(line.ends_with('\n'));
    assert_eq!(line.matches('\n').count(), 1);
}
