use termul_manager::commands::askpass::{
    askpass_id, data_file_name, fresh_askpass_id, script_content, script_file_name, AskpassHelper,
    HelperStep, HelperSystem,
};
use termul_manager::commands::browser::{
    browser_tab_report, check_captured_element, validate_browser_tab_caller, TabReport,
};
use termul_manager::commands::git::{
    branch_list_args, checkout_args, git_branch_list, git_result, git_stash_list, stash_args,
    stash_list_is_readable, stash_push_args, task_result, GitAction, GitOutput, GitRun, GitTask,
    StashVerb,
};
use termul_manager::commands::migration::RollbackRequest;
use termul_manager::commands::reply::IpcResult;
use termul_manager::commands::ssh::{
    prepare_connect, prepare_port_forward, transfer_reply, ConnectionLookup, Credentials,
    ProfileLookup, SFTPFileRequest, SFTPPathRequest, SFTPRenameRequest, SFTPTransferRequest,
    SSHConnectRequest, SSHPortForwardRequest, Transfer, TransferOutcome,
};
use termul_manager::commands::terminal::{
    recovered_sessions_reply, route_spawn, spawn_spec, terminal_kill, terminal_resize,
    terminal_spawn, terminal_write, OrphanDetectionSettings, RendererRefRequest,
    SetTerminalProtectedRequest, SetVisibilityRequest, SpawnOptions, SpawnRoute,
};
use termul_manager::commands::worktree::{
    parsed_symlink_dirs, symlink_dirs, worktree_branches, worktree_list, worktree_reply,
    BranchEntry, BranchInfo, ConflictFileInfo, GitWorktreeEntry, GitignoreDirInfo,
    MergePreviewInfo, SymlinkResultInfo, WorktreeFailure, WorktreeInfo,
};
use termul_manager::commands::remote::bind_mode_or;
use termul_manager::paths::{non_empty_parent, strip_verbatim_prefix, validate_project_path};
use termul_manager::session_recovery::bridge::DaemonTerminalBridge;
use termul_manager::session_recovery::ipc::SupervisorRequest;
use termul_manager::session_recovery::registry::RecoveredSession;

fn text(s: &str) -> Option<String> {
    Some(s.to_string())
}

#[test]
fn report_comes_from_the_tab_it_names() {
    assert_eq!(validate_browser_tab_caller("tab-1", "tab-1"), Ok(()));
    assert_eq!(
        validate_browser_tab_caller("tab-2", "tab-1").unwrap_err(),
        "Browser tab command rejected: caller 'tab-2' does not match expected 'tab-1'"
    );
    assert!(browser_tab_report("a", "b", TabReport::Loaded).is_err());
}

#[test]
fn reports_become_events() {
    let url = browser_tab_report("t", "t", TabReport::Url("https://x".to_string())).unwrap();
    assert_eq!(url.name, "browser-tab-navigated");
    assert_eq!(
        url.fields,
        vec![
            ("browserTabId".to_string(), "t".to_string()),
            ("url".to_string(), "https://x".to_string()),
        ]
    );
    assert!(url.stale);
    let loaded = browser_tab_report("t", "t", TabReport::Loaded).unwrap();
    assert_eq!(loaded.name, "browser-tab-loaded");
    assert_eq!(loaded.fields.len(), 1);
    assert!(loaded.stale);
    let title = browser_tab_report("t", "t", TabReport::Title("T".to_string())).unwrap();
    assert_eq!(title.name, "browser-tab-title-changed");
    assert_eq!(title.fields[1].0, "title");
    assert!(!title.stale);
    let clicked = browser_tab_report("t", "t", TabReport::MarkerClicked("7".to_string())).unwrap();
    assert_eq!(clicked.name, "browser-tab-annotation-marker-clicked");
    assert_eq!(clicked.fields[1], ("annotationId".to_string(), "7".to_string()));
}

#[test]
fn captured_element_has_attributes() {
    assert_eq!(check_captured_element("t", "t", true), Ok(()));
    assert_eq!(
        check_captured_element("t", "t", false).unwrap_err(),
        "Browser tab report element captured rejected: attributes must be an object"
    );
    assert!(check_captured_element("u", "t", false)
        .unwrap_err()
        .contains("caller 'u'"));
}

fn ran(success: bool, stdout: &str, stderr: &str) -> GitRun {
    GitRun::Ran(GitOutput {
        success,
        stdout: stdout.to_string(),
        stderr: stderr.to_string(),
    })
}

#[test]
fn git_says_what_went_wrong() {
    assert_eq!(git_result(GitAction::Init, ran(true, "done", "")), Ok(()));
    assert_eq!(
        git_result(GitAction::Init, ran(false, "", "  fatal: no\n")).unwrap_err(),
        "fatal: no"
    );
    let cases = [
        (GitAction::Init, "git init", "git init"),
        (GitAction::StashPush, "git stash push", "git stash push"),
        (GitAction::StashApply, "git stash apply", "git stash apply"),
        (GitAction::StashPop, "git stash pop", "git stash pop"),
        (GitAction::StashDrop, "git stash drop", "git stash drop"),
        (GitAction::BranchSwitch, "git checkout", "git branch switch"),
        (GitAction::BranchCreate, "git checkout -b", "git branch create"),
    ];
    for (action, command, task) in cases {
        assert_eq!(
            git_result(action, GitRun::NotRun).unwrap_err(),
            format!("Failed to run {command}")
        );
        assert_eq!(
            git_result(action, GitRun::TaskFailed("gone".to_string())).unwrap_err(),
            format!("{task} task failed: gone")
        );
    }
    assert_eq!(git_stash_list(GitRun::NotRun).unwrap_err(), "Failed to run git stash list");
    assert_eq!(git_branch_list(GitRun::NotRun).unwrap_err(), "Failed to run git branch");
    assert_eq!(
        git_branch_list(GitRun::TaskFailed("x".to_string())).unwrap_err(),
        "git branch list task failed: x"
    );
}

#[test]
fn longer_git_work_says_what_went_wrong() {
    let cases = [
        (GitTask::Commit, "git commit task failed: x"),
        (GitTask::Push, "git push task failed: x"),
        (GitTask::Checkout, "git checkout task failed: x"),
        (GitTask::CreateBranch, "git create branch task failed: x"),
    ];
    for (task, expected) in cases {
        assert_eq!(task_result(task, Err("x".to_string())).unwrap_err(), expected);
        assert_eq!(task_result(task, Ok(Ok(()))), Ok(()));
        assert_eq!(task_result(task, Ok(Err("own".to_string()))).unwrap_err(), "own");
    }
}

#[test]
fn git_arguments() {
    assert_eq!(stash_push_args(None, None), vec!["stash", "push"]);
    assert_eq!(stash_push_args(None, Some(false)), vec!["stash", "push"]);
    assert_eq!(
        stash_push_args(text("wip"), Some(true)),
        vec!["stash", "push", "-u", "-m", "wip"]
    );
    assert_eq!(stash_args(StashVerb::Pop, 12), vec!["stash", "pop", "stash@{12}"]);
    assert_eq!(stash_args(StashVerb::Apply, 0), vec!["stash", "apply", "stash@{0}"]);
    assert_eq!(stash_args(StashVerb::Drop, 3)[1], "drop");
    assert_eq!(branch_list_args(), vec!["branch", "-a", "--format=%(refname:short)"]);
    assert_eq!(checkout_args("main", false), vec!["checkout", "main"]);
    assert_eq!(checkout_args("new", true), vec!["checkout", "-b", "new"]);
}

#[test]
fn stashes_are_listed() {
    let stdout = "stash@{0}: WIP on main: abc\r\nnoise\n  stash@{10} :  On x: y \nstash@{}: no\nstash@{-1}: no\nstash: no";
    assert!(stash_list_is_readable(stdout));
    let list = git_stash_list(ran(true, stdout, "")).unwrap();
    assert_eq!(list.len(), 2);
    assert_eq!(list[0].index, 0);
    assert_eq!(list[0].name, "stash@{0}");
    assert_eq!(list[0].message, "WIP on main: abc");
    assert_eq!(list[1].index, 10);
    assert_eq!(list[1].name, "stash@{10}");
    assert_eq!(list[1].message, "On x: y");
    assert!(git_stash_list(ran(false, "", " bad ")).unwrap_err() == "bad");
    assert!(!stash_list_is_readable("x}y{0: z"));
    assert!(stash_list_is_readable("no colon }{"));
    let huge = format!("stash@{{{}0}}: too large", usize::MAX);
    assert!(git_stash_list(ran(true, &huge, "")).unwrap().is_empty());
    assert_eq!(git_stash_list(ran(true, "s{+7}: m", "")).unwrap()[0].index, 7);
}

#[test]
fn branches_are_listed() {
    let list = git_branch_list(ran(true, "main\n\n  origin/main \n \t\nfeature", "")).unwrap();
    assert_eq!(list, vec!["main", "origin/main", "feature"]);
}

#[test]
fn secret_to_log_in_with() {
    let request = |password: Option<&str>| SSHConnectRequest {
        profile_id: "p".to_string(),
        password: password.map(str::to_string),
    };
    let found = |method: &str| {
        ProfileLookup::Found(Credentials {
            auth_method: method.to_string(),
            password: text("pw"),
            passphrase: text("phrase"),
        })
    };
    let secret = |r: Result<Option<String>, IpcResult<()>>| r.unwrap();
    assert_eq!(secret(prepare_connect(&request(Some("given")), found("key"))), text("given"));
    assert_eq!(secret(prepare_connect(&request(None), found("password"))), text("pw"));
    assert_eq!(secret(prepare_connect(&request(None), found("key"))), text("phrase"));
    assert_eq!(secret(prepare_connect(&request(None), found("agent"))), None);
    let missing: IpcResult<()> =
        prepare_connect(&request(None), ProfileLookup::Missing).unwrap_err();
    assert_eq!(missing.error.as_deref(), Some("Profile not found"));
    assert_eq!(missing.code.as_deref(), Some("SSH_PROFILE_NOT_FOUND"));
    let failed: IpcResult<()> =
        prepare_connect(&request(None), ProfileLookup::Failed("locked".to_string())).unwrap_err();
    assert_eq!(failed.error.as_deref(), Some("locked"));
    assert_eq!(failed.code.as_deref(), Some("SSH_PROFILE_ERROR"));
}

#[test]
fn ports_are_forwarded_over_a_connection() {
    let request = || SSHPortForwardRequest {
        connection_id: "c".to_string(),
        id: "f".to_string(),
        forward_type: "local".to_string(),
        local_port: 8080,
        remote_host: "db".to_string(),
        remote_port: 5432,
        label: text("db"),
    };
    let prepared: Result<_, IpcResult<()>> =
        prepare_port_forward(request(), ConnectionLookup::Found("session"));
    let (forward, session) = prepared.unwrap();
    assert_eq!(session, "session");
    assert_eq!((forward.local_port, forward.remote_port), (8080, 5432));
    assert_eq!(forward.remote_host, "db");
    let missing: IpcResult<()> =
        prepare_port_forward(request(), ConnectionLookup::<u8>::Missing).unwrap_err();
    assert_eq!(missing.error.as_deref(), Some("Connection not found"));
    assert_eq!(missing.code.as_deref(), Some("SSH_CONNECTION_NOT_FOUND"));
    let closed: ConnectionLookup<u8> = ConnectionLookup::NoSession("closed".to_string());
    let unusable: IpcResult<()> = prepare_port_forward(request(), closed).unwrap_err();
    assert_eq!(unusable.error.as_deref(), Some("closed"));
    assert_eq!(unusable.code.as_deref(), Some("SSH_CONNECTION_NOT_FOUND"));
}

#[test]
fn transfers_and_remote_files() {
    assert!(transfer_reply(Transfer::Upload, TransferOutcome::Done).success);
    let failed = transfer_reply(Transfer::Download, TransferOutcome::Failed("no".to_string()));
    assert_eq!(failed.error.as_deref(), Some("no"));
    assert_eq!(failed.code.as_deref(), Some("SFTP_DOWNLOAD_ERROR"));
    let task = transfer_reply(Transfer::Upload, TransferOutcome::TaskFailed("x".to_string()));
    assert_eq!(task.error.as_deref(), Some("Task failed: x"));
    assert_eq!(task.code.as_deref(), Some("SFTP_UPLOAD_ERROR"));
    let file = |content: Option<String>| SFTPFileRequest {
        connection_id: "c".to_string(),
        remote_path: "/p".to_string(),
        content,
    };
    assert_eq!(file(text("body")).content_to_write(), "body");
    assert_eq!(file(None).content_to_write(), "");
    let path = SFTPPathRequest { connection_id: "c".to_string(), remote_path: "/p".to_string() };
    let rename = SFTPRenameRequest {
        connection_id: path.connection_id,
        old_path: path.remote_path,
        new_path: "/q".to_string(),
    };
    let transfer = SFTPTransferRequest {
        connection_id: rename.connection_id,
        remote_path: rename.new_path,
        local_path: rename.old_path,
    };
    assert_eq!((transfer.remote_path.as_str(), transfer.local_path.as_str()), ("/q", "/p"));
}

fn options() -> SpawnOptions {
    SpawnOptions {
        shell: None,
        cwd: None,
        cols: None,
        rows: Some(50),
        program: text("htop"),
        args: Some(vec!["-d".to_string()]),
        env: Some(vec![("A".to_string(), "b".to_string())]),
    }
}

#[test]
fn new_terminal_runs_where_terminals_run() {
    let spec = spawn_spec(&options());
    assert_eq!((spec.cols, spec.rows), (80, 50));
    assert_eq!(spec.command, text("htop"));
    assert_eq!(spec.args, vec!["-d"]);
    assert_eq!(spec.env, vec![("A".to_string(), "b".to_string())]);
    assert!(matches!(route_spawn(false, &options()), SpawnRoute::InProcess));
    match (route_spawn(true, &options()), route_spawn(true, &options())) {
        (
            SpawnRoute::Daemon { terminal_id: a, spec: first },
            SpawnRoute::Daemon { terminal_id: b, .. },
        ) => {
            assert_ne!(a, b);
            assert_eq!(a.len(), 36);
            assert_eq!(&a[14..15], "4");
            assert_eq!(first, spec);
        }
        _ => panic!("terminals run in the daemon"),
    }
}

#[test]
fn new_terminal_is_told() {
    let told = terminal_spawn(options(), "id".to_string(), Ok(9)).data.unwrap();
    assert_eq!(told.id, "id");
    assert_eq!(told.shell, "/bin/sh");
    assert_eq!(told.cwd, "");
    assert_eq!((told.pid, told.cols, told.rows), (9, 80, 50));
    let failed = terminal_spawn(options(), "id".to_string(), Err("no daemon".to_string()));
    assert_eq!(failed.error.as_deref(), Some("no daemon"));
    assert_eq!(failed.code.as_deref(), Some("SPAWN_FAILED"));
}

#[test]
fn requests_go_to_the_daemon_for_its_terminals() {
    let mut bridge = DaemonTerminalBridge::new();
    bridge.spawn("t".to_string(), Ok(("s".to_string(), 1))).unwrap();
    assert_eq!(
        terminal_write(&bridge, "t", b"x".to_vec()),
        Some(SupervisorRequest::Write { session_id: "s".to_string(), data: b"x".to_vec() })
    );
    assert!(terminal_write(&bridge, "u", b"x".to_vec()).is_none());
    assert!(terminal_resize(&bridge, "u", 1, 2).is_none());
    assert_eq!(
        terminal_resize(&bridge, "t", 1, 2),
        Some(SupervisorRequest::Resize { session_id: "s".to_string(), cols: 1, rows: 2 })
    );
    assert!(terminal_kill(&mut bridge, "u").is_none());
    assert!(terminal_kill(&mut bridge, "t").is_some());
    assert!(terminal_write(&bridge, "t", b"x".to_vec()).is_none());
    let own = vec![RecoveredSession::terminal("own", 2)];
    assert_eq!(recovered_sessions_reply(vec![], own).data.unwrap().len(), 1);
}

#[test]
fn requests_carry_their_fields() {
    assert!(SetVisibilityRequest { is_visible: false }.hides());
    assert!(!SetVisibilityRequest { is_visible: true }.hides());
    let orphans = OrphanDetectionSettings { enabled: true, timeout_minutes: Some(5) };
    assert_eq!((orphans.enabled, orphans.timeout_minutes), (true, Some(5)));
    let renderer = RendererRefRequest { terminal_id: "t".to_string(), renderer_id: "r".to_string() };
    assert_eq!(format!("{}{}", renderer.terminal_id, renderer.renderer_id), "tr");
    let kept = SetTerminalProtectedRequest { terminal_id: "t".to_string(), protected: true };
    assert!(kept.protected);
    assert_eq!(RollbackRequest { version: "2".to_string() }.version, "2");
}

#[test]
fn worktrees_are_told() {
    let entry = |name: &str| GitWorktreeEntry {
        name: name.to_string(),
        branch: "b".to_string(),
        path: "/p".to_string(),
        head_commit: "c".to_string(),
    };
    let told = worktree_list(vec![entry("one"), entry("two")]);
    assert_eq!(told.len(), 2);
    assert_eq!(told[1].name, "two");
    assert_eq!(WorktreeInfo::from(entry("x")).head_commit, "c");
    let branches = worktree_branches(vec![BranchEntry {
        name: "main".to_string(),
        is_remote: false,
        is_current: true,
        upstream: text("origin/main"),
        has_other_worktree: true,
    }]);
    assert_eq!(branches[0].upstream, text("origin/main"));
    let info: &BranchInfo = &branches[0];
    assert!(info.is_current && info.has_other_worktree && !info.is_remote);
}

#[test]
fn worktree_replies() {
    let failure = || WorktreeFailure { message: "dirty".to_string(), code: "DIRTY".to_string() };
    let refused: IpcResult<u8> = worktree_reply(Err("Invalid".to_string()), Ok(1));
    assert_eq!(refused.code.as_deref(), Some("PATH_VALIDATION_FAILED"));
    let failed: IpcResult<u8> = worktree_reply(Ok("/p".to_string()), Err(failure()));
    assert_eq!(failed.error.as_deref(), Some("dirty"));
    assert_eq!(failed.code.as_deref(), Some("DIRTY"));
    assert_eq!(worktree_reply(Ok("/p".to_string()), Ok(1)).data, Some(1));
}

#[test]
fn directories_to_link_are_a_list() {
    assert_eq!(
        symlink_dirs("[\"node_modules\", \"d\\u0069st\"]").unwrap(),
        vec!["node_modules", "dist"]
    );
    assert!(symlink_dirs("[]").unwrap().is_empty());
    let failure = symlink_dirs("[1]").unwrap_err();
    assert!(failure.message.starts_with("Failed to parse symlink_dirs: invalid type: integer `1`"));
    assert_eq!(failure.code, "PARSE_FAILED");
    assert_eq!(
        parsed_symlink_dirs(Err("why".to_string())).unwrap_err().message,
        "Failed to parse symlink_dirs: why"
    );
    assert_eq!(parsed_symlink_dirs(Ok(vec!["d".to_string()])).unwrap(), vec!["d"]);
}

#[test]
fn what_is_told_of_a_merge() {
    let preview = MergePreviewInfo {
        direction: "into".to_string(),
        source_branch: "a".to_string(),
        target_branch: "b".to_string(),
        conflict_files: vec![ConflictFileInfo {
            path: "Cargo.lock".to_string(),
            severity: "low".to_string(),
            conflict_count: 1,
            is_lock_file: true,
        }],
        changed_files: vec!["x".to_string()],
        total_changes: 1,
        detection_mode: "tree".to_string(),
    };
    assert!(preview.conflict_files[0].is_lock_file);
    let ignored = GitignoreDirInfo { dir_name: "dist".to_string(), exists: true };
    let linked = SymlinkResultInfo {
        path: ignored.dir_name,
        target: "t".to_string(),
        status: "created".to_string(),
        reason: None,
    };
    assert_eq!(linked.path, "dist");
}

#[test]
fn helper_files() {
    assert_eq!(askpass_id("0a1b2c3d-ffff"), "0a1b2c3d");
    assert_eq!(askpass_id("plain"), "plain");
    let id = fresh_askpass_id();
    assert_eq!(id.len(), 8);
    assert!(id.chars().all(|c| c.is_ascii_hexdigit()));
    assert_ne!(id, fresh_askpass_id());
    assert_eq!(data_file_name("x"), "termul-askpass-x.dat");
    assert_eq!(script_file_name(HelperSystem::Unix, "x"), "termul-askpass-x.sh");
    assert_eq!(script_file_name(HelperSystem::Windows, "x"), "termul-askpass-x.bat");
    assert_eq!(
        script_content(HelperSystem::Unix, "/t/d"),
        "#!/bin/sh\ncat \"/t/d\"\nrm -f \"/t/d\" \"$0\"\n"
    );
    assert_eq!(
        script_content(HelperSystem::Windows, "C:\\d"),
        "@echo off\r\ntype \"C:\\d\"\r\ndel /q \"C:\\d\" >nul 2>&1\r\n(goto) 2>nul & del /q \"%~f0\" >nul 2>&1\r\n"
    );
}

fn make_helper(system: HelperSystem, failing: Option<HelperStep>) -> (Vec<HelperStep>, IpcResult<String>) {
    let mut helper = AskpassHelper::new(system, "/t/s".to_string());
    let mut steps = Vec::new();
    loop {
        if let Some(reply) = helper.reply() {
            return (steps, reply);
        }
        let step = helper.step();
        steps.push(step);
        if failing == Some(step) {
            helper.advance(Err("full".to_string()));
        } else {
            helper.advance(Ok(()));
        }
    }
}

#[test]
fn helper_is_made() {
    let (steps, reply) = make_helper(HelperSystem::Unix, None);
    assert_eq!(
        steps,
        vec![
            HelperStep::WriteData,
            HelperStep::RestrictData,
            HelperStep::WriteScript,
            HelperStep::AllowScript,
            HelperStep::ScheduleCleanup,
        ]
    );
    assert_eq!(reply.data.as_deref(), Some("/t/s"));
    let (steps, _) = make_helper(HelperSystem::Windows, Some(HelperStep::RestrictData));
    assert!(!steps.contains(&HelperStep::AllowScript));
    assert_eq!(steps.last(), Some(&HelperStep::ScheduleCleanup));
}

#[test]
fn helper_that_fails_leaves_no_password() {
    let cases = [
        (HelperStep::WriteData, HelperStep::WriteData, "Failed to create askpass data: full"),
        (HelperStep::WriteScript, HelperStep::RemoveData, "Failed to create askpass: full"),
        (
            HelperStep::AllowScript,
            HelperStep::RemoveBoth,
            "Failed to set askpass permissions: full",
        ),
    ];
    for (failing, last, error) in cases {
        let (steps, reply) = make_helper(HelperSystem::Unix, Some(failing));
        assert_eq!(steps.last(), Some(&last));
        assert_eq!(reply.error.as_deref(), Some(error));
        assert_eq!(reply.code.as_deref(), Some("SSH_ASKPASS_ERROR"));
    }
}

#[test]
fn paths_are_made_fit_for_tools() {
    assert_eq!(strip_verbatim_prefix("\\\\?\\C:\\x"), "C:\\x");
    assert_eq!(strip_verbatim_prefix("/home/é"), "/home/é");
    assert_eq!(strip_verbatim_prefix("\\\\?\\UNC\\srv\\share"), "\\\\?\\UNC\\srv\\share");
    assert_eq!(strip_verbatim_prefix("\\\\?\\UNC"), "UNC");
    assert_eq!(strip_verbatim_prefix("\\\\srv\\share"), "\\\\srv\\share");
    assert_eq!(validate_project_path(Ok("\\\\?\\D:\\p".to_string())), Ok("D:\\p".to_string()));
    assert_eq!(
        validate_project_path(Err("not found".to_string())).unwrap_err(),
        "Invalid or inaccessible path: not found"
    );
    let canonical_of = |path: &str| {
        Ok(format!("\\\\?\\{}", path.trim_start_matches("\\\\?\\")))
    };
    let once = validate_project_path(canonical_of("D:\\p")).unwrap();
    assert_eq!(validate_project_path(canonical_of(&once)), Ok(once.clone()));
    assert_eq!(once, "D:\\p");
    assert_eq!(non_empty_parent(Some("")), None);
    assert_eq!(non_empty_parent(Some("/d")), Some("/d"));
    assert_eq!(non_empty_parent(None), None);
}

#[test]
fn password_stands_in_its_file_only() {
    let steps = [
        HelperStep::WriteData,
        HelperStep::RestrictData,
        HelperStep::WriteScript,
        HelperStep::AllowScript,
        HelperStep::RemoveData,
        HelperStep::RemoveBoth,
        HelperStep::ScheduleCleanup,
        HelperStep::Finished,
    ];
    for system in [HelperSystem::Unix, HelperSystem::Windows] {
        for step in steps {
            let written = step.writes(system, "/t/d", "p\u{e4}ss");
            match step {
                HelperStep::WriteData => {
                    assert_eq!(written, Some(vec![b'p', 0xc3, 0xa4, b's', b's']))
                }
                HelperStep::WriteScript => assert_eq!(
                    written,
                    Some(script_content(system, "/t/d").into_bytes())
                ),
                _ => assert!(written.is_none()),
            }
            if step != HelperStep::WriteData {
                assert_eq!(written, step.writes(system, "/t/d", "other"));
            }
        }
    }
    assert_eq!(HelperStep::RestrictData.permissions(), Some(0o600));
    assert_eq!(HelperStep::AllowScript.permissions(), Some(0o700));
    assert_eq!(HelperStep::WriteData.permissions(), None);
    assert_eq!(HelperStep::WriteScript.permissions(), None);
}

#[test]
fn unknown_bind_mode_is_localhost() {
    let parse = |name: &str| match name {
        "localhost" => Some(0),
        "lan" => Some(1),
        _ => None,
    };
    assert_eq!(bind_mode_or(Some("lan").and_then(parse), 0), 1);
    assert_eq!(bind_mode_or(Some("nowhere").and_then(parse), 0), 0);
    assert_eq!(bind_mode_or(None.and_then(parse), 0), 0);
}
