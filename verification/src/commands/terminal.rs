//! Terminals: which run in the daemon and which in this process.

use crate::commands::reply::{reply, Command, IpcResult};
use crate::outside::{is_random_uuid, random_uuid};
use crate::session_recovery::bridge::DaemonTerminalBridge;
use crate::session_recovery::client::terminal_list_recovered_sessions;
use crate::session_recovery::ipc::{
    copy_pairs, RequestModel, SpawnSpec, SpecModel, SupervisorRequest,
};
use crate::session_recovery::registry::RecoveredSession;
use crate::text::{copy_list, copy_option};
use vstd::prelude::*;

verus! {

/// Whether the window can be seen.
#[derive(Debug, Clone)]
pub struct SetVisibilityRequest {
    pub is_visible: bool,
}

impl SetVisibilityRequest {
    /// Whether the terminals are hidden from now on.
    pub fn hides(&self) -> (r: bool)
        ensures
            r == !self.is_visible,
    {
        !self.is_visible
    }
}

/// Whether, and after how many minutes, terminals that nobody shows are ended.
#[derive(Debug, Clone)]
pub struct OrphanDetectionSettings {
    pub enabled: bool,
    pub timeout_minutes: Option<u64>,
}

/// A view that shows a terminal, or does no longer.
#[derive(Debug, Clone)]
pub struct RendererRefRequest {
    pub terminal_id: String,
    pub renderer_id: String,
}

/// Whether a terminal is kept though nobody shows it.
#[derive(Debug, Clone)]
pub struct SetTerminalProtectedRequest {
    pub terminal_id: String,
    pub protected: bool,
}

/// What the window asks of a new terminal.
#[derive(Debug, Clone)]
pub struct SpawnOptions {
    pub shell: Option<String>,
    pub cwd: Option<String>,
    pub cols: Option<u16>,
    pub rows: Option<u16>,
    pub program: Option<String>,
    pub args: Option<Vec<String>>,
    pub env: Option<Vec<(String, String)>>,
}

/// What the window is told of a terminal.
#[derive(Debug, Clone)]
pub struct TerminalInfo {
    pub id: String,
    pub shell: String,
    pub cwd: String,
    pub pid: u32,
    pub cols: u16,
    pub rows: u16,
}

/// The columns of a new terminal: those asked for, else 80.
pub open spec fn wanted_cols(options: SpawnOptions) -> u16 {
    match options.cols {
        Some(cols) => cols,
        None => 80,
    }
}

/// The rows of a new terminal: those asked for, else 24.
pub open spec fn wanted_rows(options: SpawnOptions) -> u16 {
    match options.rows {
        Some(rows) => rows,
        None => 24,
    }
}

/// What the daemon is asked to start for a terminal.
pub open spec fn spec_for(options: SpawnOptions) -> SpecModel {
    SpecModel {
        shell: options.shell.deep_view(),
        cwd: options.cwd.deep_view(),
        cols: wanted_cols(options),
        rows: wanted_rows(options),
        command: options.program.deep_view(),
        args: match options.args {
            Some(args) => args.deep_view(),
            None => Seq::empty(),
        },
        env: match options.env {
            Some(env) => env.deep_view(),
            None => Seq::empty(),
        },
    }
}

/// What the daemon is asked to start for a terminal.
pub fn spawn_spec(options: &SpawnOptions) -> (r: SpawnSpec)
    ensures
        r.deep_view() == spec_for(*options),
{
    let cols: u16 = match options.cols {
        Some(cols) => cols,
        None => 80,
    };
    let rows: u16 = match options.rows {
        Some(rows) => rows,
        None => 24,
    };
    let args: Vec<String> = match &options.args {
        Some(args) => copy_list(args),
        None => Vec::new(),
    };
    let env: Vec<(String, String)> = match &options.env {
        Some(env) => copy_pairs(env),
        None => Vec::new(),
    };
    assert(args.deep_view() =~= spec_for(*options).args);
    assert(env.deep_view() =~= spec_for(*options).env);
    SpawnSpec {
        shell: copy_option(&options.shell),
        cwd: copy_option(&options.cwd),
        cols,
        rows,
        command: copy_option(&options.program),
        args,
        env,
    }
}

/// Where a new terminal runs.
#[derive(Debug, Clone)]
pub enum SpawnRoute {
    /// In the daemon, under this id.
    Daemon { terminal_id: String, spec: SpawnSpec },
    /// In this process.
    InProcess,
}

/// Where a new terminal runs: in the daemon, under a random id, just where
/// terminals run in the daemon.
pub fn route_spawn(daemon_terminals: bool, options: &SpawnOptions) -> (r: SpawnRoute)
    ensures
        r is Daemon <==> daemon_terminals,
        r matches SpawnRoute::Daemon { terminal_id, spec } ==> is_random_uuid(terminal_id@)
            && spec.deep_view() == spec_for(*options),
{
    if daemon_terminals {
        SpawnRoute::Daemon { terminal_id: random_uuid(), spec: spawn_spec(options) }
    } else {
        SpawnRoute::InProcess
    }
}

/// The reply for a terminal that was to run in the daemon: what the window is
/// told of it, or why it does not run. It is not started in this process
/// instead.
pub fn terminal_spawn(
    options: SpawnOptions,
    terminal_id: String,
    outcome: Result<u32, String>,
) -> (r: IpcResult<TerminalInfo>)
    ensures
        r.well_formed(),
        match outcome {
            Ok(pid) => r.success && (r.data matches Some(info) && info.id == terminal_id
                && info.shell@ == (match options.shell {
                Some(shell) => shell@,
                None => "/bin/sh"@,
            }) && info.cwd@ == (match options.cwd {
                Some(cwd) => cwd@,
                None => Seq::<char>::empty(),
            }) && info.pid == pid && info.cols == wanted_cols(options) && info.rows == wanted_rows(
                options,
            )),
            Err(error) => r.fails_with(error@, "SPAWN_FAILED"@),
        },
{
    match outcome {
        Ok(pid) => {
            let cols: u16 = match options.cols {
                Some(cols) => cols,
                None => 80,
            };
            let rows: u16 = match options.rows {
                Some(rows) => rows,
                None => 24,
            };
            let shell = match options.shell {
                Some(shell) => shell,
                None => "/bin/sh".to_string(),
            };
            let cwd = match options.cwd {
                Some(cwd) => cwd,
                None => String::new(),
            };
            IpcResult::success(TerminalInfo { id: terminal_id, shell, cwd, pid, cols, rows })
        },
        Err(error) => reply(Command::TerminalSpawn, Err(error)),
    }
}

/// What to ask the daemon in order to write `data` to a terminal; `None` where
/// the terminal runs in this process.
pub fn terminal_write(bridge: &DaemonTerminalBridge, terminal_id: &str, data: Vec<u8>) -> (r:
    Option<SupervisorRequest>)
    requires
        bridge.well_formed(),
    ensures
        r is Some <==> bridge@.dom().contains(terminal_id@),
        r matches Some(request) ==> request.deep_view() == (RequestModel::Write {
            session_id: bridge@[terminal_id@].session_id,
            data: data@,
        }),
{
    match bridge.write(terminal_id, data) {
        Ok(request) => Some(request),
        Err(_) => None,
    }
}

/// What to ask the daemon in order to give a terminal another size; `None`
/// where the terminal runs in this process.
pub fn terminal_resize(
    bridge: &DaemonTerminalBridge,
    terminal_id: &str,
    cols: u16,
    rows: u16,
) -> (r: Option<SupervisorRequest>)
    requires
        bridge.well_formed(),
    ensures
        r is Some <==> bridge@.dom().contains(terminal_id@),
        r matches Some(request) ==> request.deep_view() == (RequestModel::Resize {
            session_id: bridge@[terminal_id@].session_id,
            cols,
            rows,
        }),
{
    match bridge.resize(terminal_id, cols, rows) {
        Ok(request) => Some(request),
        Err(_) => None,
    }
}

/// What to ask the daemon in order to end a terminal, which is forgotten;
/// `None` where the terminal runs in this process.
pub fn terminal_kill(bridge: &mut DaemonTerminalBridge, terminal_id: &str) -> (r: Option<
    SupervisorRequest,
>)
    requires
        old(bridge).well_formed(),
    ensures
        final(bridge).well_formed(),
        final(bridge)@ == old(bridge)@.remove(terminal_id@),
        r is Some <==> old(bridge)@.dom().contains(terminal_id@),
        r matches Some(request) ==> request.deep_view() == (RequestModel::Kill {
            session_id: old(bridge)@[terminal_id@].session_id,
        }),
{
    bridge.kill(terminal_id)
}

/// The reply to the question for sessions that can be recovered: those of the
/// daemon, or, where it has none, those that this process knows of itself.
pub fn recovered_sessions_reply(
    daemon: Vec<RecoveredSession>,
    own: Vec<RecoveredSession>,
) -> (r: IpcResult<Vec<RecoveredSession>>)
    ensures
        r.well_formed(),
        r.succeeds_with(
            if daemon@.len() > 0 {
                daemon
            } else {
                own
            },
        ),
{
    IpcResult::success(terminal_list_recovered_sessions(daemon, own))
}

// ==================== Laws ====================

/// What the window is told of a terminal in the daemon is the room that was
/// asked for it.
pub proof fn law_terminal_has_the_room_asked_for(options: SpawnOptions)
    ensures
        spec_for(options).cols == wanted_cols(options),
        spec_for(options).rows == wanted_rows(options),
        options.cols is None ==> wanted_cols(options) == 80,
        options.rows is None ==> wanted_rows(options) == 24,
{
}

/// The daemon is asked to start what the window asked for: the program, the
/// shell, the directory, every argument and every value of the environment, in
/// order; in the room asked for, or in 80 columns and 24 rows.
pub proof fn law_daemon_is_asked_for_what_the_window_wants(options: SpawnOptions)
    ensures
        ({
            let spec = spec_for(options);
            &&& spec.shell == options.shell.deep_view()
            &&& spec.cwd == options.cwd.deep_view()
            &&& spec.command == options.program.deep_view()
            &&& options.cols is Some ==> spec.cols == options.cols->0
            &&& options.cols is None ==> spec.cols == 80
            &&& options.rows is Some ==> spec.rows == options.rows->0
            &&& options.rows is None ==> spec.rows == 24
            &&& options.args is None ==> spec.args.len() == 0
            &&& options.args is Some ==> spec.args.len() == options.args->0@.len()
            &&& options.args is Some ==> forall|i: int|
                0 <= i < options.args->0@.len() ==> #[trigger] spec.args[i] == options.args->0@[i]@
            &&& options.env is None ==> spec.env.len() == 0
            &&& options.env is Some ==> spec.env.len() == options.env->0@.len()
            &&& options.env is Some ==> forall|i: int|
                0 <= i < options.env->0@.len() ==> #[trigger] spec.env[i] == (
                    options.env->0@[i].0@,
                    options.env->0@[i].1@,
                )
        }),
        options.cols is Some ==> wanted_cols(options) == options.cols->0,
        options.rows is Some ==> wanted_rows(options) == options.rows->0,
{
}

} // verus!
