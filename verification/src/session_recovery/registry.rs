//! The registry of sessions that is kept on disk.

use crate::text::concat3;
use vstd::prelude::*;

verus! {

/// The version of the registry's layout.
pub const SESSION_REGISTRY_SCHEMA_VERSION: u32 = 1;

/// How the last run ended.
#[derive(Debug, Clone, Copy, PartialEq, Eq, Structural)]
pub enum LastShutdown {
    Clean,
    KeepRunning,
    CrashedOrUnknown,
}

/// What a start finds of the last run.
#[derive(Debug, Clone, Copy, PartialEq, Eq, Structural)]
pub enum StartupRecoveryState {
    Clean,
    KeepRunning,
    CrashedOrUnknown,
}

/// What a session is.
#[derive(Debug, Clone, Copy, PartialEq, Eq, Structural)]
pub enum RecoveredSessionKind {
    Terminal,
    Acp,
    Ssh,
    Browser,
    Editor,
}

/// What has become of a session.
#[derive(Debug, Clone, Copy, PartialEq, Eq, Structural)]
pub enum RecoveredSessionStatus {
    Running,
    Exited,
    Detached,
    Lost,
}

/// A session as it is recorded.
#[derive(Debug, Clone)]
pub struct RecoveredSession {
    pub session_id: String,
    pub kind: RecoveredSessionKind,
    pub status: RecoveredSessionStatus,
    pub pid: Option<u32>,
    pub process_group_id: Option<u32>,
    pub command: Option<String>,
    pub args: Vec<String>,
    pub shell: Option<String>,
    pub cwd: Option<String>,
    pub cols: Option<u16>,
    pub rows: Option<u16>,
    pub scrollback_journal_path: Option<String>,
    pub exit_code: Option<i32>,
    pub recovery_reason: Option<String>,
}

/// A recorded session as a mathematical value.
pub struct RecoveredModel {
    pub session_id: Seq<char>,
    pub kind: RecoveredSessionKind,
    pub status: RecoveredSessionStatus,
    pub pid: Option<u32>,
    pub process_group_id: Option<u32>,
    pub command: Option<Seq<char>>,
    pub args: Seq<Seq<char>>,
    pub shell: Option<Seq<char>>,
    pub cwd: Option<Seq<char>>,
    pub cols: Option<u16>,
    pub rows: Option<u16>,
    pub scrollback_journal_path: Option<Seq<char>>,
    pub exit_code: Option<i32>,
    pub recovery_reason: Option<Seq<char>>,
}

impl DeepView for RecoveredSession {
    type V = RecoveredModel;

    open spec fn deep_view(&self) -> RecoveredModel {
        RecoveredModel {
            session_id: self.session_id@,
            kind: self.kind,
            status: self.status,
            pid: self.pid,
            process_group_id: self.process_group_id,
            command: self.command.deep_view(),
            args: self.args.deep_view(),
            shell: self.shell.deep_view(),
            cwd: self.cwd.deep_view(),
            cols: self.cols,
            rows: self.rows,
            scrollback_journal_path: self.scrollback_journal_path.deep_view(),
            exit_code: self.exit_code,
            recovery_reason: self.recovery_reason.deep_view(),
        }
    }
}

/// A running terminal of which only its id and its process are known.
pub open spec fn bare_terminal(session_id: Seq<char>, pid: u32) -> RecoveredModel {
    RecoveredModel {
        session_id,
        kind: RecoveredSessionKind::Terminal,
        status: RecoveredSessionStatus::Running,
        pid: Some(pid),
        process_group_id: Some(pid),
        command: None,
        args: Seq::empty(),
        shell: None,
        cwd: None,
        cols: None,
        rows: None,
        scrollback_journal_path: None,
        exit_code: None,
        recovery_reason: None,
    }
}

impl RecoveredSession {
    /// A running terminal of which only its id and its process are known.
    pub fn terminal(session_id: &str, pid: u32) -> (r: Self)
        ensures
            r.deep_view() == bare_terminal(session_id@, pid),
    {
        let args: Vec<String> = Vec::new();
        assert(args.deep_view() =~= Seq::<Seq<char>>::empty());
        RecoveredSession {
            session_id: session_id.to_string(),
            kind: RecoveredSessionKind::Terminal,
            status: RecoveredSessionStatus::Running,
            pid: Some(pid),
            process_group_id: Some(pid),
            command: None,
            args,
            shell: None,
            cwd: None,
            cols: None,
            rows: None,
            scrollback_journal_path: None,
            exit_code: None,
            recovery_reason: None,
        }
    }
}

/// The registry: who wrote it, how that run ended, and its sessions.
#[derive(Debug, Clone)]
pub struct SessionRegistry {
    pub schema_version: u32,
    pub supervisor_pid: u32,
    pub last_shutdown: LastShutdown,
    pub last_heartbeat_at_ms: u64,
    pub sessions: Vec<RecoveredSession>,
}

/// The registry as a mathematical value.
pub struct RegistryModel {
    pub schema_version: u32,
    pub supervisor_pid: u32,
    pub last_shutdown: LastShutdown,
    pub last_heartbeat_at_ms: u64,
    pub sessions: Seq<RecoveredModel>,
}

impl DeepView for SessionRegistry {
    type V = RegistryModel;

    open spec fn deep_view(&self) -> RegistryModel {
        RegistryModel {
            schema_version: self.schema_version,
            supervisor_pid: self.supervisor_pid,
            last_shutdown: self.last_shutdown,
            last_heartbeat_at_ms: self.last_heartbeat_at_ms,
            sessions: self.sessions.deep_view(),
        }
    }
}

/// The registry of a first run: nothing recorded, and nothing to recover.
pub open spec fn empty_registry(supervisor_pid: u32) -> RegistryModel {
    RegistryModel {
        schema_version: SESSION_REGISTRY_SCHEMA_VERSION,
        supervisor_pid,
        last_shutdown: LastShutdown::Clean,
        last_heartbeat_at_ms: 0,
        sessions: Seq::empty(),
    }
}

/// What a start finds, by how the last run ended.
pub open spec fn startup_state(last_shutdown: LastShutdown) -> StartupRecoveryState {
    match last_shutdown {
        LastShutdown::Clean => StartupRecoveryState::Clean,
        LastShutdown::KeepRunning => StartupRecoveryState::KeepRunning,
        LastShutdown::CrashedOrUnknown => StartupRecoveryState::CrashedOrUnknown,
    }
}

/// The session, lost: its process was not found.
pub open spec fn lost(session: RecoveredModel) -> RecoveredModel {
    RecoveredModel {
        status: RecoveredSessionStatus::Lost,
        recovery_reason: Some("process_not_found"@),
        ..session
    }
}

/// Whether what has become of the session depends on its process being alive:
/// it is recorded as running, with a process.
pub open spec fn awaits_liveness(session: RecoveredModel) -> bool {
    session.status == RecoveredSessionStatus::Running && session.pid is Some
}

/// The sessions where `alive` says which processes are alive: those that are
/// recorded as running with a process that is not alive are lost, the others
/// stay as they are.
pub open spec fn lost_marked(sessions: Seq<RecoveredModel>, alive: spec_fn(u32) -> bool) -> Seq<
    RecoveredModel,
> {
    sessions.map_values(
        |session: RecoveredModel|
            if awaits_liveness(session) && !alive(session.pid->0) {
                lost(session)
            } else {
                session
            },
    )
}

/// What looking for a registry on disk gave.
#[derive(Debug, Clone)]
pub enum RegistryRead {
    /// The file could not be read, for this reason.
    Unreadable(String),
    /// The file was read and is no registry, for this reason.
    Unparsable(String),
    /// The registry in the file.
    Parsed(SessionRegistry),
}

impl SessionRegistry {
    /// The registry of a first run.
    pub fn new(supervisor_pid: u32) -> (r: Self)
        ensures
            r.deep_view() == empty_registry(supervisor_pid),
    {
        let sessions: Vec<RecoveredSession> = Vec::new();
        assert(sessions.deep_view() =~= Seq::<RecoveredModel>::empty());
        SessionRegistry {
            schema_version: SESSION_REGISTRY_SCHEMA_VERSION,
            supervisor_pid,
            last_shutdown: LastShutdown::Clean,
            last_heartbeat_at_ms: 0,
            sessions,
        }
    }

    /// What a start finds of the last run. Only how that run ended counts, not
    /// who runs now nor what time it is.
    pub fn classify_startup(&self, _current_supervisor_pid: u32, _now_ms: u64) -> (r:
        StartupRecoveryState)
        ensures
            r == startup_state(self.last_shutdown),
    {
        match self.last_shutdown {
            LastShutdown::Clean => StartupRecoveryState::Clean,
            LastShutdown::KeepRunning => StartupRecoveryState::KeepRunning,
            LastShutdown::CrashedOrUnknown => StartupRecoveryState::CrashedOrUnknown,
        }
    }

    /// Marks as lost the sessions that are recorded as running and whose
    /// process is not alive, as `is_pid_alive` answers for each of them.
    pub fn mark_lost_sessions(&mut self, is_pid_alive: &impl Fn(u32) -> bool)
        requires
            forall|pid: u32| call_requires(is_pid_alive, (pid,)),
        ensures
            final(self).schema_version == old(self).schema_version,
            final(self).supervisor_pid == old(self).supervisor_pid,
            final(self).last_shutdown == old(self).last_shutdown,
            final(self).last_heartbeat_at_ms == old(self).last_heartbeat_at_ms,
            final(self).sessions.len() == old(self).sessions.len(),
            forall|i: int|
                0 <= i < old(self).sessions.len() ==> {
                    let before = old(self).sessions@[i].deep_view();
                    let after = #[trigger] final(self).sessions@[i].deep_view();
                    if awaits_liveness(before) {
                        exists|answer: bool|
                            #[trigger] call_ensures(is_pid_alive, (before.pid->0,), answer)
                                && after == (if answer {
                                before
                            } else {
                                lost(before)
                            })
                    } else {
                        after == before
                    }
                },
            forall|alive: spec_fn(u32) -> bool|
                (forall|pid: u32, answer: bool|
                    call_ensures(is_pid_alive, (pid,), answer) ==> answer == alive(pid))
                    ==> final(self).sessions.deep_view() == #[trigger] lost_marked(
                    old(self).sessions.deep_view(),
                    alive,
                ),
    {
        let ghost before = self.sessions@;
        let mut i: usize = 0;
        while i < self.sessions.len()
            invariant
                i <= self.sessions.len(),
                forall|pid: u32| call_requires(is_pid_alive, (pid,)),
                self.schema_version == old(self).schema_version,
                self.supervisor_pid == old(self).supervisor_pid,
                self.last_shutdown == old(self).last_shutdown,
                self.last_heartbeat_at_ms == old(self).last_heartbeat_at_ms,
                before == old(self).sessions@,
                self.sessions.len() == before.len(),
                forall|j: int| i <= j < before.len() ==> self.sessions@[j] == before[j],
                forall|j: int|
                    0 <= j < i ==> {
                        let was = before[j].deep_view();
                        let is = #[trigger] self.sessions@[j].deep_view();
                        if awaits_liveness(was) {
                            exists|answer: bool|
                                #[trigger] call_ensures(is_pid_alive, (was.pid->0,), answer)
                                    && is == (if answer {
                                    was
                                } else {
                                    lost(was)
                                })
                        } else {
                            is == was
                        }
                    },
            decreases self.sessions.len() - i,
        {
            if self.sessions[i].status == RecoveredSessionStatus::Running {
                if let Some(pid) = self.sessions[i].pid {
                    let answer = is_pid_alive(pid);
                    if !answer {
                        self.sessions[i].status = RecoveredSessionStatus::Lost;
                        self.sessions[i].recovery_reason = Some("process_not_found".to_string());
                    }
                    assert(call_ensures(is_pid_alive, (before[i as int].deep_view().pid->0,), answer));
                }
            }
            i += 1;
        }
        proof {
            assert forall|alive: spec_fn(u32) -> bool|
                (forall|pid: u32, answer: bool|
                    call_ensures(is_pid_alive, (pid,), answer) ==> answer == alive(
                        pid,
                    )) implies #[trigger] lost_marked(old(self).sessions.deep_view(), alive)
                == self.sessions.deep_view() by {
                let marked = lost_marked(old(self).sessions.deep_view(), alive);
                assert forall|j: int| 0 <= j < before.len() implies marked[j]
                    == self.sessions.deep_view()[j] by {
                    let was = before[j].deep_view();
                    let is = self.sessions@[j].deep_view();
                    if awaits_liveness(was) {
                        let answer = choose|answer: bool|
                            #[trigger] call_ensures(is_pid_alive, (was.pid->0,), answer) && is
                                == (if answer {
                                was
                            } else {
                                lost(was)
                            });
                        assert(answer == alive(was.pid->0));
                    }
                }
                assert(marked =~= self.sessions.deep_view());
            }
        }
    }

    /// The registry in a file that was found at `path`, or why there is none.
    pub fn load(path: &str, read: RegistryRead) -> (r: Result<Self, String>)
        ensures
            match read {
                RegistryRead::Unreadable(reason) => r matches Err(text) && text@
                    == "failed to read session registry "@ + path@ + ": "@ + reason@,
                RegistryRead::Unparsable(reason) => r matches Err(text) && text@
                    == "failed to parse session registry "@ + path@ + ": "@ + reason@,
                RegistryRead::Parsed(registry) => r == Ok::<Self, String>(registry),
            },
    {
        match read {
            RegistryRead::Unreadable(reason) => {
                let mut text = concat3("failed to read session registry ", path, ": ");
                text.append(&reason);
                Err(text)
            },
            RegistryRead::Unparsable(reason) => {
                let mut text = concat3("failed to parse session registry ", path, ": ");
                text.append(&reason);
                Err(text)
            },
            RegistryRead::Parsed(registry) => Ok(registry),
        }
    }

    /// The registry at `path`, or that of a first run where there is no such
    /// file: `found` is what reading the file gave, `None` where there is none.
    pub fn load_or_new(path: &str, found: Option<RegistryRead>, supervisor_pid: u32) -> (r: Result<
        Self,
        String,
    >)
        ensures
            match found {
                None => r matches Ok(registry) && registry.deep_view() == empty_registry(
                    supervisor_pid,
                ),
                Some(RegistryRead::Unreadable(reason)) => r matches Err(text) && text@
                    == "failed to read session registry "@ + path@ + ": "@ + reason@,
                Some(RegistryRead::Unparsable(reason)) => r matches Err(text) && text@
                    == "failed to parse session registry "@ + path@ + ": "@ + reason@,
                Some(RegistryRead::Parsed(registry)) => r == Ok::<Self, String>(registry),
            },
    {
        match found {
            Some(read) => Self::load(path, read),
            None => Ok(Self::new(supervisor_pid)),
        }
    }
}

// ==================== Laws ====================

/// Who supervises now and how old the last heartbeat is do not change what a
/// start finds: two registries of runs that ended alike are classified alike.
pub proof fn law_startup_depends_on_last_shutdown_alone(a: RegistryModel, b: RegistryModel)
    ensures
        startup_state(a.last_shutdown) == startup_state(b.last_shutdown) <==> a.last_shutdown
            == b.last_shutdown,
{
}

/// A registry that was never closed, or was closed cleanly, needs no recovery;
/// only a run that ended cleanly is found clean.
pub proof fn law_first_run_needs_no_recovery(supervisor_pid: u32, registry: RegistryModel)
    ensures
        startup_state(empty_registry(supervisor_pid).last_shutdown) == StartupRecoveryState::Clean,
        startup_state(registry.last_shutdown) == StartupRecoveryState::Clean
            <==> registry.last_shutdown == LastShutdown::Clean,
{
}

/// Marking loses no session and changes none but those that run without their
/// process: a session whose process is alive stays as it is.
pub proof fn law_only_dead_sessions_are_lost(
    sessions: Seq<RecoveredModel>,
    alive: spec_fn(u32) -> bool,
    i: int,
)
    requires
        0 <= i < sessions.len(),
    ensures
        lost_marked(sessions, alive).len() == sessions.len(),
        lost_marked(sessions, alive)[i].session_id == sessions[i].session_id,
        lost_marked(sessions, alive)[i] == sessions[i] || (sessions[i].status
            == RecoveredSessionStatus::Running && sessions[i].pid is Some && !alive(
            sessions[i].pid->0,
        ) && lost_marked(sessions, alive)[i] == lost(sessions[i])),
        sessions[i].status == RecoveredSessionStatus::Running && sessions[i].pid is Some && !alive(
            sessions[i].pid->0,
        ) ==> lost_marked(sessions, alive)[i].status == RecoveredSessionStatus::Lost
            && lost_marked(sessions, alive)[i].recovery_reason == Some("process_not_found"@),
{
}

/// Marking a second time, with the same processes alive, changes nothing.
pub proof fn law_marking_twice_is_marking_once(
    sessions: Seq<RecoveredModel>,
    alive: spec_fn(u32) -> bool,
)
    ensures
        lost_marked(lost_marked(sessions, alive), alive) == lost_marked(sessions, alive),
{
    assert(lost_marked(lost_marked(sessions, alive), alive) =~= lost_marked(sessions, alive));
}

/// After marking, every session that is still recorded as running with a
/// process has that process alive.
pub proof fn law_what_runs_is_alive(
    sessions: Seq<RecoveredModel>,
    alive: spec_fn(u32) -> bool,
    i: int,
)
    requires
        0 <= i < sessions.len(),
    ensures
        awaits_liveness(lost_marked(sessions, alive)[i]) ==> alive(
            lost_marked(sessions, alive)[i].pid->0,
        ),
{
}

/// A start finds the last run as it ended.
pub proof fn law_start_finds_the_run_as_it_ended(last: LastShutdown)
    ensures
        startup_state(last) == StartupRecoveryState::Clean <==> last == LastShutdown::Clean,
        startup_state(last) == StartupRecoveryState::KeepRunning <==> last
            == LastShutdown::KeepRunning,
        startup_state(last) == StartupRecoveryState::CrashedOrUnknown <==> last
            == LastShutdown::CrashedOrUnknown,
{
}

/// The registry of a first run is that of the process that runs it, in the first
/// layout, without a session and without a heartbeat.
pub proof fn law_first_registry_is_empty(supervisor_pid: u32)
    ensures
        empty_registry(supervisor_pid).schema_version == 1,
        empty_registry(supervisor_pid).supervisor_pid == supervisor_pid,
        empty_registry(supervisor_pid).last_heartbeat_at_ms == 0,
        empty_registry(supervisor_pid).last_shutdown == LastShutdown::Clean,
        empty_registry(supervisor_pid).sessions.len() == 0,
{
}

/// A session is marked as lost just where it is recorded as running with a
/// process that is not alive. It keeps all that it was recorded with but for its
/// status and the reason; any other session keeps those too.
pub proof fn law_lost_session_keeps_its_record(
    sessions: Seq<RecoveredModel>,
    alive: spec_fn(u32) -> bool,
    i: int,
)
    requires
        0 <= i < sessions.len(),
    ensures
        lost_marked(sessions, alive).len() == sessions.len(),
        ({
            let was = sessions[i];
            let is = lost_marked(sessions, alive)[i];
            let dead = was.status == RecoveredSessionStatus::Running && was.pid is Some && !alive(
                was.pid->0,
            );
            &&& dead ==> is.status == RecoveredSessionStatus::Lost && is.recovery_reason == Some(
                "process_not_found"@,
            )
            &&& !dead ==> is.status == was.status && is.recovery_reason == was.recovery_reason
            &&& is.session_id == was.session_id
            &&& is.kind == was.kind
            &&& is.pid == was.pid
            &&& is.process_group_id == was.process_group_id
            &&& is.command == was.command
            &&& is.args == was.args
            &&& is.shell == was.shell
            &&& is.cwd == was.cwd
            &&& is.cols == was.cols
            &&& is.rows == was.rows
            &&& is.scrollback_journal_path == was.scrollback_journal_path
            &&& is.exit_code == was.exit_code
        }),
{
}

/// Marking one session as lost changes its status and its reason alone, and just
/// a session that is recorded as running with a process can be.
pub proof fn law_one_session_is_lost(session: RecoveredModel)
    ensures
        awaits_liveness(session) <==> session.status == RecoveredSessionStatus::Running
            && session.pid is Some,
        lost(session) == (RecoveredModel {
            status: RecoveredSessionStatus::Lost,
            recovery_reason: Some("process_not_found"@),
            ..session
        }),
{
}

/// A terminal of which little is known runs, under its id, as its process.
pub proof fn law_bare_terminal_runs(session_id: Seq<char>, pid: u32)
    ensures
        bare_terminal(session_id, pid).session_id == session_id,
        bare_terminal(session_id, pid).kind == RecoveredSessionKind::Terminal,
        bare_terminal(session_id, pid).status == RecoveredSessionStatus::Running,
        bare_terminal(session_id, pid).pid == Some(pid),
        bare_terminal(session_id, pid).process_group_id == Some(pid),
        bare_terminal(session_id, pid).args.len() == 0,
        bare_terminal(session_id, pid).command is None,
        bare_terminal(session_id, pid).shell is None,
        bare_terminal(session_id, pid).cwd is None,
        bare_terminal(session_id, pid).cols is None,
        bare_terminal(session_id, pid).rows is None,
        bare_terminal(session_id, pid).scrollback_journal_path is None,
        bare_terminal(session_id, pid).exit_code is None,
        bare_terminal(session_id, pid).recovery_reason is None,
{
}

/// A recorded session as a value has all that is recorded.
pub proof fn law_session_model_has_every_field(session: RecoveredSession)
    ensures
        session.deep_view().session_id == session.session_id@,
        session.deep_view().kind == session.kind,
        session.deep_view().status == session.status,
        session.deep_view().pid == session.pid,
        session.deep_view().process_group_id == session.process_group_id,
        session.deep_view().command == session.command.deep_view(),
        session.deep_view().args.len() == session.args@.len(),
        forall|i: int|
            0 <= i < session.args@.len() ==> #[trigger] session.deep_view().args[i]
                == session.args@[i]@,
        session.deep_view().shell == session.shell.deep_view(),
        session.deep_view().cwd == session.cwd.deep_view(),
        session.deep_view().cols == session.cols,
        session.deep_view().rows == session.rows,
        session.deep_view().scrollback_journal_path == session.scrollback_journal_path.deep_view(),
        session.deep_view().exit_code == session.exit_code,
        session.deep_view().recovery_reason == session.recovery_reason.deep_view(),
{
}

/// A registry as a value has all that is in it, every session in its place.
pub proof fn law_registry_model_has_every_field(registry: SessionRegistry)
    ensures
        registry.deep_view().schema_version == registry.schema_version,
        registry.deep_view().supervisor_pid == registry.supervisor_pid,
        registry.deep_view().last_shutdown == registry.last_shutdown,
        registry.deep_view().last_heartbeat_at_ms == registry.last_heartbeat_at_ms,
        registry.deep_view().sessions.len() == registry.sessions@.len(),
        forall|i: int|
            0 <= i < registry.sessions@.len() ==> #[trigger] registry.deep_view().sessions[i]
                == registry.sessions@[i].deep_view(),
{
}

} // verus!
