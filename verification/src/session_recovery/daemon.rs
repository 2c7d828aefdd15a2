//! The sessions that the supervisor owns, independently of any client.

use crate::keyed::KeyedList;
use crate::session_recovery::ipc::{SpawnSpec, SpecModel};
use crate::session_recovery::registry::{
    RecoveredModel, RecoveredSession, RecoveredSessionKind, RecoveredSessionStatus,
};
use crate::session_recovery::scrollback::{
    joined, kept, last_bytes, law_replay_is_the_end_of_the_output, Scrollback, SCROLLBACK_CAP,
};
use crate::text::{
    concat2, copy_list, copy_option, decimal, first_index, is_digit, is_numeral, lemma_decimal_value,
    lemma_first_index, numeral_value, push_decimal,
};
use vstd::prelude::*;

verus! {

/// The number of bytes that are read of a session's output at once.
pub const OUTPUT_CHUNK: usize = 8192;

/// The number of pieces of output that wait for an attached client.
pub const BROADCAST_CAP: usize = 1024;

// ==================== One session ====================

/// A session that the supervisor owns.
#[derive(Debug, Clone)]
pub struct Session {
    pub id: String,
    pub pid: u32,
    pub spec: SpawnSpec,
    cols: u16,
    rows: u16,
    scrollback: Scrollback,
    exited: bool,
    exit_code: Option<i32>,
}

/// A session as a mathematical value.
pub struct SessionModel {
    pub id: Seq<char>,
    pub pid: u32,
    pub spec: SpecModel,
    /// The columns that the terminal has now.
    pub cols: u16,
    /// The rows that the terminal has now.
    pub rows: u16,
    /// What is kept of the output.
    pub shown: Seq<u8>,
    /// Whether the process has exited.
    pub exited: bool,
    /// What it exited with.
    pub exit_code: Option<i32>,
}

/// What reading a session's output gave.
#[derive(Debug, Clone)]
pub enum ReadOutcome {
    /// These bytes; none where the output has ended.
    Bytes(Vec<u8>),
    /// The read was interrupted.
    Interrupted,
    /// The read failed.
    Failed,
}

/// What the reader of a session's output does next.
#[derive(Debug, Clone)]
pub enum ReaderStep {
    /// Send these bytes to every attached client and read on.
    Broadcast(Vec<u8>),
    /// Read on.
    ReadOn,
    /// Wait for the process to exit.
    Reap,
}

/// The code that a session is recorded to have exited with: that of the process
/// as a signed number, or -1 where it is not known.
pub open spec fn recorded_exit_code(status: Option<u32>) -> int {
    match status {
        Some(code) => if code <= i32::MAX {
            code as int
        } else {
            code - 0x1_0000_0000
        },
        None => -1,
    }
}

/// The code that a session is recorded to have exited with.
pub fn exit_code_of(status: Option<u32>) -> (r: i32)
    ensures
        r == recorded_exit_code(status),
{
    match status {
        Some(code) => {
            assert(code <= 0x7fff_ffff ==> code as i32 == code) by (bit_vector);
            assert(code > 0x7fff_ffff ==> code as i32 == code - 0x1_0000_0000) by (bit_vector);
            #[verifier::truncate]
            (code as i32)
        },
        None => -1,
    }
}

/// A session as a client is told of it. What the process was started with in
/// its environment is left out.
pub open spec fn recovered(session: SessionModel) -> RecoveredModel {
    RecoveredModel {
        session_id: session.id,
        kind: RecoveredSessionKind::Terminal,
        status: if session.exited {
            RecoveredSessionStatus::Exited
        } else {
            RecoveredSessionStatus::Running
        },
        pid: Some(session.pid),
        process_group_id: Some(session.pid),
        command: if session.spec.command is Some {
            session.spec.command
        } else {
            session.spec.shell
        },
        args: session.spec.args,
        shell: session.spec.shell,
        cwd: session.spec.cwd,
        cols: Some(session.cols),
        rows: Some(session.rows),
        scrollback_journal_path: None,
        exit_code: session.exit_code,
        recovery_reason: None,
    }
}

/// A session that has just been started.
pub open spec fn started(id: Seq<char>, pid: u32, spec: SpecModel) -> SessionModel {
    SessionModel {
        id,
        pid,
        spec,
        cols: spec.cols,
        rows: spec.rows,
        shown: Seq::empty(),
        exited: false,
        exit_code: None,
    }
}

/// The session once `bytes` of output were read.
pub open spec fn after_output(session: SessionModel, bytes: Seq<u8>) -> SessionModel {
    SessionModel { shown: last_bytes(session.shown + bytes, SCROLLBACK_CAP as int), ..session }
}

/// The session once its terminal was given another size.
pub open spec fn after_resize(session: SessionModel, cols: u16, rows: u16) -> SessionModel {
    SessionModel { cols, rows, ..session }
}

/// The session once its process was waited for.
pub open spec fn after_exit(session: SessionModel, code: i32) -> SessionModel {
    SessionModel { exited: true, exit_code: Some(code), ..session }
}

impl DeepView for Session {
    type V = SessionModel;

    closed spec fn deep_view(&self) -> SessionModel {
        SessionModel {
            id: self.id@,
            pid: self.pid,
            spec: self.spec.deep_view(),
            cols: self.cols,
            rows: self.rows,
            shown: self.scrollback@,
            exited: self.exited,
            exit_code: self.exit_code,
        }
    }
}

impl Session {
    /// Whether no more output is kept than there is room for, and an exit code
    /// is known just of a session that has exited.
    pub closed spec fn well_formed(self) -> bool {
        &&& self.scrollback.well_formed()
        &&& self.exited == (self.exit_code is Some)
    }

    /// What the invariant says of the session as a value.
    pub proof fn lemma_well_formed(self)
        requires
            self.well_formed(),
        ensures
            self.deep_view().shown.len() <= SCROLLBACK_CAP,
            self.deep_view().exited == (self.deep_view().exit_code is Some),
    {
    }

    /// A session that has just been started.
    pub fn start(id: String, pid: u32, spec: SpawnSpec) -> (r: Self)
        ensures
            r.well_formed(),
            r.deep_view() == started(id@, pid, spec.deep_view()),
    {
        let cols: u16 = spec.cols;
        let rows: u16 = spec.rows;
        Session {
            id,
            pid,
            spec,
            cols,
            rows,
            scrollback: Scrollback::new(),
            exited: false,
            exit_code: None,
        }
    }

    /// The session's id.
    pub fn session_id(&self) -> (r: String)
        ensures
            r@ == self.deep_view().id,
    {
        self.id.clone()
    }

    /// What is kept of the output, to be shown again.
    pub fn scrollback_snapshot(&self) -> (r: Vec<u8>)
        ensures
            r@ == self.deep_view().shown,
    {
        self.scrollback.snapshot()
    }

    /// Whether the process has exited.
    pub fn is_exited(&self) -> (r: bool)
        ensures
            r == self.deep_view().exited,
    {
        self.exited
    }

    /// What the process exited with.
    pub fn exit_code(&self) -> (r: Option<i32>)
        ensures
            r == self.deep_view().exit_code,
    {
        self.exit_code
    }

    /// The session as a client is told of it.
    pub fn to_recovered(&self) -> (r: RecoveredSession)
        ensures
            r.deep_view() == recovered(self.deep_view()),
            r.session_id@ == self.deep_view().id,
            r.kind == RecoveredSessionKind::Terminal,
            r.pid == Some(self.deep_view().pid),
            r.process_group_id == Some(self.deep_view().pid),
            r.cwd.deep_view() == self.deep_view().spec.cwd,
            r.shell.deep_view() == self.deep_view().spec.shell,
            r.args.deep_view() == self.deep_view().spec.args,
            r.command.deep_view() == (if self.deep_view().spec.command is Some {
                self.deep_view().spec.command
            } else {
                self.deep_view().spec.shell
            }),
            r.status == RecoveredSessionStatus::Exited <==> self.deep_view().exited,
            r.exit_code == self.deep_view().exit_code,
            r.cols == Some(self.deep_view().cols),
            r.rows == Some(self.deep_view().rows),
    {
        let status = if self.exited {
            RecoveredSessionStatus::Exited
        } else {
            RecoveredSessionStatus::Running
        };
        let command = match &self.spec.command {
            Some(command) => Some(command.clone()),
            None => copy_option(&self.spec.shell),
        };
        RecoveredSession {
            session_id: self.id.clone(),
            kind: RecoveredSessionKind::Terminal,
            status,
            pid: Some(self.pid),
            process_group_id: Some(self.pid),
            command,
            args: copy_list(&self.spec.args),
            shell: copy_option(&self.spec.shell),
            cwd: copy_option(&self.spec.cwd),
            cols: Some(self.cols),
            rows: Some(self.rows),
            scrollback_journal_path: None,
            exit_code: self.exit_code,
            recovery_reason: None,
        }
    }

    /// Takes what reading the output gave, and says what the reader does next.
    pub fn on_read(&mut self, outcome: ReadOutcome) -> (step: ReaderStep)
        requires
            old(self).well_formed(),
        ensures
            final(self).well_formed(),
            match outcome {
                ReadOutcome::Bytes(bytes) => if bytes@.len() > 0 {
                    final(self).deep_view() == after_output(old(self).deep_view(), bytes@) && step
                        == ReaderStep::Broadcast(bytes)
                } else {
                    final(self).deep_view() == old(self).deep_view() && step is Reap
                },
                ReadOutcome::Interrupted => final(self).deep_view() == old(self).deep_view()
                    && step is ReadOn,
                ReadOutcome::Failed => final(self).deep_view() == old(self).deep_view()
                    && step is Reap,
            },
    {
        match outcome {
            ReadOutcome::Bytes(bytes) => {
                if bytes.len() == 0 {
                    return ReaderStep::Reap;
                }
                self.scrollback.append(&bytes);
                ReaderStep::Broadcast(bytes)
            },
            ReadOutcome::Interrupted => ReaderStep::ReadOn,
            ReadOutcome::Failed => ReaderStep::Reap,
        }
    }

    /// Records that the terminal was given another size.
    pub fn on_resized(&mut self, cols: u16, rows: u16)
        requires
            old(self).well_formed(),
        ensures
            final(self).well_formed(),
            final(self).deep_view() == after_resize(old(self).deep_view(), cols, rows),
    {
        self.cols = cols;
        self.rows = rows;
    }

    /// Records that the process has exited: with which code, where waiting for
    /// it gave one.
    pub fn on_reaped(&mut self, status: Option<u32>)
        requires
            old(self).well_formed(),
        ensures
            final(self).well_formed(),
            final(self).deep_view() == after_exit(
                old(self).deep_view(),
                recorded_exit_code(status) as i32,
            ),
    {
        self.exit_code = Some(exit_code_of(status));
        self.exited = true;
    }
}

/// The text of a failed resize.
pub fn resize_error(reason: &str) -> (r: String)
    ensures
        r@ == "resize failed: "@ + reason@,
{
    concat2("resize failed: ", reason)
}

// ==================== Starting a session ====================

/// What is started for a session, and in how large a terminal.
#[derive(Debug, Clone)]
pub struct SpawnPlan {
    pub rows: u16,
    pub cols: u16,
    pub program: String,
    pub args: Vec<String>,
    /// What is set in the environment, in this order: a later value of a name
    /// counts.
    pub env: Vec<(String, String)>,
    pub cwd: Option<String>,
}

/// What is started, as a mathematical value.
pub struct PlanModel {
    pub rows: int,
    pub cols: int,
    pub program: Seq<char>,
    pub args: Seq<Seq<char>>,
    pub env: Seq<(Seq<char>, Seq<char>)>,
    pub cwd: Option<Seq<char>>,
}

impl DeepView for SpawnPlan {
    type V = PlanModel;

    open spec fn deep_view(&self) -> PlanModel {
        PlanModel {
            rows: self.rows as int,
            cols: self.cols as int,
            program: self.program@,
            args: self.args.deep_view(),
            env: self.env.deep_view(),
            cwd: self.cwd.deep_view(),
        }
    }
}

/// The shell of a session: the one asked for, else that of the environment, else
/// `/bin/sh`.
pub open spec fn chosen_shell(asked: Option<Seq<char>>, environment: Option<Seq<char>>) -> Seq<
    char,
> {
    match (asked, environment) {
        (Some(shell), _) => shell,
        (None, Some(shell)) => shell,
        (None, None) => "/bin/sh"@,
    }
}

/// What is started for `spec` where the environment names `env_shell` as the
/// shell: the command, or else the shell, in a terminal of at least one row and
/// one column, with the environment asked for and the kind of terminal.
pub open spec fn planned(spec: SpecModel, env_shell: Option<Seq<char>>) -> PlanModel {
    PlanModel {
        rows: if spec.rows == 0 {
            1
        } else {
            spec.rows as int
        },
        cols: if spec.cols == 0 {
            1
        } else {
            spec.cols as int
        },
        program: match spec.command {
            Some(command) => command,
            None => chosen_shell(spec.shell, env_shell),
        },
        args: spec.args,
        env: spec.env.push(("TERM"@, "xterm-256color"@)).push(("COLORTERM"@, "truecolor"@)),
        cwd: spec.cwd,
    }
}

/// Appends a name and a value.
fn push_pair(list: &mut Vec<(String, String)>, name: &str, value: &str)
    ensures
        final(list).deep_view() == old(list).deep_view().push((name@, value@)),
{
    let ghost before = list.deep_view();
    let pair = (name.to_string(), value.to_string());
    list.push(pair);
    assert(list.deep_view() =~= before.push((name@, value@)));
}

/// What is started for `spec` where the environment names `env_shell` as the
/// shell.
pub fn plan_spawn(spec: &SpawnSpec, env_shell: Option<String>) -> (r: SpawnPlan)
    ensures
        r.deep_view() == planned(spec.deep_view(), env_shell.deep_view()),
        r.args.deep_view() == spec.args.deep_view(),
        r.cwd.deep_view() == spec.cwd.deep_view(),
        spec.command is Some ==> r.program@ == spec.command->0@,
        spec.command is None && spec.shell is Some ==> r.program@ == spec.shell->0@,
        spec.rows > 0 ==> r.rows == spec.rows,
        spec.cols > 0 ==> r.cols == spec.cols,
        r.env@.len() == spec.env@.len() + 2,
        forall|i: int|
            0 <= i < spec.env@.len() ==> #[trigger] r.env@[i].deep_view() == spec.env@[i].deep_view(),
{
    let program = match &spec.command {
        Some(command) => command.clone(),
        None => match &spec.shell {
            Some(shell) => shell.clone(),
            None => match env_shell {
                Some(shell) => shell,
                None => "/bin/sh".to_string(),
            },
        },
    };
    let copy = spec.copy();
    let mut env = copy.env;
    push_pair(&mut env, "TERM", "xterm-256color");
    push_pair(&mut env, "COLORTERM", "truecolor");
    let rows: u16 = if spec.rows == 0 {
        1
    } else {
        spec.rows
    };
    let cols: u16 = if spec.cols == 0 {
        1
    } else {
        spec.cols
    };
    proof {
        let listed = env.deep_view();
        let asked = spec.env.deep_view();
        assert(listed.len() == env@.len() && asked.len() == spec.env@.len());
        assert(listed == planned(spec.deep_view(), None).env);
        assert forall|i: int| 0 <= i < spec.env@.len() implies #[trigger] env@[i].deep_view()
            == spec.env@[i].deep_view() by {
            assert(listed[i] == env@[i].deep_view());
            assert(asked[i] == spec.env@[i].deep_view());
        }
    }
    SpawnPlan { rows, cols, program, args: copy.args, env, cwd: copy.cwd }
}

/// What goes wrong in starting a session.
#[derive(Debug, Clone, Copy, PartialEq, Eq, Structural)]
pub enum SpawnStage {
    OpenPty,
    SpawnCommand,
    CloneReader,
    TakeWriter,
}

/// What starting a session gave.
#[derive(Debug, Clone)]
pub enum SpawnOutcome {
    /// It failed there, for this reason.
    Failed(SpawnStage, String),
    /// The process runs: its id, where it has one; the id of the daemon's own
    /// process; and the time, in nanoseconds.
    Started { child_pid: Option<u32>, own_pid: u32, nanos: u128 },
}

/// The text of a failure to start a session.
pub open spec fn spawn_failure(stage: SpawnStage, reason: Seq<char>) -> Seq<char> {
    match stage {
        SpawnStage::OpenPty => "openpty failed: "@ + reason,
        SpawnStage::SpawnCommand => "spawn failed: "@ + reason,
        SpawnStage::CloneReader => "clone reader failed: "@ + reason,
        SpawnStage::TakeWriter => "take writer failed: "@ + reason,
    }
}

/// The id of the session that a daemon starts at a time.
pub open spec fn session_id_at(own_pid: u32, nanos: u128) -> Seq<char> {
    "sess-"@ + decimal(own_pid as nat) + "-"@ + decimal(nanos as nat)
}

/// The id of the session that the daemon with process id `own_pid` starts at
/// `nanos`.
pub fn new_session_id(own_pid: u32, nanos: u128) -> (r: String)
    ensures
        r@ == session_id_at(own_pid, nanos),
{
    let mut id = "sess-".to_string();
    push_decimal(&mut id, own_pid as u128);
    id.append("-");
    push_decimal(&mut id, nanos);
    id
}

// ==================== All sessions ====================

/// The sessions that the supervisor owns, by id.
#[derive(Debug, Clone)]
pub struct SessionTable {
    sessions: KeyedList<Session>,
}

impl View for SessionTable {
    type V = Map<Seq<char>, SessionModel>;

    closed spec fn view(&self) -> Map<Seq<char>, SessionModel> {
        self.sessions@.map_values(|session: Session| session.deep_view())
    }
}

/// Whether `list` has every session of `table` once and no other.
pub open spec fn lists_all(
    list: Seq<RecoveredModel>,
    table: Map<Seq<char>, SessionModel>,
) -> bool {
    &&& list.len() == table.dom().len()
    &&& forall|i: int|
        0 <= i < list.len() ==> table.dom().contains(#[trigger] list[i].session_id) && list[i]
            == recovered(table[list[i].session_id])
    &&& forall|i: int, j: int|
        0 <= i < j < list.len() ==> #[trigger] list[i].session_id != #[trigger] list[j].session_id
}

impl SessionTable {
    /// Whether every session stands under its id, once, and is well-formed.
    pub closed spec fn well_formed(self) -> bool {
        &&& self.sessions.well_formed()
        &&& forall|id: Seq<char>| #[trigger]
            self.sessions@.dom().contains(id) ==> self.sessions@[id].well_formed()
                && self.sessions@[id].id@ == id
    }

    /// No sessions.
    pub fn new() -> (r: Self)
        ensures
            r.well_formed(),
            r@ == Map::<Seq<char>, SessionModel>::empty(),
    {
        let r = SessionTable { sessions: KeyedList::new() };
        assert(r@ =~= Map::<Seq<char>, SessionModel>::empty());
        r
    }

    /// Every session, as a client is told of it.
    pub fn list(&self) -> (r: Vec<RecoveredSession>)
        requires
            self.well_formed(),
        ensures
            lists_all(r.deep_view(), self@),
    {
        let ghost keys = self.sessions.keys();
        proof {
            self.sessions.lemma_keys();
            assert(self@.dom() =~= self.sessions@.dom());
        }
        let mut r: Vec<RecoveredSession> = Vec::new();
        let mut i: usize = 0;
        while i < self.sessions.len()
            invariant
                self.well_formed(),
                keys == self.sessions.keys(),
                i <= keys.len(),
                r.len() == i,
                forall|j: int|
                    0 <= j < keys.len() ==> self.sessions@.dom().contains(#[trigger] keys[j]),
                forall|j: int|
                    #![trigger r@[j]]
                    0 <= j < i ==> r@[j].deep_view() == recovered(self@[keys[j]])
                        && r@[j].session_id@ == keys[j],
            decreases keys.len() - i,
        {
            let session = self.sessions.value_at(i);
            proof {
                assert(self.sessions@.dom().contains(keys[i as int]));
            }
            r.push(session.to_recovered());
            i += 1;
        }
        proof {
            let list = r.deep_view();
            assert forall|j: int| 0 <= j < list.len() implies self@.dom().contains(
                #[trigger] list[j].session_id,
            ) && list[j] == recovered(self@[list[j].session_id]) by {
                assert(list[j] == r@[j].deep_view());
                assert(self.sessions@.dom().contains(keys[j]));
            }
            assert forall|a: int, b: int| 0 <= a < b < list.len() implies #[trigger] list[a].session_id
                != #[trigger] list[b].session_id by {
                assert(list[a] == r@[a].deep_view());
                assert(list[b] == r@[b].deep_view());
            }
        }
        r
    }

    /// The session `session_id`.
    pub fn get(&self, session_id: &str) -> (r: Option<&Session>)
        requires
            self.well_formed(),
        ensures
            match r {
                Some(session) => self@.dom().contains(session_id@) && session.deep_view()
                    == self@[session_id@] && session.well_formed(),
                None => !self@.dom().contains(session_id@),
            },
    {
        self.sessions.get(session_id)
    }

    /// Whether there are no sessions.
    pub fn is_empty(&self) -> (r: bool)
        ensures
            r == (self@ == Map::<Seq<char>, SessionModel>::empty()),
    {
        proof {
            if self.sessions@ == Map::<Seq<char>, Session>::empty() {
                assert(self@ =~= Map::<Seq<char>, SessionModel>::empty());
            }
            if self@ == Map::<Seq<char>, SessionModel>::empty() {
                assert(self@.dom() =~= self.sessions@.dom());
                assert(self.sessions@ =~= Map::<Seq<char>, Session>::empty());
            }
        }
        self.sessions.is_empty()
    }

    /// The ids of the sessions to kill in order to kill all: every session of
    /// the table, those that have exited too.
    pub fn kill_all(&self) -> (r: Vec<String>)
        requires
            self.well_formed(),
        ensures
            r.deep_view().no_duplicates(),
            r.deep_view().to_set() == self@.dom(),
    {
        let ghost keys = self.sessions.keys();
        let mut r: Vec<String> = Vec::new();
        let mut i: usize = 0;
        while i < self.sessions.len()
            invariant
                keys == self.sessions.keys(),
                i <= keys.len(),
                r.deep_view() == keys.take(i as int),
            decreases keys.len() - i,
        {
            let ghost before = r.deep_view();
            r.push(self.sessions.key_at(i).clone());
            assert(r.deep_view() =~= before.push(keys[i as int]));
            assert(r.deep_view() =~= keys.take(i + 1));
            i += 1;
        }
        proof {
            assert(keys.take(i as int) =~= keys);
            self.sessions.lemma_keys();
            assert(r.deep_view().to_set() =~= self@.dom());
        }
        r
    }

    /// Takes the session in that was started for `spec`, under a new id, and
    /// gives that id and the process id. A session that could not be started
    /// changes nothing. Of two sessions started at one time the later takes the
    /// place of the earlier.
    pub fn spawn(&mut self, spec: SpawnSpec, outcome: SpawnOutcome) -> (r: Result<
        (String, u32),
        String,
    >)
        requires
            old(self).well_formed(),
        ensures
            final(self).well_formed(),
            match outcome {
                SpawnOutcome::Failed(stage, reason) => final(self)@ == old(self)@ && (
                r matches Err(text) && text@ == spawn_failure(stage, reason@)),
                SpawnOutcome::Started { child_pid, own_pid, nanos } => {
                    let id = session_id_at(own_pid, nanos);
                    let pid = match child_pid {
                        Some(pid) => pid,
                        None => 0u32,
                    };
                    &&& final(self)@ == old(self)@.insert(id, started(id, pid, spec.deep_view()))
                    &&& r matches Ok(named)
                    &&& named.0@ == id
                    &&& named.1 == pid
                },
            },
    {
        match outcome {
            SpawnOutcome::Failed(stage, reason) => {
                let what = match stage {
                    SpawnStage::OpenPty => "openpty failed: ",
                    SpawnStage::SpawnCommand => "spawn failed: ",
                    SpawnStage::CloneReader => "clone reader failed: ",
                    SpawnStage::TakeWriter => "take writer failed: ",
                };
                Err(concat2(what, &reason))
            },
            SpawnOutcome::Started { child_pid, own_pid, nanos } => {
                let pid: u32 = match child_pid {
                    Some(pid) => pid,
                    None => 0,
                };
                let id = new_session_id(own_pid, nanos);
                let session = Session::start(id.clone(), pid, spec);
                let ghost added = session;
                self.sessions.insert(id.clone(), session);
                proof {
                    assert(self@ =~= old(self)@.insert(id@, added.deep_view()));
                }
                Ok((id, pid))
            },
        }
    }

    /// Takes what reading the output of the session `session_id` gave, and says
    /// what its reader does next; a session that is not there has nothing more
    /// to read.
    pub fn on_read(&mut self, session_id: &str, outcome: ReadOutcome) -> (step: ReaderStep)
        requires
            old(self).well_formed(),
        ensures
            final(self).well_formed(),
            !old(self)@.dom().contains(session_id@) ==> final(self)@ == old(self)@ && step is Reap,
            old(self)@.dom().contains(session_id@) ==> match outcome {
                ReadOutcome::Bytes(bytes) => if bytes@.len() > 0 {
                    final(self)@ == old(self)@.insert(
                        session_id@,
                        after_output(old(self)@[session_id@], bytes@),
                    ) && step == ReaderStep::Broadcast(bytes)
                } else {
                    final(self)@ == old(self)@ && step is Reap
                },
                ReadOutcome::Interrupted => final(self)@ == old(self)@ && step is ReadOn,
                ReadOutcome::Failed => final(self)@ == old(self)@ && step is Reap,
            },
    {
        let ghost id = session_id@;
        let step = match self.sessions.get_mut(session_id) {
            Some(session) => {
                let step = session.on_read(outcome);
                step
            },
            None => ReaderStep::Reap,
        };
        proof {
            if old(self)@.dom().contains(id) {
                assert(self@ =~= old(self)@.insert(id, self.sessions@[id].deep_view()));
                assert(old(self)@ =~= old(self)@.insert(id, old(self)@[id]));
            }
        }
        step
    }

    /// Records that the terminal of the session `session_id` was given another
    /// size; a session that is not there changes nothing.
    pub fn on_resized(&mut self, session_id: &str, cols: u16, rows: u16)
        requires
            old(self).well_formed(),
        ensures
            final(self).well_formed(),
            final(self)@ == (if old(self)@.dom().contains(session_id@) {
                old(self)@.insert(
                    session_id@,
                    after_resize(old(self)@[session_id@], cols, rows),
                )
            } else {
                old(self)@
            }),
    {
        let ghost id = session_id@;
        match self.sessions.get_mut(session_id) {
            Some(session) => {
                session.on_resized(cols, rows);
            },
            None => {},
        }
        proof {
            if old(self)@.dom().contains(id) {
                assert(self@ =~= old(self)@.insert(id, self.sessions@[id].deep_view()));
            }
        }
    }

    /// Records that the process of the session `session_id` has exited: with
    /// which code, where waiting for it gave one.
    pub fn on_reaped(&mut self, session_id: &str, status: Option<u32>)
        requires
            old(self).well_formed(),
        ensures
            final(self).well_formed(),
            final(self)@ == (if old(self)@.dom().contains(session_id@) {
                old(self)@.insert(
                    session_id@,
                    after_exit(old(self)@[session_id@], recorded_exit_code(status) as i32),
                )
            } else {
                old(self)@
            }),
    {
        let ghost id = session_id@;
        match self.sessions.get_mut(session_id) {
            Some(session) => {
                session.on_reaped(status);
            },
            None => {},
        }
        proof {
            if old(self)@.dom().contains(id) {
                assert(self@ =~= old(self)@.insert(id, self.sessions@[id].deep_view()));
            }
        }
    }
}

// ==================== Laws ====================

impl SessionTable {
    /// Every session of a table stands under its own id, keeps no more output
    /// than there is room for, and has an exit code just once it has exited.
    pub proof fn law_sessions_are_in_order(self)
        requires
            self.well_formed(),
        ensures
            self@.dom().finite(),
            forall|id: Seq<char>| #[trigger]
                self@.dom().contains(id) ==> self@[id].id == id && self@[id].shown.len()
                    <= SCROLLBACK_CAP && self@[id].exited == (self@[id].exit_code is Some),
    {
        self.sessions.lemma_keys();
        assert(self@.dom() =~= self.sessions@.dom());
        assert forall|id: Seq<char>| #[trigger] self@.dom().contains(id) implies self@[id].id == id
            && self@[id].shown.len() <= SCROLLBACK_CAP && self@[id].exited == (
        self@[id].exit_code is Some) by {
            assert(self.sessions@.dom().contains(id));
            self.sessions@[id].lemma_well_formed();
        }
    }
}

/// Nothing of the environment that a session was started with is told to a
/// client: sessions that differ in it alone are told alike.
pub proof fn law_environment_is_not_told(
    session: SessionModel,
    env: Seq<(Seq<char>, Seq<char>)>,
)
    ensures
        recovered(session) == recovered(
            SessionModel { spec: SpecModel { env, ..session.spec }, ..session },
        ),
{
}

/// A session is told as exited, with its code, once its process was waited for,
/// and as running before; output changes nothing of what is told.
pub proof fn law_status_follows_the_process(
    id: Seq<char>,
    pid: u32,
    spec: SpecModel,
    bytes: Seq<u8>,
    code: i32,
)
    ensures
        ({
            let session = after_output(started(id, pid, spec), bytes);
            &&& recovered(session) == recovered(started(id, pid, spec))
            &&& recovered(session).status == RecoveredSessionStatus::Running
            &&& recovered(session).exit_code is None
            &&& recovered(after_exit(session, code)).status == RecoveredSessionStatus::Exited
            &&& recovered(after_exit(session, code)).exit_code == Some(code)
        }),
{
}

/// A client is told the size that a terminal was last given, and a resize
/// changes nothing else of what it is told; before the first, it is told the
/// size that was asked for.
pub proof fn law_last_size_is_told(session: SessionModel, cols: u16, rows: u16)
    ensures
        recovered(after_resize(session, cols, rows)) == (RecoveredModel {
            cols: Some(cols),
            rows: Some(rows),
            ..recovered(session)
        }),
        recovered(started(session.id, session.pid, session.spec)).cols == Some(session.spec.cols),
        recovered(started(session.id, session.pid, session.spec)).rows == Some(session.spec.rows),
        after_resize(session, cols, rows).shown == session.shown,
{
}

/// Sessions that are started at different times, or by different daemons, have
/// different ids.
pub proof fn law_session_ids_tell_sessions_apart(a: u32, at_a: u128, b: u32, at_b: u128)
    ensures
        session_id_at(a, at_a) == session_id_at(b, at_b) <==> a == b && at_a == at_b,
{
    if session_id_at(a, at_a) == session_id_at(b, at_b) {
        lemma_id_parts(a, at_a);
        lemma_id_parts(b, at_b);
        lemma_decimal_value(a as nat);
        lemma_decimal_value(b as nat);
        lemma_decimal_value(at_a as nat);
        lemma_decimal_value(at_b as nat);
        assert(numeral_value(decimal(a as nat)) == numeral_value(decimal(b as nat)));
        assert(numeral_value(decimal(at_a as nat)) == numeral_value(decimal(at_b as nat)));
    }
}

/// Where the two numerals of an id stand: before and behind its second hyphen.
proof fn lemma_id_parts(pid: u32, nanos: u128)
    ensures
        ({
            let rest = session_id_at(pid, nanos).skip(5);
            let hyphen = first_index(rest, '-');
            &&& rest.take(hyphen) == decimal(pid as nat)
            &&& rest.skip(hyphen + 1) == decimal(nanos as nat)
        }),
{
    reveal_strlit("sess-");
    reveal_strlit("-");
    let digits = decimal(pid as nat);
    let rest = session_id_at(pid, nanos).skip(5);
    let hyphen = digits.len() as int;
    lemma_decimal_value(pid as nat);
    assert(rest =~= digits + "-"@ + decimal(nanos as nat));
    assert forall|j: int| 0 <= j < hyphen implies rest[j] != '-' by {
        assert(rest[j] == digits[j]);
        assert(is_digit(digits[j]));
    }
    assert(rest[hyphen] == '-');
    lemma_first_index(rest, '-', hyphen);
    assert(rest.take(hyphen) =~= digits);
    assert(rest.skip(hyphen + 1) =~= decimal(nanos as nat));
}

/// The session once `chunks` of output were read one after the other.
pub open spec fn after_outputs(session: SessionModel, chunks: Seq<Seq<u8>>) -> SessionModel
    decreases chunks.len(),
{
    if chunks.len() == 0 {
        session
    } else {
        after_output(after_outputs(session, chunks.drop_last()), chunks.last())
    }
}

/// A session keeps the end of all that it has shown, however its output came in
/// pieces, and nothing else of it changes by showing output.
pub proof fn law_session_keeps_the_end_of_its_output(
    id: Seq<char>,
    pid: u32,
    spec: SpecModel,
    chunks: Seq<Seq<u8>>,
)
    ensures
        ({
            let fresh = started(id, pid, spec);
            after_outputs(fresh, chunks) == (SessionModel { shown: kept(chunks), ..fresh })
        }),
        kept(chunks) == last_bytes(joined(chunks), SCROLLBACK_CAP as int),
    decreases chunks.len(),
{
    law_replay_is_the_end_of_the_output(chunks);
    if chunks.len() > 0 {
        law_session_keeps_the_end_of_its_output(id, pid, spec, chunks.drop_last());
    }
}

/// The kind of terminal is set whatever the caller asks for: no value of its
/// own for these names comes after the daemon's.
pub proof fn law_terminal_kind_is_set(spec: SpecModel, env_shell: Option<Seq<char>>)
    ensures
        planned(spec, env_shell).env.last() == ("COLORTERM"@, "truecolor"@),
        planned(spec, env_shell).env[planned(spec, env_shell).env.len() - 2] == (
            "TERM"@,
            "xterm-256color"@,
        ),
        planned(spec, env_shell).env.len() == spec.env.len() + 2,
        forall|i: int| 0 <= i < spec.env.len() ==> planned(spec, env_shell).env[i] == spec.env[i],
        planned(spec, env_shell).rows >= 1,
        planned(spec, env_shell).cols >= 1,
{
}

/// A session that was started is listed, with its process, beside all that were
/// there before.
pub proof fn law_started_session_is_listed(
    table: Map<Seq<char>, SessionModel>,
    list: Seq<RecoveredModel>,
    id: Seq<char>,
    pid: u32,
    spec: SpecModel,
)
    requires
        table.dom().finite(),
        !table.dom().contains(id),
        lists_all(list, table.insert(id, started(id, pid, spec))),
    ensures
        list.len() == table.dom().len() + 1,
        exists|i: int|
            0 <= i < list.len() && #[trigger] list[i].session_id == id && list[i].pid == Some(pid)
                && list[i].status == RecoveredSessionStatus::Running,
{
    let grown = table.insert(id, started(id, pid, spec));
    assert(grown.dom() =~= table.dom().insert(id));
    lemma_every_session_is_listed(list, grown, id);
}

/// A list that has as many sessions of a table as there are, none twice, has
/// each of them.
pub proof fn lemma_every_session_is_listed(
    list: Seq<RecoveredModel>,
    table: Map<Seq<char>, SessionModel>,
    id: Seq<char>,
)
    requires
        table.dom().finite(),
        lists_all(list, table),
        table.dom().contains(id),
    ensures
        exists|i: int| 0 <= i < list.len() && #[trigger] list[i].session_id == id,
{
    let ids = list.map_values(|session: RecoveredModel| session.session_id);
    assert(ids.no_duplicates()) by {
        assert forall|a: int, b: int| 0 <= a < ids.len() && 0 <= b < ids.len() && a != b implies ids[a]
            != ids[b] by {
            if a < b {
                assert(list[a].session_id != list[b].session_id);
            } else {
                assert(list[b].session_id != list[a].session_id);
            }
        }
    }
    ids.unique_seq_to_set();
    assert(ids.to_set().subset_of(table.dom())) by {
        assert forall|k: Seq<char>| ids.to_set().contains(k) implies table.dom().contains(k) by {
            let i = ids.index_of(k);
            assert(list[i].session_id == k);
        }
    }
    vstd::set_lib::lemma_subset_equality(ids.to_set(), table.dom());
    assert(ids.contains(id));
    let i = ids.index_of(id);
    assert(list[i].session_id == id);
}

/// What happens to a session.
pub enum SessionChange {
    /// It shows these bytes.
    Output(Seq<u8>),
    /// Its terminal is given another size: columns and rows.
    Resized(u16, u16),
    /// Its process exits with this code.
    Exited(i32),
}

/// The session after one change.
pub open spec fn after_change(session: SessionModel, change: SessionChange) -> SessionModel {
    match change {
        SessionChange::Output(bytes) => after_output(session, bytes),
        SessionChange::Resized(cols, rows) => after_resize(session, cols, rows),
        SessionChange::Exited(code) => after_exit(session, code),
    }
}

/// The session after some changes, in order.
pub open spec fn after_changes(session: SessionModel, changes: Seq<SessionChange>) -> SessionModel
    decreases changes.len(),
{
    if changes.len() == 0 {
        session
    } else {
        after_change(after_changes(session, changes.drop_last()), changes.last())
    }
}

/// A listed session is the one that was asked for, whatever has happened to it
/// since: it has its id and its process, the directory, the shell and every
/// argument that it was asked to start with, and its command, or its shell where
/// no command was asked for.
pub proof fn law_listed_session_is_the_one_asked_for(
    id: Seq<char>,
    pid: u32,
    spec: SpecModel,
    changes: Seq<SessionChange>,
)
    ensures
        ({
            let told = recovered(after_changes(started(id, pid, spec), changes));
            &&& told.session_id == id
            &&& told.kind == RecoveredSessionKind::Terminal
            &&& told.pid == Some(pid)
            &&& told.process_group_id == Some(pid)
            &&& told.cwd == spec.cwd
            &&& told.shell == spec.shell
            &&& spec.command is Some ==> told.command == spec.command
            &&& spec.command is None ==> told.command == spec.shell
            &&& told.args.len() == spec.args.len()
            &&& forall|i: int| 0 <= i < spec.args.len() ==> #[trigger] told.args[i] == spec.args[i]
            &&& told.scrollback_journal_path is None
            &&& told.recovery_reason is None
        }),
{
    lemma_changes_keep_what_was_asked_for(id, pid, spec, changes);
}

/// Changes leave the id, the process and what was asked for as they are.
proof fn lemma_changes_keep_what_was_asked_for(
    id: Seq<char>,
    pid: u32,
    spec: SpecModel,
    changes: Seq<SessionChange>,
)
    ensures
        after_changes(started(id, pid, spec), changes).id == id,
        after_changes(started(id, pid, spec), changes).pid == pid,
        after_changes(started(id, pid, spec), changes).spec == spec,
    decreases changes.len(),
{
    if changes.len() > 0 {
        lemma_changes_keep_what_was_asked_for(id, pid, spec, changes.drop_last());
    }
}

/// A session is told as running, without a code, until it exits, and as exited
/// with the code of its last exit from there on.
pub proof fn law_exit_is_told_once_it_came(
    id: Seq<char>,
    pid: u32,
    spec: SpecModel,
    changes: Seq<SessionChange>,
)
    ensures
        ({
            let told = recovered(after_changes(started(id, pid, spec), changes));
            let has_exited = exists|i: int|
                0 <= i < changes.len() && #[trigger] changes[i] is Exited;
            &&& has_exited ==> told.status == RecoveredSessionStatus::Exited
                && told.exit_code is Some
            &&& !has_exited ==> told.status == RecoveredSessionStatus::Running
                && told.exit_code is None
            &&& changes.len() > 0 && changes.last() is Exited ==> told.exit_code == Some(
                changes.last()->Exited_0,
            )
        }),
    decreases changes.len(),
{
    if changes.len() > 0 {
        let front = changes.drop_last();
        law_exit_is_told_once_it_came(id, pid, spec, front);
        assert(changes[changes.len() - 1] == changes.last());
        if exists|i: int| 0 <= i < front.len() && #[trigger] front[i] is Exited {
            let i = choose|i: int| 0 <= i < front.len() && #[trigger] front[i] is Exited;
            assert(changes[i] is Exited);
        }
        if exists|i: int| 0 <= i < changes.len() && #[trigger] changes[i] is Exited {
            let i = choose|i: int| 0 <= i < changes.len() && #[trigger] changes[i] is Exited;
            if i < front.len() {
                assert(front[i] is Exited);
            }
        }
    }
}

/// One change touches one thing: output what is kept of it, a new size the size,
/// an exit whether and with what the session has exited.
pub proof fn law_changes_touch_one_thing_each(
    session: SessionModel,
    bytes: Seq<u8>,
    cols: u16,
    rows: u16,
    code: i32,
)
    ensures
        recovered(after_output(session, bytes)) == recovered(session),
        ({
            let all = session.shown + bytes;
            let kept = after_output(session, bytes).shown;
            &&& kept.len() == (if all.len() < 256 * 1024 {
                all.len()
            } else {
                256 * 1024
            })
            &&& forall|i: int|
                1 <= i <= kept.len() ==> #[trigger] kept[kept.len() - i] == all[all.len() - i]
        }),
        after_resize(session, cols, rows).cols == cols,
        after_resize(session, cols, rows).rows == rows,
        after_resize(session, cols, rows).shown == session.shown,
        after_resize(session, cols, rows).exited == session.exited,
        after_resize(session, cols, rows).exit_code == session.exit_code,
        after_exit(session, code).exited,
        after_exit(session, code).exit_code == Some(code),
        after_exit(session, code).shown == session.shown,
        after_exit(session, code).cols == session.cols,
        after_exit(session, code).rows == session.rows,
        started(session.id, session.pid, session.spec).shown.len() == 0,
{
}

/// What is started is what was asked for: the command, or else the shell asked
/// for, that of the environment, or `/bin/sh`; with every argument, in order, in
/// the directory asked for, in a terminal of the size asked for, where that is
/// not nothing; and with every value asked for in the environment.
pub proof fn law_what_is_asked_for_is_started(spec: SpecModel, env_shell: Option<Seq<char>>)
    ensures
        ({
            let plan = planned(spec, env_shell);
            &&& plan.args.len() == spec.args.len()
            &&& forall|i: int| 0 <= i < spec.args.len() ==> #[trigger] plan.args[i] == spec.args[i]
            &&& plan.cwd == spec.cwd
            &&& spec.command is Some ==> plan.program == spec.command->0
            &&& spec.command is None && spec.shell is Some ==> plan.program == spec.shell->0
            &&& spec.command is None && spec.shell is None && env_shell is Some ==> plan.program
                == env_shell->0
            &&& spec.command is None && spec.shell is None && env_shell is None ==> plan.program
                == "/bin/sh"@
            &&& spec.rows > 0 ==> plan.rows == spec.rows
            &&& spec.rows == 0 ==> plan.rows == 1
            &&& spec.cols > 0 ==> plan.cols == spec.cols
            &&& spec.cols == 0 ==> plan.cols == 1
            &&& plan.env.len() == spec.env.len() + 2
            &&& forall|i: int| 0 <= i < spec.env.len() ==> #[trigger] plan.env[i] == spec.env[i]
        }),
{
}

/// The recorded code is that of the process, read as a signed number of as many
/// bits, and -1 where it is not known.
pub proof fn law_exit_code_is_that_of_the_process(code: u32)
    ensures
        (recorded_exit_code(Some(code)) - code) % 0x1_0000_0000 == 0,
        i32::MIN <= recorded_exit_code(Some(code)) <= i32::MAX,
        code <= 0x7fff_ffff ==> recorded_exit_code(Some(code)) == code,
        recorded_exit_code(None) == -1,
{
}

/// A failure to start says at which stage, and why.
pub proof fn law_spawn_failure_says_where_and_why(reason: Seq<char>)
    ensures
        spawn_failure(SpawnStage::OpenPty, reason) == "openpty failed: "@ + reason,
        spawn_failure(SpawnStage::SpawnCommand, reason) == "spawn failed: "@ + reason,
        spawn_failure(SpawnStage::CloneReader, reason) == "clone reader failed: "@ + reason,
        spawn_failure(SpawnStage::TakeWriter, reason) == "take writer failed: "@ + reason,
{
}

/// An id is `sess`, the process id of the daemon and the time, with hyphens
/// between them: both numbers can be read off it.
pub proof fn law_session_id_names_daemon_and_time(own_pid: u32, nanos: u128) -> (parts: (
    Seq<char>,
    Seq<char>,
))
    ensures
        session_id_at(own_pid, nanos) == seq!['s', 'e', 's', 's', '-'] + parts.0 + seq!['-']
            + parts.1,
        is_numeral(parts.0),
        is_numeral(parts.1),
        numeral_value(parts.0) == own_pid,
        numeral_value(parts.1) == nanos,
{
    reveal_strlit("sess-");
    reveal_strlit("-");
    lemma_decimal_value(own_pid as nat);
    lemma_decimal_value(nanos as nat);
    let parts = (decimal(own_pid as nat), decimal(nanos as nat));
    assert("sess-"@ =~= seq!['s', 'e', 's', 's', '-']);
    assert("-"@ =~= seq!['-']);
    parts
}

/// A list of all sessions has each of them, running or not, with its process,
/// its directory, its arguments and its size, and nothing else.
pub proof fn law_every_session_is_listed_as_it_is(
    list: Seq<RecoveredModel>,
    table: Map<Seq<char>, SessionModel>,
    id: Seq<char>,
)
    requires
        table.dom().finite(),
        lists_all(list, table),
        table.dom().contains(id),
    ensures
        list.len() == table.dom().len(),
        exists|i: int|
            0 <= i < list.len() && #[trigger] list[i].session_id == id && list[i].pid == Some(
                table[id].pid,
            ) && list[i].cwd == table[id].spec.cwd && list[i].args == table[id].spec.args
                && list[i].shell == table[id].spec.shell && list[i].cols == Some(table[id].cols)
                && list[i].rows == Some(table[id].rows) && list[i].exit_code
                == table[id].exit_code && (list[i].status == RecoveredSessionStatus::Exited
                <==> table[id].exited),
        forall|i: int| 0 <= i < list.len() ==> table.dom().contains(#[trigger] list[i].session_id),
{
    lemma_every_session_is_listed(list, table, id);
    let i = choose|i: int| 0 <= i < list.len() && #[trigger] list[i].session_id == id;
    assert(list[i] == recovered(table[id]));
}

/// A plan as a value has all that is started.
pub proof fn law_plan_model_has_every_field(plan: SpawnPlan)
    ensures
        plan.deep_view().rows == plan.rows,
        plan.deep_view().cols == plan.cols,
        plan.deep_view().program == plan.program@,
        plan.deep_view().args.len() == plan.args@.len(),
        forall|i: int|
            0 <= i < plan.args@.len() ==> #[trigger] plan.deep_view().args[i] == plan.args@[i]@,
        plan.deep_view().env.len() == plan.env@.len(),
        forall|i: int|
            0 <= i < plan.env@.len() ==> #[trigger] plan.deep_view().env[i] == (
                plan.env@[i].0@,
                plan.env@[i].1@,
            ),
        plan.cwd is Some <==> plan.deep_view().cwd is Some,
        plan.cwd is Some ==> plan.deep_view().cwd->0 == plan.cwd->0@,
{
}

impl Session {
    /// A session as a value has what the session was started with and what has
    /// become of it.
    proof fn law_session_model_has_every_field(self)
        ensures
            self.deep_view().id == self.id@,
            self.deep_view().pid == self.pid,
            self.deep_view().spec == self.spec.deep_view(),
            self.deep_view().cols == self.cols,
            self.deep_view().rows == self.rows,
            self.deep_view().shown == self.scrollback@,
            self.deep_view().exited == self.exited,
            self.deep_view().exit_code == self.exit_code,
    {
    }
}

impl SessionTable {
    /// The table as a value has every session, as it is, under its id.
    proof fn law_table_model_has_every_session(self, id: Seq<char>)
        ensures
            self@.dom().contains(id) <==> self.sessions@.dom().contains(id),
            self@.dom().contains(id) ==> self@[id] == self.sessions@[id].deep_view(),
    {
    }
}

/// Output is read in pieces of up to 8 times 1024 bytes, and 1024 pieces wait for
/// a client that is slow.
pub proof fn law_output_is_read_in_pieces()
    ensures
        OUTPUT_CHUNK == 8 * 1024,
        BROADCAST_CAP == 1024,
{
}

} // verus!
