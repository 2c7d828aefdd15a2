//! What a client and the supervisor say to each other, one JSON text a line.

use crate::session_recovery::registry::{RecoveredModel, RecoveredSession};
use crate::text::{
    concat2, copy_list, copy_option, is_white_space, law_trimming_takes_white_space_only,
    strip_back, strip_front, trim, trimmed,
};
use vstd::prelude::*;

verus! {

/// The version of what client and supervisor say to each other.
pub const SUPERVISOR_PROTOCOL_VERSION: u32 = 1;

/// What to run in a session that the supervisor owns.
#[derive(Debug, Clone, PartialEq, Eq)]
pub struct SpawnSpec {
    pub shell: Option<String>,
    pub cwd: Option<String>,
    pub cols: u16,
    pub rows: u16,
    /// The program to run in place of a login shell.
    pub command: Option<String>,
    pub args: Vec<String>,
    pub env: Vec<(String, String)>,
}

/// What to run, as a mathematical value.
pub struct SpecModel {
    pub shell: Option<Seq<char>>,
    pub cwd: Option<Seq<char>>,
    pub cols: u16,
    pub rows: u16,
    pub command: Option<Seq<char>>,
    pub args: Seq<Seq<char>>,
    pub env: Seq<(Seq<char>, Seq<char>)>,
}

impl DeepView for SpawnSpec {
    type V = SpecModel;

    open spec fn deep_view(&self) -> SpecModel {
        SpecModel {
            shell: self.shell.deep_view(),
            cwd: self.cwd.deep_view(),
            cols: self.cols,
            rows: self.rows,
            command: self.command.deep_view(),
            args: self.args.deep_view(),
            env: self.env.deep_view(),
        }
    }
}

/// A copy of a list of names and values.
pub fn copy_pairs(list: &Vec<(String, String)>) -> (r: Vec<(String, String)>)
    ensures
        r.deep_view() == list.deep_view(),
{
    let mut r: Vec<(String, String)> = Vec::new();
    let mut i: usize = 0;
    while i < list.len()
        invariant
            i <= list.len(),
            r.deep_view() == list.deep_view().take(i as int),
        decreases list.len() - i,
    {
        let ghost before = r.deep_view();
        r.push((list[i].0.clone(), list[i].1.clone()));
        assert(r.deep_view() =~= before.push(list@[i as int].deep_view()));
        assert(r.deep_view() =~= list.deep_view().take(i + 1));
        i += 1;
    }
    assert(list.deep_view().take(i as int) =~= list.deep_view());
    r
}

impl Default for SpawnSpec {
    /// Nothing to run, in no room.
    fn default() -> (r: Self)
        ensures
            r.deep_view() == (SpecModel {
                shell: None,
                cwd: None,
                cols: 0,
                rows: 0,
                command: None,
                args: Seq::empty(),
                env: Seq::empty(),
            }),
    {
        let args: Vec<String> = Vec::new();
        let env: Vec<(String, String)> = Vec::new();
        assert(args.deep_view() =~= Seq::<Seq<char>>::empty());
        assert(env.deep_view() =~= Seq::<(Seq<char>, Seq<char>)>::empty());
        SpawnSpec { shell: None, cwd: None, cols: 0, rows: 0, command: None, args, env }
    }
}

impl SpawnSpec {
    /// A copy.
    pub fn copy(&self) -> (r: Self)
        ensures
            r.deep_view() == self.deep_view(),
    {
        SpawnSpec {
            shell: copy_option(&self.shell),
            cwd: copy_option(&self.cwd),
            cols: self.cols,
            rows: self.rows,
            command: copy_option(&self.command),
            args: copy_list(&self.args),
            env: copy_pairs(&self.env),
        }
    }
}

/// What a client asks of the supervisor.
#[derive(Debug, Clone, PartialEq, Eq)]
pub enum SupervisorRequest {
    Hello {
        protocol_version: u32,
        app_instance_id: String,
        /// The secret that the daemon was started with.
        auth_token: String,
    },
    Spawn { spec: SpawnSpec },
    Write {
        session_id: String,
        /// The bytes to write to the terminal.
        data: Vec<u8>,
    },
    Resize { session_id: String, cols: u16, rows: u16 },
    Kill { session_id: String },
    ListSessions,
    /// Send what the session has shown so far, and then what it shows.
    Attach { session_id: String },
    Detach { session_id: String },
    Shutdown { kill_all: bool },
}

/// A request as a mathematical value.
pub enum RequestModel {
    Hello { protocol_version: u32, app_instance_id: Seq<char>, auth_token: Seq<char> },
    Spawn { spec: SpecModel },
    Write { session_id: Seq<char>, data: Seq<u8> },
    Resize { session_id: Seq<char>, cols: u16, rows: u16 },
    Kill { session_id: Seq<char> },
    ListSessions,
    Attach { session_id: Seq<char> },
    Detach { session_id: Seq<char> },
    Shutdown { kill_all: bool },
}

impl DeepView for SupervisorRequest {
    type V = RequestModel;

    open spec fn deep_view(&self) -> RequestModel {
        match *self {
            SupervisorRequest::Hello { protocol_version, app_instance_id, auth_token } =>
            RequestModel::Hello {
                protocol_version,
                app_instance_id: app_instance_id@,
                auth_token: auth_token@,
            },
            SupervisorRequest::Spawn { spec } => RequestModel::Spawn { spec: spec.deep_view() },
            SupervisorRequest::Write { session_id, data } => RequestModel::Write {
                session_id: session_id@,
                data: data@,
            },
            SupervisorRequest::Resize { session_id, cols, rows } => RequestModel::Resize {
                session_id: session_id@,
                cols,
                rows,
            },
            SupervisorRequest::Kill { session_id } => RequestModel::Kill {
                session_id: session_id@,
            },
            SupervisorRequest::ListSessions => RequestModel::ListSessions,
            SupervisorRequest::Attach { session_id } => RequestModel::Attach {
                session_id: session_id@,
            },
            SupervisorRequest::Detach { session_id } => RequestModel::Detach {
                session_id: session_id@,
            },
            SupervisorRequest::Shutdown { kill_all } => RequestModel::Shutdown { kill_all },
        }
    }
}

/// What the supervisor answers or reports.
#[derive(Debug, Clone)]
pub enum SupervisorResponse {
    HelloAck { supervisor_pid: u32, protocol_version: u32 },
    Spawned { session_id: String, pid: u32 },
    Okay,
    Sessions { sessions: Vec<RecoveredSession> },
    /// What the session has shown so far.
    Scrollback { session_id: String, data: Vec<u8> },
    /// What the session shows now.
    Output { session_id: String, data: Vec<u8> },
    /// The session's process has exited.
    Exited { session_id: String, exit_code: i32 },
    Error { code: String, message: String },
}

/// A response as a mathematical value.
pub enum ResponseModel {
    HelloAck { supervisor_pid: u32, protocol_version: u32 },
    Spawned { session_id: Seq<char>, pid: u32 },
    Okay,
    Sessions { sessions: Seq<RecoveredModel> },
    Scrollback { session_id: Seq<char>, data: Seq<u8> },
    Output { session_id: Seq<char>, data: Seq<u8> },
    Exited { session_id: Seq<char>, exit_code: i32 },
    Error { code: Seq<char>, message: Seq<char> },
}

impl DeepView for SupervisorResponse {
    type V = ResponseModel;

    open spec fn deep_view(&self) -> ResponseModel {
        match *self {
            SupervisorResponse::HelloAck { supervisor_pid, protocol_version } =>
            ResponseModel::HelloAck { supervisor_pid, protocol_version },
            SupervisorResponse::Spawned { session_id, pid } => ResponseModel::Spawned {
                session_id: session_id@,
                pid,
            },
            SupervisorResponse::Okay => ResponseModel::Okay,
            SupervisorResponse::Sessions { sessions } => ResponseModel::Sessions {
                sessions: sessions.deep_view(),
            },
            SupervisorResponse::Scrollback { session_id, data } => ResponseModel::Scrollback {
                session_id: session_id@,
                data: data@,
            },
            SupervisorResponse::Output { session_id, data } => ResponseModel::Output {
                session_id: session_id@,
                data: data@,
            },
            SupervisorResponse::Exited { session_id, exit_code } => ResponseModel::Exited {
                session_id: session_id@,
                exit_code,
            },
            SupervisorResponse::Error { code, message } => ResponseModel::Error {
                code: code@,
                message: message@,
            },
        }
    }
}

// ==================== Frames ====================

/// The line that carries a JSON text.
pub open spec fn frame(json: Seq<char>) -> Seq<char> {
    json.push('\n')
}

/// The line that carries a JSON text.
pub fn encode_frame(json: String) -> (r: String)
    ensures
        r@ == frame(json@),
{
    let mut line = json;
    line.push('\n');
    line
}

/// The JSON text in a line that was read, or that the connection is closed
/// where nothing could be read any more.
pub open spec fn unframed(line: Seq<char>) -> Option<Seq<char>> {
    if line.len() == 0 {
        None
    } else {
        Some(trimmed(line))
    }
}

/// The JSON text in a line that was read. An empty line, without even its end,
/// is what reading gives once the daemon has closed the connection.
pub fn decode_frame(line: &str) -> (r: Result<String, String>)
    ensures
        match unframed(line@) {
            Some(json) => r matches Ok(text) && text@ == json,
            None => r matches Err(text) && text@ == "daemon closed connection"@,
        },
{
    if line.is_empty() {
        Err("daemon closed connection".to_string())
    } else {
        Ok(trim(line).to_string())
    }
}

/// The text of an error in sending or receiving: what was being done, and why
/// it failed.
pub fn transport_error(action: TransportAction, reason: &str) -> (r: String)
    ensures
        r@ == action.name() + ": "@ + reason@,
{
    let name = match action {
        TransportAction::Encode => "encode: ",
        TransportAction::Write => "write: ",
        TransportAction::Flush => "flush: ",
        TransportAction::Read => "read: ",
        TransportAction::Decode => "decode: ",
        TransportAction::SetTimeout => "set timeout: ",
        TransportAction::CloneStream => "clone stream: ",
    };
    proof {
        reveal_strlit(": ");
        reveal_strlit("encode");
        reveal_strlit("encode: ");
        reveal_strlit("write");
        reveal_strlit("write: ");
        reveal_strlit("flush");
        reveal_strlit("flush: ");
        reveal_strlit("read");
        reveal_strlit("read: ");
        reveal_strlit("decode");
        reveal_strlit("decode: ");
        reveal_strlit("set timeout");
        reveal_strlit("set timeout: ");
        reveal_strlit("clone stream");
        reveal_strlit("clone stream: ");
        assert(name@ =~= action.name() + ": "@);
    }
    concat2(name, reason)
}

/// What a connection does.
#[derive(Debug, Clone, Copy, PartialEq, Eq, Structural)]
pub enum TransportAction {
    Encode,
    Write,
    Flush,
    Read,
    Decode,
    SetTimeout,
    CloneStream,
}

impl TransportAction {
    /// What the action is called in an error text.
    pub open spec fn name(self) -> Seq<char> {
        match self {
            TransportAction::Encode => "encode"@,
            TransportAction::Write => "write"@,
            TransportAction::Flush => "flush"@,
            TransportAction::Read => "read"@,
            TransportAction::Decode => "decode"@,
            TransportAction::SetTimeout => "set timeout"@,
            TransportAction::CloneStream => "clone stream"@,
        }
    }
}

// ==================== Laws ====================

/// A line gives back the JSON text that it was made of, where that text neither
/// starts nor ends in white space, as the text of a JSON object never does.
pub proof fn law_frame_round_trip(json: Seq<char>)
    requires
        json.len() > 0,
        !is_white_space(json[0]),
        !is_white_space(json.last()),
    ensures
        unframed(frame(json)) == Some(json),
{
    let white = |c: char| is_white_space(c);
    let line = frame(json);
    assert(strip_front(line, white) == line);
    assert(line.drop_last() =~= json);
    assert(strip_back(json, white) == json);
}

/// A frame is one line: where the JSON text has no line feed, as JSON that is
/// written without line breaks never has, the frame has one, at its end.
pub proof fn law_frame_is_one_line(json: Seq<char>)
    requires
        forall|i: int| 0 <= i < json.len() ==> json[i] != '\n',
    ensures
        frame(json).len() == json.len() + 1,
        frame(json).last() == '\n',
        forall|i: int| 0 <= i < frame(json).len() && frame(json)[i] == '\n' ==> i == json.len(),
        frame(json).drop_last() == json,
{
    assert(frame(json).drop_last() =~= json);
}

/// A line has all of its JSON text, character by character, and one line feed
/// behind it.
pub proof fn law_frame_has_the_whole_text(json: Seq<char>)
    ensures
        frame(json).len() == json.len() + 1,
        forall|i: int| 0 <= i < json.len() ==> #[trigger] frame(json)[i] == json[i],
        frame(json)[json.len() as int] == '\n',
{
}

/// A connection counts as closed just where nothing at all was read. What is
/// read of a line is a piece of it, and what it loses is white space.
pub proof fn law_line_is_read_whole(line: Seq<char>) -> (ends: (int, int))
    ensures
        unframed(line) is None <==> line.len() == 0,
        0 <= ends.0 <= ends.1 <= line.len(),
        line.len() > 0 ==> unframed(line) == Some(line.subrange(ends.0, ends.1)),
        forall|i: int| 0 <= i < ends.0 ==> is_white_space(#[trigger] line[i]),
        forall|i: int| ends.1 <= i < line.len() ==> is_white_space(#[trigger] line[i]),
{
    law_trimming_takes_white_space_only(line)
}

/// Each error in sending or receiving is named after what was being done.
pub proof fn law_transport_errors_are_named()
    ensures
        TransportAction::Encode.name() == "encode"@,
        TransportAction::Write.name() == "write"@,
        TransportAction::Flush.name() == "flush"@,
        TransportAction::Read.name() == "read"@,
        TransportAction::Decode.name() == "decode"@,
        TransportAction::SetTimeout.name() == "set timeout"@,
        TransportAction::CloneStream.name() == "clone stream"@,
{
}

/// What to run, as a value, is all that is to be run.
pub proof fn law_spec_model_has_every_field(spec: SpawnSpec)
    ensures
        spec.deep_view().shell is Some <==> spec.shell is Some,
        spec.shell is Some ==> spec.deep_view().shell->0 == spec.shell->0@,
        spec.deep_view().cwd is Some <==> spec.cwd is Some,
        spec.cwd is Some ==> spec.deep_view().cwd->0 == spec.cwd->0@,
        spec.deep_view().command is Some <==> spec.command is Some,
        spec.command is Some ==> spec.deep_view().command->0 == spec.command->0@,
        spec.deep_view().cols == spec.cols,
        spec.deep_view().rows == spec.rows,
        spec.deep_view().args.len() == spec.args@.len(),
        forall|i: int|
            0 <= i < spec.args@.len() ==> #[trigger] spec.deep_view().args[i] == spec.args@[i]@,
        spec.deep_view().env.len() == spec.env@.len(),
        forall|i: int|
            0 <= i < spec.env@.len() ==> #[trigger] spec.deep_view().env[i] == (
                spec.env@[i].0@,
                spec.env@[i].1@,
            ),
{
}

/// A request as a value is the same request, with all that it carries.
pub proof fn law_request_model_has_every_field(request: SupervisorRequest)
    ensures
        request matches SupervisorRequest::Hello { protocol_version, app_instance_id, auth_token }
            ==> request.deep_view() == (RequestModel::Hello {
            protocol_version,
            app_instance_id: app_instance_id@,
            auth_token: auth_token@,
        }),
        request matches SupervisorRequest::Spawn { spec } ==> request.deep_view() == (
        RequestModel::Spawn { spec: spec.deep_view() }),
        request matches SupervisorRequest::Write { session_id, data } ==> request.deep_view() == (
        RequestModel::Write { session_id: session_id@, data: data@ }),
        request matches SupervisorRequest::Resize { session_id, cols, rows }
            ==> request.deep_view() == (RequestModel::Resize {
            session_id: session_id@,
            cols,
            rows,
        }),
        request matches SupervisorRequest::Kill { session_id } ==> request.deep_view() == (
        RequestModel::Kill { session_id: session_id@ }),
        request is ListSessions <==> request.deep_view() is ListSessions,
        request matches SupervisorRequest::Attach { session_id } ==> request.deep_view() == (
        RequestModel::Attach { session_id: session_id@ }),
        request matches SupervisorRequest::Detach { session_id } ==> request.deep_view() == (
        RequestModel::Detach { session_id: session_id@ }),
        request matches SupervisorRequest::Shutdown { kill_all } ==> request.deep_view() == (
        RequestModel::Shutdown { kill_all }),
{
}

/// A response as a value is the same response, with all that it carries.
pub proof fn law_response_model_has_every_field(response: SupervisorResponse)
    ensures
        response matches SupervisorResponse::HelloAck { supervisor_pid, protocol_version }
            ==> response.deep_view() == (ResponseModel::HelloAck {
            supervisor_pid,
            protocol_version,
        }),
        response matches SupervisorResponse::Spawned { session_id, pid } ==> response.deep_view()
            == (ResponseModel::Spawned { session_id: session_id@, pid }),
        response is Okay <==> response.deep_view() is Okay,
        response matches SupervisorResponse::Sessions { sessions } ==> (
        response.deep_view() matches ResponseModel::Sessions { sessions: told } && told.len()
            == sessions@.len() && forall|i: int|
            0 <= i < sessions@.len() ==> #[trigger] told[i] == sessions@[i].deep_view()),
        response matches SupervisorResponse::Scrollback { session_id, data }
            ==> response.deep_view() == (ResponseModel::Scrollback {
            session_id: session_id@,
            data: data@,
        }),
        response matches SupervisorResponse::Output { session_id, data } ==> response.deep_view()
            == (ResponseModel::Output { session_id: session_id@, data: data@ }),
        response matches SupervisorResponse::Exited { session_id, exit_code }
            ==> response.deep_view() == (ResponseModel::Exited {
            session_id: session_id@,
            exit_code,
        }),
        response matches SupervisorResponse::Error { code, message } ==> response.deep_view() == (
        ResponseModel::Error { code: code@, message: message@ }),
{
}

} // verus!
