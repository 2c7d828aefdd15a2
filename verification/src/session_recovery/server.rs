//! What the daemon answers, and to whom.

use crate::session_recovery::bridge::{
    law_attaching_shows_replay_and_output, output_frames, pumped, shown,
};
use crate::session_recovery::client::{handshake_error, hello};
use crate::session_recovery::daemon::{
    after_outputs, law_session_keeps_the_end_of_its_output, started, Session, SessionModel,
};
use crate::session_recovery::ipc::{
    RequestModel, ResponseModel, SpecModel, SupervisorRequest, SupervisorResponse,
    SUPERVISOR_PROTOCOL_VERSION,
};
use crate::session_recovery::registry::RecoveredSession;
use crate::session_recovery::scrollback::{joined, last_bytes, SCROLLBACK_CAP};
use crate::text::same_text;
use vstd::prelude::*;

verus! {

/// The secret that clients have to present: that of the environment unless it
/// is empty, else the one that was kept in the file; `None` lets everyone in.
pub fn select_auth_token(environment: Option<String>, kept: Option<String>) -> (r: Option<String>)
    ensures
        r == (match environment {
            Some(token) if token@.len() > 0 => Some(token),
            _ => kept,
        }),
{
    match environment {
        Some(token) => if token.as_str().is_empty() {
            kept
        } else {
            Some(token)
        },
        None => kept,
    }
}

/// One client's connection.
#[derive(Debug, Clone)]
pub struct Connection {
    supervisor_pid: u32,
    expected: Option<String>,
    admitted: bool,
}

/// A connection as a mathematical value.
pub struct ConnectionModel {
    pub supervisor_pid: u32,
    /// The secret that the client has to present, if any.
    pub expected: Option<Seq<char>>,
    /// Whether the client may ask.
    pub admitted: bool,
}

impl View for Connection {
    type V = ConnectionModel;

    closed spec fn view(&self) -> ConnectionModel {
        ConnectionModel {
            supervisor_pid: self.supervisor_pid,
            expected: self.expected.deep_view(),
            admitted: self.admitted,
        }
    }
}

/// What becomes of a request.
#[derive(Debug, Clone)]
pub enum Gate {
    /// It is answered, and the client may ask.
    Welcome(SupervisorResponse),
    /// It is answered, and nothing is done.
    Refuse(SupervisorResponse),
    /// It is done.
    Pass(SupervisorRequest),
}

/// Whether a secret that a client presents is the one that is expected.
pub open spec fn token_fits(expected: Option<Seq<char>>, presented: Seq<char>) -> bool {
    match expected {
        Some(token) => token == presented,
        None => true,
    }
}

/// Whether the client may ask once it has sent `request`.
pub open spec fn admitted_after(connection: ConnectionModel, request: RequestModel) -> bool {
    match request {
        RequestModel::Hello { auth_token, .. } => token_fits(connection.expected, auth_token)
            || connection.admitted,
        _ => connection.admitted,
    }
}

/// What becomes of a request, as a mathematical value.
pub enum GateModel {
    Welcome(ResponseModel),
    Refuse(ResponseModel),
    Pass(RequestModel),
}

impl DeepView for Gate {
    type V = GateModel;

    open spec fn deep_view(&self) -> GateModel {
        match *self {
            Gate::Welcome(response) => GateModel::Welcome(response.deep_view()),
            Gate::Refuse(response) => GateModel::Refuse(response.deep_view()),
            Gate::Pass(request) => GateModel::Pass(request.deep_view()),
        }
    }
}

/// The refusal for want of the secret.
pub open spec fn unauthorized_with(message: Seq<char>) -> GateModel {
    GateModel::Refuse(ResponseModel::Error { code: "unauthorized"@, message })
}

/// What becomes of `request`: a greeting is welcome where it presents the
/// secret, any other request is done where the client may ask.
pub open spec fn gate_for(connection: ConnectionModel, request: RequestModel) -> GateModel {
    match request {
        RequestModel::Hello { auth_token, .. } => if token_fits(connection.expected, auth_token) {
            GateModel::Welcome(
                ResponseModel::HelloAck {
                    supervisor_pid: connection.supervisor_pid,
                    protocol_version: SUPERVISOR_PROTOCOL_VERSION,
                },
            )
        } else {
            unauthorized_with("the token does not match"@)
        },
        _ => if connection.admitted {
            GateModel::Pass(request)
        } else {
            unauthorized_with("say hello first"@)
        },
    }
}

/// A connection that has said nothing yet.
pub open spec fn fresh_connection(
    supervisor_pid: u32,
    expected: Option<Seq<char>>,
) -> ConnectionModel {
    ConnectionModel { supervisor_pid, expected, admitted: expected is None }
}

impl Connection {
    /// A connection that has said nothing yet. Where no secret is expected the
    /// client may ask at once.
    pub fn new(supervisor_pid: u32, expected: Option<String>) -> (r: Self)
        ensures
            r@ == fresh_connection(supervisor_pid, expected.deep_view()),
    {
        let admitted = expected.is_none();
        Connection { supervisor_pid, expected, admitted }
    }

    /// Takes a request in and says what becomes of it.
    pub fn receive(&mut self, request: SupervisorRequest) -> (gate: Gate)
        ensures
            final(self)@ == (ConnectionModel {
                admitted: admitted_after(old(self)@, request.deep_view()),
                ..old(self)@
            }),
            gate.deep_view() == gate_for(old(self)@, request.deep_view()),
    {
        match &request {
            SupervisorRequest::Hello { auth_token, .. } => {
                let fits = match &self.expected {
                    Some(token) => same_text(token, auth_token),
                    None => true,
                };
                if fits {
                    self.admitted = true;
                    Gate::Welcome(
                        SupervisorResponse::HelloAck {
                            supervisor_pid: self.supervisor_pid,
                            protocol_version: SUPERVISOR_PROTOCOL_VERSION,
                        },
                    )
                } else {
                    unauthorized("the token does not match")
                }
            },
            _ => if self.admitted {
                Gate::Pass(request)
            } else {
                unauthorized("say hello first")
            },
        }
    }
}

/// The refusal for want of the secret.
fn unauthorized(message: &str) -> (gate: Gate)
    ensures
        gate.deep_view() == unauthorized_with(message@),
{
    Gate::Refuse(
        SupervisorResponse::Error {
            code: "unauthorized".to_string(),
            message: message.to_string(),
        },
    )
}

// ==================== Answers ====================

/// What the daemon does for a client and can fail at.
#[derive(Debug, Clone, Copy, PartialEq, Eq, Structural)]
pub enum Work {
    Spawn,
    Write,
    Resize,
}

/// What a request came to.
#[derive(Debug, Clone)]
pub enum WorkOutcome {
    /// A session was started: its id and its process id.
    Started(String, u32),
    /// The sessions.
    Listed(Vec<RecoveredSession>),
    /// It was done.
    Done,
    /// There is no such session.
    NoSession(String),
    /// It failed, for this reason.
    Failed(Work, String),
    /// The request was not understood, for this reason.
    NotUnderstood(String),
}

/// The code of work that failed.
pub open spec fn failure_code(work: Work) -> Seq<char> {
    match work {
        Work::Spawn => "spawn_failed"@,
        Work::Write => "write_failed"@,
        Work::Resize => "resize_failed"@,
    }
}

/// The answer to what a request came to.
pub open spec fn answer_to(outcome: WorkOutcome) -> ResponseModel {
    match outcome {
        WorkOutcome::Started(session_id, pid) => ResponseModel::Spawned {
            session_id: session_id@,
            pid,
        },
        WorkOutcome::Listed(sessions) => ResponseModel::Sessions { sessions: sessions.deep_view() },
        WorkOutcome::Done => ResponseModel::Okay,
        WorkOutcome::NoSession(session_id) => ResponseModel::Error {
            code: "not_found"@,
            message: session_id@,
        },
        WorkOutcome::Failed(work, reason) => ResponseModel::Error {
            code: failure_code(work),
            message: reason@,
        },
        WorkOutcome::NotUnderstood(reason) => ResponseModel::Error {
            code: "bad_request"@,
            message: reason@,
        },
    }
}

/// The answer to what a request came to.
pub fn answer(outcome: WorkOutcome) -> (r: SupervisorResponse)
    ensures
        r.deep_view() == answer_to(outcome),
{
    match outcome {
        WorkOutcome::Started(session_id, pid) => SupervisorResponse::Spawned { session_id, pid },
        WorkOutcome::Listed(sessions) => SupervisorResponse::Sessions { sessions },
        WorkOutcome::Done => SupervisorResponse::Okay,
        WorkOutcome::NoSession(session_id) => SupervisorResponse::Error {
            code: "not_found".to_string(),
            message: session_id,
        },
        WorkOutcome::Failed(work, reason) => {
            let code = match work {
                Work::Spawn => "spawn_failed",
                Work::Write => "write_failed",
                Work::Resize => "resize_failed",
            };
            SupervisorResponse::Error { code: code.to_string(), message: reason }
        },
        WorkOutcome::NotUnderstood(reason) => SupervisorResponse::Error {
            code: "bad_request".to_string(),
            message: reason,
        },
    }
}

/// The frames that a client is sent at once when it attaches: the replay, and
/// the exit where the session has exited.
pub open spec fn attach_frames_of(session: SessionModel) -> Seq<ResponseModel> {
    let replay = ResponseModel::Scrollback { session_id: session.id, data: session.shown };
    match session.exit_code {
        Some(exit_code) => seq![
            replay,
            ResponseModel::Exited { session_id: session.id, exit_code },
        ],
        None => seq![replay],
    }
}

/// The frames that a client is sent at once when it attaches to `session`.
pub fn attach_frames(session: &Session) -> (r: Vec<SupervisorResponse>)
    ensures
        r.deep_view() == attach_frames_of(session.deep_view()),
{
    let mut frames: Vec<SupervisorResponse> = vec![
        SupervisorResponse::Scrollback {
            session_id: session.session_id(),
            data: session.scrollback_snapshot(),
        },
    ];
    if let Some(exit_code) = session.exit_code() {
        frames.push(SupervisorResponse::Exited { session_id: session.session_id(), exit_code });
    }
    assert(frames.deep_view() =~= attach_frames_of(session.deep_view()));
    frames
}

/// What happens to a session while a client is attached.
#[derive(Debug, Clone)]
pub enum SessionEvent {
    /// It has shown these bytes.
    Output(Vec<u8>),
    /// It has exited with this code.
    Exited(i32),
}

/// The frame that tells an attached client of what happened to `session_id`.
pub fn event_frame(session_id: &str, event: SessionEvent) -> (r: SupervisorResponse)
    ensures
        r.deep_view() == (match event {
            SessionEvent::Output(data) => ResponseModel::Output {
                session_id: session_id@,
                data: data@,
            },
            SessionEvent::Exited(exit_code) => ResponseModel::Exited {
                session_id: session_id@,
                exit_code,
            },
        }),
{
    match event {
        SessionEvent::Output(data) => SupervisorResponse::Output {
            session_id: session_id.to_string(),
            data,
        },
        SessionEvent::Exited(exit_code) => SupervisorResponse::Exited {
            session_id: session_id.to_string(),
            exit_code,
        },
    }
}

// ==================== Laws ====================

/// The connection once `requests` were received one after the other.
pub open spec fn after_requests(
    connection: ConnectionModel,
    requests: Seq<RequestModel>,
) -> ConnectionModel
    decreases requests.len(),
{
    if requests.len() == 0 {
        connection
    } else {
        let before = after_requests(connection, requests.drop_last());
        ConnectionModel { admitted: admitted_after(before, requests.last()), ..before }
    }
}

/// Whether one of `requests` presents the secret `token`.
pub open spec fn presents(requests: Seq<RequestModel>, token: Seq<char>) -> bool {
    exists|i: int|
        0 <= i < requests.len() && (#[trigger] requests[i] matches RequestModel::Hello {
            auth_token,
            ..
        } && auth_token == token)
}

/// A client that has to present a secret may ask just once it has presented
/// it, whatever else it has sent.
pub proof fn law_only_the_secret_lets_in(
    supervisor_pid: u32,
    token: Seq<char>,
    requests: Seq<RequestModel>,
)
    ensures
        ({
            let fresh = fresh_connection(supervisor_pid, Some(token));
            &&& after_requests(fresh, requests).admitted <==> presents(requests, token)
            &&& after_requests(fresh, requests).expected == Some(token)
        }),
    decreases requests.len(),
{
    if requests.len() > 0 {
        let front = requests.drop_last();
        law_only_the_secret_lets_in(supervisor_pid, token, front);
        if presents(front, token) {
            let i = choose|i: int|
                0 <= i < front.len() && (#[trigger] front[i] matches RequestModel::Hello {
                    auth_token,
                    ..
                } && auth_token == token);
            assert(requests[i] == front[i]);
        }
        if presents(requests, token) && !presents(front, token) {
            let i = choose|i: int|
                0 <= i < requests.len() && (#[trigger] requests[i] matches RequestModel::Hello {
                    auth_token,
                    ..
                } && auth_token == token);
            if i < front.len() {
                assert(front[i] == requests[i]);
            }
        }
        let last = requests.last();
        assert(requests[requests.len() - 1] == last);
    }
}

/// Where no secret is expected every client may ask, from the first request on.
pub proof fn law_without_a_secret_everyone_may_ask(
    supervisor_pid: u32,
    requests: Seq<RequestModel>,
)
    ensures
        after_requests(fresh_connection(supervisor_pid, None), requests).admitted,
    decreases requests.len(),
{
    if requests.len() > 0 {
        law_without_a_secret_everyone_may_ask(supervisor_pid, requests.drop_last());
    }
}

/// A client that knows the secret shakes hands with the daemon and may ask; one
/// that presents another is told so and may not.
pub proof fn law_handshake(supervisor_pid: u32, token: Seq<char>, presented: Seq<char>)
    ensures
        ({
            let fresh = fresh_connection(supervisor_pid, Some(token));
            if presented == token {
                &&& gate_for(fresh, hello(presented)) matches GateModel::Welcome(answer)
                &&& handshake_error(answer, Seq::empty()) is None
                &&& admitted_after(fresh, hello(presented))
            } else {
                &&& gate_for(fresh, hello(presented)) matches GateModel::Refuse(answer)
                &&& handshake_error(answer, Seq::empty()) == Some(
                    "handshake rejected ("@ + "unauthorized"@ + "): "@
                        + "the token does not match"@,
                )
                &&& !admitted_after(fresh, hello(presented))
            }
        }),
{
}

/// A request of a client that may not ask is never done, and is answered; one
/// of a client that may ask is done as it is.
pub proof fn law_refused_requests_are_not_done(
    connection: ConnectionModel,
    request: RequestModel,
)
    requires
        !(request is Hello),
    ensures
        connection.admitted ==> gate_for(connection, request) == GateModel::Pass(request),
        !connection.admitted ==> gate_for(connection, request) == unauthorized_with(
            "say hello first"@,
        ),
{
}

/// A client that attaches to a running session is shown the end of all that
/// the session has shown before, whoever was attached then, and all that it
/// shows from there on.
pub proof fn law_reattaching_shows_everything_kept(
    id: Seq<char>,
    pid: u32,
    spec: SpecModel,
    before: Seq<Seq<u8>>,
    after: Seq<Seq<u8>>,
)
    ensures
        ({
            let session = after_outputs(started(id, pid, spec), before);
            shown(id, attach_frames_of(session) + output_frames(id, after)) == last_bytes(
                joined(before),
                SCROLLBACK_CAP as int,
            ) + joined(after)
        }),
{
    law_session_keeps_the_end_of_its_output(id, pid, spec, before);
    law_attaching_shows_replay_and_output(id, before, after);
}

/// A client that attaches to a session that has exited is shown what is kept of
/// its output, and nothing after it.
pub proof fn law_attaching_after_the_exit_shows_the_replay(
    session: SessionModel,
    late: Seq<ResponseModel>,
)
    requires
        session.exit_code is Some,
    ensures
        shown(session.id, attach_frames_of(session) + late) == session.shown,
{
    let frames = attach_frames_of(session) + late;
    let exit = frames[1];
    assert(frames.drop_first()[0] == exit);
    assert(pumped(session.id, exit) is Stop);
    assert(shown(session.id, frames.drop_first()) =~= Seq::<u8>::empty());
    assert(frames[0] == ResponseModel::Scrollback { session_id: session.id, data: session.shown });
    assert(shown(session.id, frames) =~= session.shown);
}

/// A greeting is answered by whether it presents the secret that is expected, if
/// one is, and by nothing else: it is acknowledged with the daemon's process id
/// and the first version, or refused. A refusal does not shut a client out that
/// was let in before.
pub proof fn law_greeting_is_answered_by_the_secret(
    connection: ConnectionModel,
    version: u32,
    instance: Seq<char>,
    token: Seq<char>,
)
    ensures
        ({
            let greeting = RequestModel::Hello {
                protocol_version: version,
                app_instance_id: instance,
                auth_token: token,
            };
            let fits = connection.expected is None || connection.expected->0 == token;
            &&& fits ==> gate_for(connection, greeting) == GateModel::Welcome(
                ResponseModel::HelloAck {
                    supervisor_pid: connection.supervisor_pid,
                    protocol_version: 1,
                },
            )
            &&& !fits ==> gate_for(connection, greeting) == GateModel::Refuse(
                ResponseModel::Error {
                    code: "unauthorized"@,
                    message: "the token does not match"@,
                },
            )
            &&& admitted_after(connection, greeting) <==> fits || connection.admitted
        }),
{
}

/// Any other request lets nobody in and shuts nobody out; it is done as it is for
/// a client that may ask, and refused as unauthorized for one that may not.
pub proof fn law_other_requests_change_no_admission(
    connection: ConnectionModel,
    request: RequestModel,
)
    requires
        !(request is Hello),
    ensures
        admitted_after(connection, request) == connection.admitted,
        connection.admitted ==> gate_for(connection, request) == GateModel::Pass(request),
        !connection.admitted ==> gate_for(connection, request) == GateModel::Refuse(
            ResponseModel::Error { code: "unauthorized"@, message: "say hello first"@ },
        ),
{
}

/// A new connection expects the daemon's secret, and is open from the start just
/// where there is none.
pub proof fn law_new_connection_waits_for_the_secret(
    supervisor_pid: u32,
    expected: Option<Seq<char>>,
)
    ensures
        fresh_connection(supervisor_pid, expected).supervisor_pid == supervisor_pid,
        fresh_connection(supervisor_pid, expected).expected == expected,
        fresh_connection(supervisor_pid, expected).admitted <==> expected is None,
{
}

/// What a request came to is answered as it is: a session by its id and process,
/// the list of sessions by every session, a failure by its code and reason.
pub proof fn law_answer_says_what_happened(outcome: WorkOutcome)
    ensures
        outcome matches WorkOutcome::Started(session_id, pid) ==> answer_to(outcome) == (
        ResponseModel::Spawned { session_id: session_id@, pid }),
        outcome matches WorkOutcome::Listed(sessions) ==> (answer_to(
            outcome,
        ) matches ResponseModel::Sessions { sessions: told } && told.len() == sessions@.len()
            && forall|i: int|
            0 <= i < sessions@.len() ==> #[trigger] told[i] == sessions@[i].deep_view()),
        outcome is Done <==> answer_to(outcome) is Okay,
        outcome matches WorkOutcome::NoSession(session_id) ==> answer_to(outcome) == (
        ResponseModel::Error { code: "not_found"@, message: session_id@ }),
        outcome matches WorkOutcome::Failed(work, reason) ==> answer_to(outcome) == (
        ResponseModel::Error {
            code: match work {
                Work::Spawn => "spawn_failed"@,
                Work::Write => "write_failed"@,
                Work::Resize => "resize_failed"@,
            },
            message: reason@,
        }),
        outcome matches WorkOutcome::NotUnderstood(reason) ==> answer_to(outcome) == (
        ResponseModel::Error { code: "bad_request"@, message: reason@ }),
{
}

/// A client that attaches is sent all that is kept of the session's output first,
/// and the exit behind it just where the session has one; nothing else.
pub proof fn law_attaching_client_is_sent_the_replay(session: SessionModel)
    ensures
        attach_frames_of(session).len() == (if session.exit_code is Some {
            2int
        } else {
            1int
        }),
        attach_frames_of(session)[0] matches ResponseModel::Scrollback { session_id, data }
            && session_id == session.id && data == session.shown,
        session.exit_code is Some ==> (attach_frames_of(
            session,
        )[1] matches ResponseModel::Exited { session_id, exit_code } && session_id == session.id
            && exit_code == session.exit_code->0),
{
}

/// What becomes of a request, as a value, is the same, with all that it carries.
pub proof fn law_gate_model_has_every_field(gate: Gate)
    ensures
        gate matches Gate::Welcome(response) ==> gate.deep_view() == GateModel::Welcome(
            response.deep_view(),
        ),
        gate matches Gate::Refuse(response) ==> gate.deep_view() == GateModel::Refuse(
            response.deep_view(),
        ),
        gate matches Gate::Pass(request) ==> gate.deep_view() == GateModel::Pass(
            request.deep_view(),
        ),
{
}

impl Connection {
    /// A connection as a value has the secret that is expected, and whether the
    /// client may ask.
    proof fn law_connection_model_has_every_field(self)
        ensures
            self@.supervisor_pid == self.supervisor_pid,
            self@.expected is Some <==> self.expected is Some,
            self.expected is Some ==> self@.expected->0 == self.expected->0@,
            self@.admitted == self.admitted,
    {
    }
}

} // verus!
