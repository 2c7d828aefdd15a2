//! What a client of the daemon asks, and what it makes of the answers.

use crate::session_recovery::ipc::{
    RequestModel, ResponseModel, SpawnSpec, SupervisorRequest, SupervisorResponse,
    SUPERVISOR_PROTOCOL_VERSION,
};
use crate::session_recovery::registry::{RecoveredModel, RecoveredSession};
use crate::text::{concat2, concat3};
use vstd::prelude::*;

verus! {

/// How long a client waits for an answer, in seconds.
pub const READ_TIMEOUT_SECS: u64 = 5;

/// The text of a failure to reach the daemon's socket at `socket_path`.
pub fn connect_error(socket_path: &str, reason: &str) -> (r: String)
    ensures
        r@ == "connect "@ + socket_path@ + ": "@ + reason@,
{
    let mut r = concat3("connect ", socket_path, ": ");
    r.append(reason);
    r
}

/// The first request of a client that knows the secret `token`.
pub open spec fn hello(token: Seq<char>) -> RequestModel {
    RequestModel::Hello {
        protocol_version: SUPERVISOR_PROTOCOL_VERSION,
        app_instance_id: "termul-ui"@,
        auth_token: token,
    }
}

/// The first request of a client that knows the secret `token`.
pub fn hello_request(token: &str) -> (r: SupervisorRequest)
    ensures
        r.deep_view() == hello(token@),
{
    SupervisorRequest::Hello {
        protocol_version: SUPERVISOR_PROTOCOL_VERSION,
        app_instance_id: "termul-ui".to_string(),
        auth_token: token.to_string(),
    }
}

/// The text of an answer that is an error.
pub open spec fn refusal(what: Seq<char>, code: Seq<char>, message: Seq<char>) -> Seq<char> {
    what + code + "): "@ + message
}

/// The text of an answer that is an error.
fn refusal_text(what: &str, code: &str, message: &str) -> (r: String)
    ensures
        r@ == refusal(what@, code@, message@),
{
    let mut r = concat3(what, code, "): ");
    r.append(message);
    r
}

/// Why a client does not go on after the answer to its first request, if it
/// does not; `shown` is the answer as it is shown.
pub open spec fn handshake_error(response: ResponseModel, shown: Seq<char>) -> Option<Seq<char>> {
    match response {
        ResponseModel::HelloAck { .. } => None,
        ResponseModel::Error { code, message } => Some(
            refusal("handshake rejected ("@, code, message),
        ),
        _ => Some("unexpected handshake response: "@ + shown),
    }
}

/// What a client makes of the answer to its first request; `shown` is the
/// answer as it is shown.
pub fn handshake_result(response: SupervisorResponse, shown: &str) -> (r: Result<(), String>)
    ensures
        match handshake_error(response.deep_view(), shown@) {
            None => r is Ok,
            Some(error) => r matches Err(text) && text@ == error,
        },
{
    match response {
        SupervisorResponse::HelloAck { .. } => Ok(()),
        SupervisorResponse::Error { code, message } => Err(
            refusal_text("handshake rejected (", &code, &message),
        ),
        _ => Err(concat2("unexpected handshake response: ", shown)),
    }
}

/// What a client makes of the answer to its question for all sessions; `shown`
/// is the answer as it is shown.
pub fn list_result(response: SupervisorResponse, shown: &str) -> (r: Result<
    Vec<RecoveredSession>,
    String,
>)
    ensures
        match response.deep_view() {
            ResponseModel::Sessions { sessions } => r matches Ok(list) && list.deep_view()
                == sessions,
            ResponseModel::Error { code, message } => r matches Err(text) && text@ == refusal(
                "list_sessions error ("@,
                code,
                message,
            ),
            _ => r matches Err(text) && text@ == "unexpected list response: "@ + shown@,
        },
{
    match response {
        SupervisorResponse::Sessions { sessions } => Ok(sessions),
        SupervisorResponse::Error { code, message } => Err(
            refusal_text("list_sessions error (", &code, &message),
        ),
        _ => Err(concat2("unexpected list response: ", shown)),
    }
}

/// The request to start a session.
pub fn spawn_request(spec: SpawnSpec) -> (r: SupervisorRequest)
    ensures
        r.deep_view() == (RequestModel::Spawn { spec: spec.deep_view() }),
{
    SupervisorRequest::Spawn { spec }
}

/// What a client makes of the answer to its request to start a session: the id
/// and the process id; `shown` is the answer as it is shown.
pub fn spawn_result(response: SupervisorResponse, shown: &str) -> (r: Result<
    (String, u32),
    String,
>)
    ensures
        match response.deep_view() {
            ResponseModel::Spawned { session_id, pid } => r matches Ok(named) && named.0@
                == session_id && named.1 == pid,
            ResponseModel::Error { code, message } => r matches Err(text) && text@ == refusal(
                "spawn error ("@,
                code,
                message,
            ),
            _ => r matches Err(text) && text@ == "unexpected spawn response: "@ + shown@,
        },
{
    match response {
        SupervisorResponse::Spawned { session_id, pid } => Ok((session_id, pid)),
        SupervisorResponse::Error { code, message } => Err(
            refusal_text("spawn error (", &code, &message),
        ),
        _ => Err(concat2("unexpected spawn response: ", shown)),
    }
}

/// What asking the daemon for its sessions gave.
#[derive(Debug)]
pub enum DaemonListing {
    /// No secret is known, so no daemon was asked.
    NoToken,
    /// The daemon could not be reached or did not let the client in.
    NotConnected(String),
    /// The daemon was asked; its answer, or why there is none.
    Asked(Result<Vec<RecoveredSession>, String>),
}

/// The sessions that can be recovered: those that the daemon lists, and none,
/// rather than an error, where it does not.
pub fn list_recovered_sessions(listing: DaemonListing) -> (r: Vec<RecoveredSession>)
    ensures
        match listing {
            DaemonListing::Asked(Ok(sessions)) => r == sessions,
            _ => r.deep_view() == Seq::<RecoveredModel>::empty(),
        },
{
    match listing {
        DaemonListing::Asked(Ok(sessions)) => sessions,
        _ => {
            let none: Vec<RecoveredSession> = Vec::new();
            assert(none.deep_view() =~= Seq::<RecoveredModel>::empty());
            none
        },
    }
}

/// The sessions that the window is told of: those of the daemon, or, where it
/// has none, those that this process knows of itself.
pub fn terminal_list_recovered_sessions(
    daemon: Vec<RecoveredSession>,
    own: Vec<RecoveredSession>,
) -> (r: Vec<RecoveredSession>)
    ensures
        r == (if daemon@.len() > 0 {
            daemon
        } else {
            own
        }),
{
    if daemon.len() > 0 {
        daemon
    } else {
        own
    }
}

// ==================== Laws ====================

/// A client greets with the secret that it knows, as it is, in the first version
/// of what client and daemon say to each other.
pub proof fn law_greeting_presents_the_secret(token: Seq<char>)
    ensures
        hello(token) matches RequestModel::Hello { protocol_version, app_instance_id, auth_token }
            && protocol_version == 1 && app_instance_id == "termul-ui"@ && auth_token == token,
{
}

/// A client goes on just where its greeting was acknowledged; else it says the
/// code and the message that it was refused with, or what else was answered.
pub proof fn law_client_goes_on_when_acknowledged(response: ResponseModel, shown: Seq<char>)
    ensures
        handshake_error(response, shown) is None <==> response is HelloAck,
        response matches ResponseModel::Error { code, message } ==> handshake_error(
            response,
            shown,
        ) == Some("handshake rejected ("@ + code + "): "@ + message),
        !(response is HelloAck) && !(response is Error) ==> handshake_error(response, shown)
            == Some("unexpected handshake response: "@ + shown),
{
}

/// The text of a refusal has what was asked, the code and the message, in this
/// order and each whole.
pub proof fn law_refusal_says_code_and_message(
    what: Seq<char>,
    code: Seq<char>,
    message: Seq<char>,
)
    ensures
        ({
            let text = refusal(what, code, message);
            let n = what.len() as int;
            let m = n + code.len();
            &&& text.len() == m + 3 + message.len()
            &&& text.take(n) == what
            &&& text.subrange(n, m) == code
            &&& text[m] == ')'
            &&& text[m + 1] == ':'
            &&& text[m + 2] == ' '
            &&& text.skip(m + 3) == message
        }),
{
    reveal_strlit("): ");
    let text = refusal(what, code, message);
    let n = what.len() as int;
    let m = n + code.len();
    assert(text.take(n) =~= what);
    assert(text.subrange(n, m) =~= code);
    assert(text.skip(m + 3) =~= message);
}

/// A client waits five seconds for an answer.
pub proof fn law_client_waits_for_an_answer()
    ensures
        READ_TIMEOUT_SECS == 5,
{
}

} // verus!
