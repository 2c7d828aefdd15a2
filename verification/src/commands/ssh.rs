//! SSH connections, forwarded ports and file transfers.

use crate::commands::reply::IpcResult;
use crate::text::{concat2, same_text};
use vstd::prelude::*;

verus! {

/// A connection with a profile; the password where the user gave one.
#[derive(Debug)]
pub struct SSHConnectRequest {
    pub profile_id: String,
    pub password: Option<String>,
}

/// A port to forward over a connection.
#[derive(Debug)]
pub struct SSHPortForwardRequest {
    pub connection_id: String,
    pub id: String,
    pub forward_type: String,
    pub local_port: u16,
    pub remote_host: String,
    pub remote_port: u16,
    pub label: Option<String>,
}

/// A remote path.
#[derive(Debug)]
pub struct SFTPPathRequest {
    pub connection_id: String,
    pub remote_path: String,
}

/// A file to move between a remote and a local path.
#[derive(Debug)]
pub struct SFTPTransferRequest {
    pub connection_id: String,
    pub remote_path: String,
    pub local_path: String,
}

/// A remote path with another name.
#[derive(Debug)]
pub struct SFTPRenameRequest {
    pub connection_id: String,
    pub old_path: String,
    pub new_path: String,
}

/// A remote file, and what to write into it.
#[derive(Debug)]
pub struct SFTPFileRequest {
    pub connection_id: String,
    pub remote_path: String,
    pub content: Option<String>,
}

impl SFTPFileRequest {
    /// What is written: nothing where the request brings no content.
    pub fn content_to_write(&self) -> (r: String)
        ensures
            r@ == (match self.content {
                Some(text) => text@,
                None => Seq::<char>::empty(),
            }),
    {
        match &self.content {
            Some(text) => text.clone(),
            None => String::new(),
        }
    }
}

// ==================== Connecting ====================

/// What a profile says of how to log in.
#[derive(Debug, Clone)]
pub struct Credentials {
    pub auth_method: String,
    pub password: Option<String>,
    pub passphrase: Option<String>,
}

/// What looking for a profile gave.
#[derive(Debug, Clone)]
pub enum ProfileLookup {
    Found(Credentials),
    Missing,
    /// Looking failed, for this reason.
    Failed(String),
}

/// The secret to log in with: the one that the user gave, else the one that the
/// profile keeps for its way to log in.
pub open spec fn login_secret(given: Option<Seq<char>>, profile: Credentials) -> Option<Seq<char>> {
    if given is Some {
        given
    } else if profile.auth_method@ == "password"@ {
        profile.password.deep_view()
    } else if profile.auth_method@ == "key"@ {
        profile.passphrase.deep_view()
    } else {
        None
    }
}

/// The secret to log in with for `request`, or the reply where its profile is
/// not to be had.
pub fn prepare_connect<T>(request: &SSHConnectRequest, lookup: ProfileLookup) -> (r: Result<
    Option<String>,
    IpcResult<T>,
>)
    ensures
        match lookup {
            ProfileLookup::Found(profile) => r matches Ok(secret) && secret.deep_view()
                == login_secret(request.password.deep_view(), profile),
            ProfileLookup::Missing => r matches Err(answer) && answer.well_formed()
                && answer.fails_with("Profile not found"@, "SSH_PROFILE_NOT_FOUND"@),
            ProfileLookup::Failed(reason) => r matches Err(answer) && answer.well_formed()
                && answer.fails_with(reason@, "SSH_PROFILE_ERROR"@),
        },
{
    match lookup {
        ProfileLookup::Found(profile) => match &request.password {
            Some(given) => Ok(Some(given.clone())),
            None => if same_text(&profile.auth_method, "password") {
                Ok(profile.password)
            } else if same_text(&profile.auth_method, "key") {
                Ok(profile.passphrase)
            } else {
                Ok(None)
            },
        },
        ProfileLookup::Missing => Err(
            IpcResult::error("Profile not found", "SSH_PROFILE_NOT_FOUND"),
        ),
        ProfileLookup::Failed(reason) => Err(IpcResult::error(reason, "SSH_PROFILE_ERROR")),
    }
}

// ==================== Forwarding ports ====================

/// A port to forward, for the connection that is known already.
#[derive(Debug, Clone)]
pub struct PortForwardRequest {
    pub id: String,
    pub forward_type: String,
    pub local_port: u16,
    pub remote_host: String,
    pub remote_port: u16,
    pub label: Option<String>,
}

/// What looking for a connection gave.
#[derive(Debug, Clone)]
pub enum ConnectionLookup<S> {
    Missing,
    /// There is one, and its session cannot be used, for this reason.
    NoSession(String),
    /// There is one, with this session.
    Found(S),
}

/// The port to forward and the session to forward it over, or the reply where
/// the connection is not to be had.
pub fn prepare_port_forward<S, T>(
    request: SSHPortForwardRequest,
    lookup: ConnectionLookup<S>,
) -> (r: Result<(PortForwardRequest, S), IpcResult<T>>)
    ensures
        match lookup {
            ConnectionLookup::Missing => r matches Err(answer) && answer.well_formed()
                && answer.fails_with("Connection not found"@, "SSH_CONNECTION_NOT_FOUND"@),
            ConnectionLookup::NoSession(reason) => r matches Err(answer) && answer.well_formed()
                && answer.fails_with(reason@, "SSH_CONNECTION_NOT_FOUND"@),
            ConnectionLookup::Found(session) => r matches Ok(prepared) && prepared.1 == session
                && prepared.0 == (PortForwardRequest {
                id: request.id,
                forward_type: request.forward_type,
                local_port: request.local_port,
                remote_host: request.remote_host,
                remote_port: request.remote_port,
                label: request.label,
            }),
        },
{
    match lookup {
        ConnectionLookup::Missing => Err(
            IpcResult::error("Connection not found", "SSH_CONNECTION_NOT_FOUND"),
        ),
        ConnectionLookup::NoSession(reason) => Err(
            IpcResult::error(reason, "SSH_CONNECTION_NOT_FOUND"),
        ),
        ConnectionLookup::Found(session) => {
            let forward = PortForwardRequest {
                id: request.id,
                forward_type: request.forward_type,
                local_port: request.local_port,
                remote_host: request.remote_host,
                remote_port: request.remote_port,
                label: request.label,
            };
            Ok((forward, session))
        },
    }
}

// ==================== Transferring files ====================

/// Which way a file is moved.
#[derive(Debug, Clone, Copy, PartialEq, Eq, Structural)]
pub enum Transfer {
    Download,
    Upload,
}

impl Transfer {
    /// The code of a transfer that failed.
    pub open spec fn code_text(self) -> Seq<char> {
        match self {
            Transfer::Download => "SFTP_DOWNLOAD_ERROR"@,
            Transfer::Upload => "SFTP_UPLOAD_ERROR"@,
        }
    }
}

/// What a transfer came to.
#[derive(Debug, Clone)]
pub enum TransferOutcome {
    Done,
    /// The connection has no session that can be used, or moving the file
    /// failed, for this reason.
    Failed(String),
    /// The work did not come to its end, for this reason.
    TaskFailed(String),
}

/// The reply of a transfer.
pub fn transfer_reply(transfer: Transfer, outcome: TransferOutcome) -> (r: IpcResult<()>)
    ensures
        r.well_formed(),
        match outcome {
            TransferOutcome::Done => r.succeeds_with(()),
            TransferOutcome::Failed(reason) => r.fails_with(reason@, transfer.code_text()),
            TransferOutcome::TaskFailed(reason) => r.fails_with(
                "Task failed: "@ + reason@,
                transfer.code_text(),
            ),
        },
{
    let code = match transfer {
        Transfer::Download => "SFTP_DOWNLOAD_ERROR",
        Transfer::Upload => "SFTP_UPLOAD_ERROR",
    };
    match outcome {
        TransferOutcome::Done => IpcResult::success(()),
        TransferOutcome::Failed(reason) => IpcResult::error(reason, code),
        TransferOutcome::TaskFailed(reason) => IpcResult::error(
            concat2("Task failed: ", &reason),
            code,
        ),
    }
}

// ==================== Laws ====================

/// A secret that the user gives is the one that is used, whatever the profile
/// keeps; and the password of a profile is never used for a key, nor the other
/// way round.
pub proof fn law_given_secret_comes_first(given: Option<Seq<char>>, profile: Credentials)
    ensures
        given is Some ==> login_secret(given, profile) == given,
        given is None && profile.auth_method@ == "key"@ ==> login_secret(given, profile)
            == profile.passphrase.deep_view(),
        given is None && profile.auth_method@ != "password"@ && profile.auth_method@ != "key"@
            ==> login_secret(given, profile) is None,
{
    reveal_strlit("key");
    reveal_strlit("password");
    assert("key"@.len() != "password"@.len());
}

/// The secret of a profile is its password where it logs in with a password, its
/// passphrase where it logs in with a key, and none for any other way.
pub proof fn law_profile_secret_goes_by_its_method(profile: Credentials)
    ensures
        profile.auth_method@ == seq!['p', 'a', 's', 's', 'w', 'o', 'r', 'd'] ==> login_secret(
            None,
            profile,
        ) == profile.password.deep_view(),
        profile.auth_method@ == seq!['k', 'e', 'y'] ==> login_secret(None, profile)
            == profile.passphrase.deep_view(),
        profile.auth_method@ != seq!['p', 'a', 's', 's', 'w', 'o', 'r', 'd']
            && profile.auth_method@ != seq!['k', 'e', 'y'] ==> login_secret(None, profile) is None,
{
    reveal_strlit("key");
    reveal_strlit("password");
    assert("password"@ =~= seq!['p', 'a', 's', 's', 'w', 'o', 'r', 'd']);
    assert("key"@ =~= seq!['k', 'e', 'y']);
}

/// A failed transfer is told by the way that the file was to go.
pub proof fn law_transfer_codes_tell_the_way()
    ensures
        Transfer::Download.code_text() == "SFTP_DOWNLOAD_ERROR"@,
        Transfer::Upload.code_text() == "SFTP_UPLOAD_ERROR"@,
{
}

} // verus!
