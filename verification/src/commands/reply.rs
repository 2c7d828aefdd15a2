//! The reply that every command gives.

use crate::text::IntoText;
use vstd::prelude::*;

verus! {

/// A reply: data, or an error text with a code to branch on.
#[derive(Debug, Clone)]
pub struct IpcResult<T> {
    pub success: bool,
    pub data: Option<T>,
    pub error: Option<String>,
    pub code: Option<String>,
}

impl<T> IpcResult<T> {
    /// Whether the fields agree: data and nothing else on success, an error
    /// text and a code and nothing else on failure.
    pub open spec fn well_formed(self) -> bool {
        if self.success {
            self.data is Some && self.error is None && self.code is None
        } else {
            self.data is None && self.error is Some && self.code is Some
        }
    }

    /// Whether this is the reply that carries `data`.
    pub open spec fn succeeds_with(self, data: T) -> bool {
        self.success && self.data == Some(data) && self.error is None && self.code is None
    }

    /// Whether this is the reply that reports `error` under `code`.
    pub open spec fn fails_with(self, error: Seq<char>, code: Seq<char>) -> bool {
        !self.success && self.data is None && self.error.deep_view() == Some(error)
            && self.code.deep_view() == Some(code)
    }

    /// The reply that carries `data`.
    pub fn success(data: T) -> (r: Self)
        ensures
            r.succeeds_with(data),
            r.well_formed(),
    {
        IpcResult { success: true, data: Some(data), error: None, code: None }
    }

    /// The reply that reports `error` under `code`.
    pub fn error(error: impl IntoText, code: impl IntoText) -> (r: Self)
        ensures
            r.fails_with(error.text(), code.text()),
            r.well_formed(),
    {
        IpcResult {
            success: false,
            data: None,
            error: Some(error.into_text()),
            code: Some(code.into_text()),
        }
    }
}

/// The commands whose failures all have one code.
#[derive(Debug, Clone, Copy, PartialEq, Eq, Structural)]
pub enum Command {
    TerminalSpawn,
    TerminalWrite,
    TerminalResize,
    TerminalKill,
    TerminalAddRendererRef,
    TerminalRemoveRendererRef,
    AgentRegistryFetch,
    BrowserTabCreate,
    BrowserTabNavigate,
    BrowserTabResize,
    BrowserTabShow,
    BrowserTabHide,
    BrowserTabDestroy,
    BrowserTabGoBack,
    BrowserTabGoForward,
    BrowserTabReload,
    BrowserTabOpenDevtools,
    BrowserTabInjectAnnotation,
    BrowserTabRemoveAnnotationOverlay,
    BrowserTabInjectAnnotationMarkers,
    BrowserTabUpdateAnnotationMarkerSelection,
    SshListProfiles,
    SshSaveProfile,
    SshDeleteProfile,
    SshImportConfig,
    SshConnect,
    SshDisconnect,
    SshPortForwardStart,
    SshPortForwardStop,
    SftpListDir,
    SftpDelete,
    SftpMkdir,
    SftpRename,
    SftpReadFile,
    SftpWriteFile,
    SftpCreateFile,
    RemoteServerStart,
    RemoteServerStop,
}

impl Command {
    /// The code of the command's failures.
    pub open spec fn code_text(self) -> Seq<char> {
        match self {
            Command::TerminalSpawn => "SPAWN_FAILED"@,
            Command::TerminalWrite => "WRITE_FAILED"@,
            Command::TerminalResize => "RESIZE_FAILED"@,
            Command::TerminalKill => "KILL_FAILED"@,
            Command::TerminalAddRendererRef => "TERMINAL_NOT_FOUND"@,
            Command::TerminalRemoveRendererRef => "TERMINAL_NOT_FOUND"@,
            Command::AgentRegistryFetch => "AGENT_REGISTRY_FETCH_FAILED"@,
            Command::BrowserTabCreate => "BROWSER_TAB_CREATE_FAILED"@,
            Command::BrowserTabNavigate => "BROWSER_TAB_NAVIGATE_FAILED"@,
            Command::BrowserTabResize => "BROWSER_TAB_RESIZE_FAILED"@,
            Command::BrowserTabShow => "BROWSER_TAB_SHOW_FAILED"@,
            Command::BrowserTabHide => "BROWSER_TAB_HIDE_FAILED"@,
            Command::BrowserTabDestroy => "BROWSER_TAB_DESTROY_FAILED"@,
            Command::BrowserTabGoBack => "BROWSER_TAB_GO_BACK_FAILED"@,
            Command::BrowserTabGoForward => "BROWSER_TAB_GO_FORWARD_FAILED"@,
            Command::BrowserTabReload => "BROWSER_TAB_RELOAD_FAILED"@,
            Command::BrowserTabOpenDevtools => "BROWSER_TAB_OPEN_DEVTOOLS_FAILED"@,
            Command::BrowserTabInjectAnnotation => "BROWSER_TAB_INJECT_ANNOTATION_FAILED"@,
            Command::BrowserTabRemoveAnnotationOverlay => "BROWSER_TAB_REMOVE_ANNOTATION_OVERLAY_FAILED"@,
            Command::BrowserTabInjectAnnotationMarkers => "BROWSER_TAB_INJECT_ANNOTATION_MARKERS_FAILED"@,
            Command::BrowserTabUpdateAnnotationMarkerSelection => "BROWSER_TAB_UPDATE_MARKER_SELECTION_FAILED"@,
            Command::SshListProfiles => "SSH_PROFILE_ERROR"@,
            Command::SshSaveProfile => "SSH_PROFILE_ERROR"@,
            Command::SshDeleteProfile => "SSH_PROFILE_ERROR"@,
            Command::SshImportConfig => "SSH_IMPORT_ERROR"@,
            Command::SshConnect => "SSH_CONNECT_ERROR"@,
            Command::SshDisconnect => "SSH_DISCONNECT_ERROR"@,
            Command::SshPortForwardStart => "SSH_PORT_FORWARD_ERROR"@,
            Command::SshPortForwardStop => "SSH_PORT_FORWARD_ERROR"@,
            Command::SftpListDir => "SFTP_ERROR"@,
            Command::SftpDelete => "SFTP_DELETE_ERROR"@,
            Command::SftpMkdir => "SFTP_MKDIR_ERROR"@,
            Command::SftpRename => "SFTP_RENAME_ERROR"@,
            Command::SftpReadFile => "SFTP_READ_ERROR"@,
            Command::SftpWriteFile => "SFTP_WRITE_ERROR"@,
            Command::SftpCreateFile => "SFTP_CREATE_ERROR"@,
            Command::RemoteServerStart => "REMOTE_START_FAILED"@,
            Command::RemoteServerStop => "REMOTE_STOP_FAILED"@,
        }
    }

    /// The code of the command's failures.
    pub fn code(self) -> (r: &'static str)
        ensures
            r@ == self.code_text(),
    {
        match self {
            Command::TerminalSpawn => "SPAWN_FAILED",
            Command::TerminalWrite => "WRITE_FAILED",
            Command::TerminalResize => "RESIZE_FAILED",
            Command::TerminalKill => "KILL_FAILED",
            Command::TerminalAddRendererRef => "TERMINAL_NOT_FOUND",
            Command::TerminalRemoveRendererRef => "TERMINAL_NOT_FOUND",
            Command::AgentRegistryFetch => "AGENT_REGISTRY_FETCH_FAILED",
            Command::BrowserTabCreate => "BROWSER_TAB_CREATE_FAILED",
            Command::BrowserTabNavigate => "BROWSER_TAB_NAVIGATE_FAILED",
            Command::BrowserTabResize => "BROWSER_TAB_RESIZE_FAILED",
            Command::BrowserTabShow => "BROWSER_TAB_SHOW_FAILED",
            Command::BrowserTabHide => "BROWSER_TAB_HIDE_FAILED",
            Command::BrowserTabDestroy => "BROWSER_TAB_DESTROY_FAILED",
            Command::BrowserTabGoBack => "BROWSER_TAB_GO_BACK_FAILED",
            Command::BrowserTabGoForward => "BROWSER_TAB_GO_FORWARD_FAILED",
            Command::BrowserTabReload => "BROWSER_TAB_RELOAD_FAILED",
            Command::BrowserTabOpenDevtools => "BROWSER_TAB_OPEN_DEVTOOLS_FAILED",
            Command::BrowserTabInjectAnnotation => "BROWSER_TAB_INJECT_ANNOTATION_FAILED",
            Command::BrowserTabRemoveAnnotationOverlay => "BROWSER_TAB_REMOVE_ANNOTATION_OVERLAY_FAILED",
            Command::BrowserTabInjectAnnotationMarkers => "BROWSER_TAB_INJECT_ANNOTATION_MARKERS_FAILED",
            Command::BrowserTabUpdateAnnotationMarkerSelection => "BROWSER_TAB_UPDATE_MARKER_SELECTION_FAILED",
            Command::SshListProfiles => "SSH_PROFILE_ERROR",
            Command::SshSaveProfile => "SSH_PROFILE_ERROR",
            Command::SshDeleteProfile => "SSH_PROFILE_ERROR",
            Command::SshImportConfig => "SSH_IMPORT_ERROR",
            Command::SshConnect => "SSH_CONNECT_ERROR",
            Command::SshDisconnect => "SSH_DISCONNECT_ERROR",
            Command::SshPortForwardStart => "SSH_PORT_FORWARD_ERROR",
            Command::SshPortForwardStop => "SSH_PORT_FORWARD_ERROR",
            Command::SftpListDir => "SFTP_ERROR",
            Command::SftpDelete => "SFTP_DELETE_ERROR",
            Command::SftpMkdir => "SFTP_MKDIR_ERROR",
            Command::SftpRename => "SFTP_RENAME_ERROR",
            Command::SftpReadFile => "SFTP_READ_ERROR",
            Command::SftpWriteFile => "SFTP_WRITE_ERROR",
            Command::SftpCreateFile => "SFTP_CREATE_ERROR",
            Command::RemoteServerStart => "REMOTE_START_FAILED",
            Command::RemoteServerStop => "REMOTE_STOP_FAILED",
        }
    }
}

/// The reply of a command to what its work came to: the data, or the error text
/// under the command's code.
pub fn reply<T>(command: Command, outcome: Result<T, String>) -> (r: IpcResult<T>)
    ensures
        r.well_formed(),
        match outcome {
            Ok(data) => r.succeeds_with(data),
            Err(error) => r.fails_with(error@, command.code_text()),
        },
{
    match outcome {
        Ok(data) => IpcResult::success(data),
        Err(error) => IpcResult::error(error, command.code()),
    }
}

/// The reply of a command whose work names the code of its failures itself: the
/// data, or the error text under that code.
pub fn coded_reply<T>(outcome: Result<T, (String, String)>) -> (r: IpcResult<T>)
    ensures
        r.well_formed(),
        match outcome {
            Ok(data) => r.succeeds_with(data),
            Err(failure) => r.fails_with(failure.0@, failure.1@),
        },
{
    match outcome {
        Ok(data) => IpcResult::success(data),
        Err((error, code)) => IpcResult::error(error, code),
    }
}

// ==================== Laws ====================

/// The window can branch on how a command went: a reply of success is never one
/// of failure, whatever data and error texts they carry.
pub proof fn law_success_and_failure_differ<T>(
    r: IpcResult<T>,
    data: T,
    error: Seq<char>,
    code: Seq<char>,
)
    ensures
        !(r.succeeds_with(data) && r.fails_with(error, code)),
        r.succeeds_with(data) ==> r.well_formed(),
        r.fails_with(error, code) ==> r.well_formed(),
{
}

/// A reply of success carries the data and nothing else; a reply of failure
/// carries the error text and the code and no data.
pub proof fn law_reply_carries_what_it_says<T>(
    r: IpcResult<T>,
    data: T,
    error: Seq<char>,
    code: Seq<char>,
)
    ensures
        r.succeeds_with(data) <==> r.success && r.data == Some(data) && r.error is None
            && r.code is None,
        r.fails_with(error, code) <==> !r.success && r.data is None && (r.error matches Some(text)
            && text@ == error) && (r.code matches Some(text) && text@ == code),
        r.well_formed() && r.success ==> r.data is Some && r.error is None && r.code is None,
        r.well_formed() && !r.success ==> r.data is None && r.error is Some && r.code is Some,
{
}

/// The failures of each command have this code.
pub proof fn law_commands_fail_with_their_code()
    ensures
        Command::TerminalSpawn.code_text() == "SPAWN_FAILED"@,
        Command::TerminalWrite.code_text() == "WRITE_FAILED"@,
        Command::TerminalResize.code_text() == "RESIZE_FAILED"@,
        Command::TerminalKill.code_text() == "KILL_FAILED"@,
        Command::TerminalAddRendererRef.code_text() == "TERMINAL_NOT_FOUND"@,
        Command::TerminalRemoveRendererRef.code_text() == "TERMINAL_NOT_FOUND"@,
        Command::AgentRegistryFetch.code_text() == "AGENT_REGISTRY_FETCH_FAILED"@,
        Command::BrowserTabCreate.code_text() == "BROWSER_TAB_CREATE_FAILED"@,
        Command::BrowserTabNavigate.code_text() == "BROWSER_TAB_NAVIGATE_FAILED"@,
        Command::BrowserTabResize.code_text() == "BROWSER_TAB_RESIZE_FAILED"@,
        Command::BrowserTabShow.code_text() == "BROWSER_TAB_SHOW_FAILED"@,
        Command::BrowserTabHide.code_text() == "BROWSER_TAB_HIDE_FAILED"@,
        Command::BrowserTabDestroy.code_text() == "BROWSER_TAB_DESTROY_FAILED"@,
        Command::BrowserTabGoBack.code_text() == "BROWSER_TAB_GO_BACK_FAILED"@,
        Command::BrowserTabGoForward.code_text() == "BROWSER_TAB_GO_FORWARD_FAILED"@,
        Command::BrowserTabReload.code_text() == "BROWSER_TAB_RELOAD_FAILED"@,
        Command::BrowserTabOpenDevtools.code_text() == "BROWSER_TAB_OPEN_DEVTOOLS_FAILED"@,
        Command::BrowserTabInjectAnnotation.code_text() == "BROWSER_TAB_INJECT_ANNOTATION_FAILED"@,
        Command::BrowserTabRemoveAnnotationOverlay.code_text() == "BROWSER_TAB_REMOVE_ANNOTATION_OVERLAY_FAILED"@,
        Command::BrowserTabInjectAnnotationMarkers.code_text() == "BROWSER_TAB_INJECT_ANNOTATION_MARKERS_FAILED"@,
        Command::BrowserTabUpdateAnnotationMarkerSelection.code_text() == "BROWSER_TAB_UPDATE_MARKER_SELECTION_FAILED"@,
        Command::SshListProfiles.code_text() == "SSH_PROFILE_ERROR"@,
        Command::SshSaveProfile.code_text() == "SSH_PROFILE_ERROR"@,
        Command::SshDeleteProfile.code_text() == "SSH_PROFILE_ERROR"@,
        Command::SshImportConfig.code_text() == "SSH_IMPORT_ERROR"@,
        Command::SshConnect.code_text() == "SSH_CONNECT_ERROR"@,
        Command::SshDisconnect.code_text() == "SSH_DISCONNECT_ERROR"@,
        Command::SshPortForwardStart.code_text() == "SSH_PORT_FORWARD_ERROR"@,
        Command::SshPortForwardStop.code_text() == "SSH_PORT_FORWARD_ERROR"@,
        Command::SftpListDir.code_text() == "SFTP_ERROR"@,
        Command::SftpDelete.code_text() == "SFTP_DELETE_ERROR"@,
        Command::SftpMkdir.code_text() == "SFTP_MKDIR_ERROR"@,
        Command::SftpRename.code_text() == "SFTP_RENAME_ERROR"@,
        Command::SftpReadFile.code_text() == "SFTP_READ_ERROR"@,
        Command::SftpWriteFile.code_text() == "SFTP_WRITE_ERROR"@,
        Command::SftpCreateFile.code_text() == "SFTP_CREATE_ERROR"@,
        Command::RemoteServerStart.code_text() == "REMOTE_START_FAILED"@,
        Command::RemoteServerStop.code_text() == "REMOTE_STOP_FAILED"@,
{
}

} // verus!
