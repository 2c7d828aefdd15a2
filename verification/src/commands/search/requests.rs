//! What the window asks of a search, and how a search begins and ends.

use crate::commands::reply::IpcResult;
use crate::commands::search::args::{
    build_file_name_search_args, build_search_args, content_args, file_name_args,
};
use crate::commands::search::content::{
    frames_of, gather_output, gathered, no_matches, FileSearchResponse,
};
use crate::commands::search::failure::{
    check_query, QueryCheck, SearchFailure, MAX_SEARCH_QUERY_LEN,
};
use crate::commands::search::file_names::SearchFileNamesDoneEvent;
use crate::commands::search::groups::{
    by_path, sorted_by_path, FileSearchResult, ResultModel, MAX_MATCHES_PER_FILE,
};
use crate::commands::search::stream::SearchContentDoneEvent;
use crate::text::{concat2, decimal, lines_of, push_decimal, trimmed};
use vstd::prelude::*;

verus! {

/// A content search whose matches come in one reply.
#[derive(Debug, Clone)]
pub struct SearchContentRequest {
    pub scope_root: String,
    pub root_path: String,
    pub query: String,
}

/// A content search whose matches come in batches.
#[derive(Debug, Clone)]
pub struct SearchContentStreamRequest {
    pub scope_root: String,
    pub root_path: String,
    pub query: String,
    pub search_id: String,
}

/// The end of a content search that is not wanted any more.
#[derive(Debug, Clone)]
pub struct SearchContentCancelRequest {
    pub search_id: String,
}

/// A file name search.
#[derive(Debug, Clone)]
pub struct SearchFileNamesStreamRequest {
    pub scope_root: String,
    pub root_path: String,
    pub query: String,
    pub search_id: String,
}

/// The end of a file name search that is not wanted any more.
#[derive(Debug, Clone)]
pub struct SearchFileNamesCancelRequest {
    pub search_id: String,
}

// ==================== Streaming searches ====================

/// How a streaming content search begins.
#[derive(Debug, Clone)]
pub enum ContentStart {
    /// It is at its end already.
    Over(SearchContentDoneEvent),
    /// Ripgrep is run with these arguments.
    Run(Vec<String>),
}

/// How a file name search begins.
#[derive(Debug, Clone)]
pub enum FileNamesStart {
    /// It is at its end already.
    Over(SearchFileNamesDoneEvent),
    /// Ripgrep is run with these arguments.
    Run(Vec<String>),
}

/// How a streaming content search begins: `root` is the directory to search
/// once it was checked against the scope, or why it was refused.
pub fn search_content_stream(
    request: &SearchContentStreamRequest,
    root: Result<String, String>,
) -> (r: ContentStart)
    ensures
        ({
            let query = trimmed(request.query@);
            if query.len() == 0 {
                r matches ContentStart::Over(event) && event.says(
                    request.search_id@,
                    false,
                    0,
                    None,
                    None,
                )
            } else if query.len() > MAX_SEARCH_QUERY_LEN {
                let failure = SearchFailure::QueryTooLong(query.len() as usize);
                r matches ContentStart::Over(event) && event.says(
                    request.search_id@,
                    false,
                    0,
                    Some(failure.code_text()),
                    Some(failure.message_text()),
                )
            } else {
                match root {
                    Ok(path) => r matches ContentStart::Run(args) && args.deep_view()
                        == content_args(query, path@, MAX_MATCHES_PER_FILE as nat),
                    Err(reason) => {
                        let failure = SearchFailure::PathValidationFailed(reason);
                        r matches ContentStart::Over(event) && event.says(
                            request.search_id@,
                            false,
                            0,
                            Some(failure.code_text()),
                            Some(failure.message_text()),
                        )
                    },
                }
            }
        }),
{
    let search_id = request.search_id.clone();
    match check_query(&request.query) {
        QueryCheck::Empty => ContentStart::Over(SearchContentDoneEvent::nothing_to_do(search_id)),
        QueryCheck::TooLong(n) => ContentStart::Over(
            SearchContentDoneEvent::not_started(search_id, &SearchFailure::QueryTooLong(n)),
        ),
        QueryCheck::Accepted(query) => match root {
            Ok(path) => ContentStart::Run(build_search_args(&query, &path, MAX_MATCHES_PER_FILE)),
            Err(reason) => ContentStart::Over(
                SearchContentDoneEvent::not_started(
                    search_id,
                    &SearchFailure::PathValidationFailed(reason),
                ),
            ),
        },
    }
}

/// How a file name search begins: `root` is the directory to search once it was
/// checked against the scope, or why it was refused.
pub fn search_file_names_stream(
    request: &SearchFileNamesStreamRequest,
    root: Result<String, String>,
) -> (r: FileNamesStart)
    ensures
        ({
            let query = trimmed(request.query@);
            if query.len() == 0 {
                r matches FileNamesStart::Over(event) && event.says(
                    request.search_id@,
                    false,
                    0,
                    None,
                    None,
                )
            } else if query.len() > MAX_SEARCH_QUERY_LEN {
                let failure = SearchFailure::QueryTooLong(query.len() as usize);
                r matches FileNamesStart::Over(event) && event.says(
                    request.search_id@,
                    false,
                    0,
                    Some(failure.code_text()),
                    Some(failure.message_text()),
                )
            } else {
                match root {
                    Ok(path) => r matches FileNamesStart::Run(args) && args.deep_view()
                        == file_name_args(query, path@),
                    Err(reason) => {
                        let failure = SearchFailure::PathValidationFailed(reason);
                        r matches FileNamesStart::Over(event) && event.says(
                            request.search_id@,
                            false,
                            0,
                            Some(failure.code_text()),
                            Some(failure.message_text()),
                        )
                    },
                }
            }
        }),
{
    let search_id = request.search_id.clone();
    match check_query(&request.query) {
        QueryCheck::Empty => FileNamesStart::Over(
            SearchFileNamesDoneEvent::nothing_to_do(search_id),
        ),
        QueryCheck::TooLong(n) => FileNamesStart::Over(
            SearchFileNamesDoneEvent::not_started(search_id, &SearchFailure::QueryTooLong(n)),
        ),
        QueryCheck::Accepted(query) => match root {
            Ok(path) => FileNamesStart::Run(build_file_name_search_args(&query, &path)),
            Err(reason) => FileNamesStart::Over(
                SearchFileNamesDoneEvent::not_started(
                    search_id,
                    &SearchFailure::PathValidationFailed(reason),
                ),
            ),
        },
    }
}

// ==================== The search in one reply ====================

/// How a content search in one reply begins.
#[derive(Debug, Clone)]
pub enum SearchStart {
    /// The reply is known already.
    Reply(IpcResult<FileSearchResponse>),
    /// Ripgrep is run with these arguments.
    Run(Vec<String>),
}

/// Whether a reply carries no matches and nothing was left out.
pub open spec fn replies_nothing(r: IpcResult<FileSearchResponse>) -> bool {
    r.well_formed() && r.success && (r.data matches Some(response) && response.results.deep_view()
        == Seq::<ResultModel>::empty() && !response.truncated && response.scanned_files == 0
        && response.failed_files == 0)
}

/// How a content search in one reply begins: `root` is the directory to search
/// once it was checked against the scope, or why it was refused. A refused
/// directory is told before a query that is too long.
pub fn start_search_content(request: &SearchContentRequest, root: Result<String, String>) -> (r:
    SearchStart)
    ensures
        ({
            let query = trimmed(request.query@);
            if query.len() == 0 {
                r matches SearchStart::Reply(reply) && replies_nothing(reply)
            } else {
                match root {
                    Ok(path) => if query.len() > MAX_SEARCH_QUERY_LEN {
                        let failure = SearchFailure::QueryTooLong(query.len() as usize);
                        r matches SearchStart::Reply(reply) && reply.well_formed()
                            && reply.fails_with(failure.message_text(), "QUERY_TOO_LONG"@)
                    } else {
                        r matches SearchStart::Run(args) && args.deep_view() == content_args(
                            query,
                            path@,
                            MAX_MATCHES_PER_FILE as nat,
                        )
                    },
                    Err(reason) => r matches SearchStart::Reply(reply) && reply.well_formed()
                        && reply.fails_with(
                        "Invalid search path: "@ + reason@,
                        "PATH_VALIDATION_FAILED"@,
                    ),
                }
            }
        }),
{
    let query = check_query(&request.query);
    match (query, root) {
        (QueryCheck::Empty, _) => {
            let results: Vec<FileSearchResult> = Vec::new();
            assert(results.deep_view() =~= Seq::<ResultModel>::empty());
            SearchStart::Reply(
                IpcResult::success(
                    FileSearchResponse {
                        results,
                        truncated: false,
                        scanned_files: 0,
                        failed_files: 0,
                    },
                ),
            )
        },
        (_, Err(reason)) => SearchStart::Reply(
            IpcResult::error(concat2("Invalid search path: ", &reason), "PATH_VALIDATION_FAILED"),
        ),
        (QueryCheck::TooLong(n), Ok(_)) => {
            let failure = SearchFailure::QueryTooLong(n);
            SearchStart::Reply(IpcResult::error(failure.message(), failure.code()))
        },
        (QueryCheck::Accepted(query), Ok(path)) => SearchStart::Run(
            build_search_args(&query, &path, MAX_MATCHES_PER_FILE),
        ),
    }
}

/// What came of running ripgrep to its end.
#[derive(Debug, Clone)]
pub enum RgOutput {
    /// It did not start, for this reason.
    NotStarted(String),
    /// It exited: with which code, where it has one, and what it printed.
    Exited { code: Option<i32>, stdout: String, stderr: String },
}

/// Whether ripgrep failed: its code is above that for "no matches". A process
/// that was killed has no code, and what it printed counts.
pub open spec fn rg_failed(code: Option<i32>) -> bool {
    code matches Some(code) && code > 1
}

/// The reply of a content search, where ripgrep at `rg_path` was run to its end.
pub fn search_content(rg_path: &str, output: RgOutput) -> (r: IpcResult<FileSearchResponse>)
    ensures
        r.well_formed(),
        match output {
            RgOutput::NotStarted(reason) => r.fails_with(
                "rg spawn failed (path: "@ + rg_path@ + "): "@ + reason@,
                "SEARCH_ERROR"@,
            ),
            RgOutput::Exited { code, stdout, stderr } => if rg_failed(code) {
                r.fails_with(
                    "rg failed ("@ + decimal(code->0 as nat) + "): "@ + stderr@,
                    "SEARCH_ERROR"@,
                )
            } else {
                r.success && (r.data matches Some(response) && sorted_by_path(
                    response.results.deep_view(),
                ) && (by_path(response.results.deep_view()), response.truncated) == gathered(
                    frames_of(lines_of(stdout@)),
                    no_matches(),
                    false,
                ) && response.scanned_files == 0 && response.failed_files == 0)
            },
        },
{
    match output {
        RgOutput::NotStarted(reason) => {
            let mut text = concat2("rg spawn failed (path: ", rg_path);
            text.append("): ");
            text.append(&reason);
            IpcResult::error(text, "SEARCH_ERROR")
        },
        RgOutput::Exited { code, stdout, stderr } => {
            let code: i32 = match code {
                Some(code) => code,
                None => 0,
            };
            if code > 1 {
                let mut text = "rg failed (".to_string();
                push_decimal(&mut text, code as u128);
                text.append("): ");
                text.append(&stderr);
                return IpcResult::error(text, "SEARCH_ERROR");
            }
            IpcResult::success(gather_output(&stdout))
        },
    }
}

// ==================== Laws ====================

/// Ripgrep has failed just where it has a code above 1.
pub proof fn law_only_codes_above_one_are_failures(code: i32)
    ensures
        rg_failed(Some(code)) <==> code > 1,
        !rg_failed(None),
{
}

/// A reply without matches is a success with an empty list, from which nothing
/// was left out.
pub proof fn law_reply_of_nothing_is_an_empty_list(r: IpcResult<FileSearchResponse>)
    ensures
        replies_nothing(r) <==> r.success && r.error is None && r.code is None && (
        r.data matches Some(response) && response.results@.len() == 0 && !response.truncated
            && response.scanned_files == 0 && response.failed_files == 0),
{
    if let Some(response) = r.data {
        assert(response.results.deep_view().len() == response.results@.len());
        if response.results@.len() == 0 {
            assert(response.results.deep_view() =~= Seq::<ResultModel>::empty());
        }
    }
}

} // verus!
