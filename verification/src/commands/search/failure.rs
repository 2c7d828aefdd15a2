//! The query checks of the searches, and the ways a search fails.

use crate::text::{
    concat2, decimal, is_numeral, lemma_decimal_value, numeral_value, push_decimal, trim, trimmed,
};
use vstd::prelude::*;
use vstd::string::StrSliceExecFns;

verus! {

/// The longest query, in characters, that a search accepts.
pub const MAX_SEARCH_QUERY_LEN: usize = 500;

/// What a query is good for.
#[derive(Debug, Clone)]
pub enum QueryCheck {
    /// Nothing to search for.
    Empty,
    /// Too many characters: how many.
    TooLong(usize),
    /// The query to run, without surrounding white space.
    Accepted(String),
}

/// Checks the query of a search.
pub fn check_query(query: &str) -> (r: QueryCheck)
    ensures
        r is Empty <==> trimmed(query@).len() == 0,
        r is TooLong <==> trimmed(query@).len() > MAX_SEARCH_QUERY_LEN,
        r matches QueryCheck::TooLong(n) ==> n == trimmed(query@).len(),
        r matches QueryCheck::Accepted(text) ==> text@ == trimmed(query@),
{
    let text = trim(query);
    if text.is_empty() {
        return QueryCheck::Empty;
    }
    let n: usize = text.unicode_len();
    if n > MAX_SEARCH_QUERY_LEN {
        return QueryCheck::TooLong(n);
    }
    QueryCheck::Accepted(text.to_string())
}

/// The ways a search fails.
#[derive(Debug, Clone)]
pub enum SearchFailure {
    /// The query has this many characters.
    QueryTooLong(usize),
    /// The search root was refused, for this reason.
    PathValidationFailed(String),
    /// ripgrep, at this path, did not start, for this reason.
    SpawnFailed(String, String),
    /// ripgrep started and its output could not be taken.
    CaptureFailed,
    /// ripgrep's output or exit reported this error.
    StreamFailed(String),
}

impl SearchFailure {
    /// The code to branch on.
    pub open spec fn code_text(self) -> Seq<char> {
        match self {
            SearchFailure::QueryTooLong(_) => "QUERY_TOO_LONG"@,
            SearchFailure::PathValidationFailed(_) => "PATH_VALIDATION_FAILED"@,
            SearchFailure::SpawnFailed(_, _) => "RG_SPAWN_FAILED"@,
            SearchFailure::CaptureFailed => "RG_STDOUT_CAPTURE_FAILED"@,
            SearchFailure::StreamFailed(_) => "RG_STREAM_FAILED"@,
        }
    }

    /// The message to show.
    pub open spec fn message_text(self) -> Seq<char> {
        match self {
            SearchFailure::QueryTooLong(n) => "Search query too long: "@ + decimal(n as nat)
                + " characters (max "@ + decimal(MAX_SEARCH_QUERY_LEN as nat) + ")"@,
            SearchFailure::PathValidationFailed(reason) => "Invalid search path: "@ + reason@,
            SearchFailure::SpawnFailed(path, reason) => "rg spawn failed (path: "@ + path@ + "): "@
                + reason@,
            SearchFailure::CaptureFailed => "failed to capture rg stdout"@,
            SearchFailure::StreamFailed(reason) => reason@,
        }
    }

    /// The code to branch on.
    pub fn code(&self) -> (r: String)
        ensures
            r@ == self.code_text(),
    {
        match self {
            SearchFailure::QueryTooLong(_) => "QUERY_TOO_LONG".to_string(),
            SearchFailure::PathValidationFailed(_) => "PATH_VALIDATION_FAILED".to_string(),
            SearchFailure::SpawnFailed(_, _) => "RG_SPAWN_FAILED".to_string(),
            SearchFailure::CaptureFailed => "RG_STDOUT_CAPTURE_FAILED".to_string(),
            SearchFailure::StreamFailed(_) => "RG_STREAM_FAILED".to_string(),
        }
    }

    /// The message to show.
    pub fn message(&self) -> (r: String)
        ensures
            r@ == self.message_text(),
    {
        match self {
            SearchFailure::QueryTooLong(n) => {
                let mut text = "Search query too long: ".to_string();
                push_decimal(&mut text, *n as u128);
                text.append(" characters (max ");
                push_decimal(&mut text, MAX_SEARCH_QUERY_LEN as u128);
                text.append(")");
                text
            },
            SearchFailure::PathValidationFailed(reason) => concat2("Invalid search path: ", reason),
            SearchFailure::SpawnFailed(path, reason) => {
                let mut text = concat2("rg spawn failed (path: ", path);
                text.append("): ");
                text.append(reason);
                text
            },
            SearchFailure::CaptureFailed => "failed to capture rg stdout".to_string(),
            SearchFailure::StreamFailed(reason) => reason.clone(),
        }
    }
}

/// How ripgrep exited: whether it reports success, its exit code where it has
/// one, and the status as it is shown.
#[derive(Debug, Clone)]
pub struct RgExit {
    pub success: bool,
    pub code: Option<i32>,
    pub shown: String,
}

/// The error that a finished stream reports: the first error of reading it, or
/// else an exit that is neither a success nor code 1, which ripgrep uses for
/// "no matches".
pub open spec fn stream_error(read_error: Option<Seq<char>>, exit: Option<RgExit>) -> Option<
    Seq<char>,
> {
    match read_error {
        Some(text) => Some(text),
        None => match exit {
            Some(exit) if !exit.success && exit.code != Some(1i32) => Some(
                "rg exited with status: "@ + exit.shown@,
            ),
            _ => None,
        },
    }
}

/// How a stream that was read to its end has failed, if it has. `read_error` is
/// the reason for which reading stopped early, `exit` what waiting for ripgrep
/// gave, where it gave anything.
pub fn stream_failure(read_error: Option<String>, exit: Option<RgExit>) -> (r: Option<
    SearchFailure,
>)
    ensures
        match stream_error(read_error.deep_view(), exit) {
            Some(text) => r matches Some(SearchFailure::StreamFailed(shown)) && shown@ == text,
            None => r is None,
        },
{
    match read_error {
        Some(text) => Some(SearchFailure::StreamFailed(text)),
        None => match exit {
            Some(exit) => {
                let no_matches = match exit.code {
                    Some(code) => code == 1,
                    None => false,
                };
                if !exit.success && !no_matches {
                    Some(
                        SearchFailure::StreamFailed(
                            concat2("rg exited with status: ", &exit.shown),
                        ),
                    )
                } else {
                    None
                }
            },
            None => None,
        },
    }
}

/// The text of an error met while reading ripgrep's output.
pub fn read_error_text(reason: &str) -> (r: String)
    ensures
        r@ == "stdout read error: "@ + reason@,
{
    concat2("stdout read error: ", reason)
}

// ==================== Laws ====================

/// A stream has failed just where reading it failed, or, where it did not,
/// ripgrep exited without success and with another code than 1. The first is
/// told as it is, the second by the status that is shown.
pub proof fn law_stream_fails_by_its_reading_or_exit(
    read_error: Option<Seq<char>>,
    exit: Option<RgExit>,
)
    ensures
        read_error is Some ==> stream_error(read_error, exit) == read_error,
        read_error is None && exit is None ==> stream_error(read_error, exit) is None,
        read_error is None && exit is Some && (exit->0.success || exit->0.code == Some(1i32))
            ==> stream_error(read_error, exit) is None,
        read_error is None && exit is Some && !exit->0.success && exit->0.code != Some(1i32)
            ==> stream_error(read_error, exit) == Some(
            "rg exited with status: "@ + exit->0.shown@,
        ),
{
}

/// Each failure has its own code, and its message says what is known of it. The
/// longest query has 500 characters.
pub proof fn law_failures_are_told(n: usize, path: String, reason: String) -> (digits: Seq<char>)
    ensures
        SearchFailure::QueryTooLong(n).code_text() == "QUERY_TOO_LONG"@,
        SearchFailure::QueryTooLong(n).message_text() == "Search query too long: "@ + digits
            + " characters (max "@ + decimal(500) + ")"@,
        is_numeral(digits),
        numeral_value(digits) == n,
        SearchFailure::PathValidationFailed(reason).code_text() == "PATH_VALIDATION_FAILED"@,
        SearchFailure::PathValidationFailed(reason).message_text() == "Invalid search path: "@
            + reason@,
        SearchFailure::SpawnFailed(path, reason).code_text() == "RG_SPAWN_FAILED"@,
        SearchFailure::SpawnFailed(path, reason).message_text() == "rg spawn failed (path: "@
            + path@ + "): "@ + reason@,
        SearchFailure::CaptureFailed.code_text() == "RG_STDOUT_CAPTURE_FAILED"@,
        SearchFailure::CaptureFailed.message_text() == "failed to capture rg stdout"@,
        SearchFailure::StreamFailed(reason).code_text() == "RG_STREAM_FAILED"@,
        SearchFailure::StreamFailed(reason).message_text() == reason@,
        MAX_SEARCH_QUERY_LEN == 500,
{
    lemma_decimal_value(n as nat);
    decimal(n as nat)
}

} // verus!
