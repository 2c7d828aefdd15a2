use termul_manager::commands::search::content::{
    consider, gather_output, interpret_match, read_match, Admission, RgMatch,
};
use termul_manager::commands::search::failure::{
    check_query, read_error_text, stream_failure, QueryCheck, RgExit, SearchFailure,
};
use termul_manager::commands::search::file_names::{
    FileNameSearch, FileNameStep, SearchFileNamesDoneEvent,
};
use termul_manager::commands::search::groups::{
    FileSearchMatch, FileSearchResult, MatchGroups, MAX_MATCHES_PER_FILE,
};
use termul_manager::commands::search::requests::{
    search_content, search_content_stream, search_file_names_stream, start_search_content,
    ContentStart, FileNamesStart, RgOutput, SearchContentRequest, SearchContentStreamRequest,
    SearchFileNamesStreamRequest, SearchStart,
};
use termul_manager::commands::search::stream::{
    ContentSearch, ContentStep, SearchContentDoneEvent,
};

fn match_line(path: &str, number: u64, text: &str) -> String {
    let mut value = serde_json::Map::new();
    let mut data = serde_json::Map::new();
    let mut named = |key: &str, text: &str| {
        let mut inner = serde_json::Map::new();
        inner.insert("text".to_string(), serde_json::Value::String(text.to_string()));
        data.insert(key.to_string(), serde_json::Value::Object(inner));
    };
    named("path", path);
    named("lines", text);
    data.insert("line_number".to_string(), serde_json::Value::from(number));
    value.insert("type".to_string(), serde_json::Value::from("match"));
    value.insert("data".to_string(), serde_json::Value::Object(data));
    serde_json::Value::Object(value).to_string()
}

#[test]
fn match_is_read_from_a_line() {
    let found = read_match(&match_line("src\\deep\\a.rs", 12, "let x = 1;\r\n")).unwrap();
    assert_eq!(found.file_path, "src/deep/a.rs");
    assert_eq!(found.found.line_number, 12);
    assert_eq!(found.found.line_text, "let x = 1;");
}

#[test]
fn other_lines_hold_no_match() {
    assert!(read_match("not json").is_none());
    assert!(read_match("{\"type\":\"begin\",\"data\":{\"path\":{\"text\":\"a\"}}}").is_none());
    assert!(read_match("{\"type\":\"match\",\"data\":{\"path\":{\"bytes\":\"YQ==\"},\"line_number\":1}}").is_none());
    assert!(read_match("{\"type\":\"match\",\"data\":{\"path\":{\"text\":\"a\"}}}").is_none());
    assert!(read_match("{\"type\":\"match\",\"data\":{\"path\":{\"text\":\"a\"},\"line_number\":-1}}").is_none());
    let bare = read_match("{\"type\":\"match\",\"data\":{\"path\":{\"text\":\"a\"},\"line_number\":9}}").unwrap();
    assert_eq!(bare.found.line_text, "");
    assert_eq!(bare.found.line_number, 9);
}

#[test]
fn fields_make_a_match() {
    let text = |s: &str| Some(s.to_string());
    let found = interpret_match(text("match"), text("a"), Some(1), text("x\n\n")).unwrap();
    assert_eq!(found.found.line_text, "x");
    assert!(interpret_match(text("summary"), text("a"), Some(1), None).is_none());
    assert!(interpret_match(None, text("a"), Some(1), None).is_none());
    assert!(interpret_match(text("match"), None, Some(1), None).is_none());
    assert!(interpret_match(text("match"), text("a"), None, None).is_none());
}

#[test]
fn output_is_grouped_by_path_in_order() {
    let stdout = [
        match_line("b", 1, "b1"),
        "garbage".to_string(),
        match_line("a", 2, "a2"),
        match_line("b", 3, "b3"),
        match_line("A", 4, "A4"),
    ]
    .join("\n");
    let response = gather_output(&stdout);
    let paths: Vec<&str> = response.results.iter().map(|r| r.file_path.as_str()).collect();
    assert_eq!(paths, vec!["A", "a", "b"]);
    let lines: Vec<usize> = response.results[2].matches.iter().map(|m| m.line_number).collect();
    assert_eq!(lines, vec![1, 3]);
    assert!(!response.truncated);
    assert_eq!((response.scanned_files, response.failed_files), (0, 0));
}

#[test]
fn file_keeps_so_many_matches() {
    let all: Vec<String> = (0..31).map(|i| match_line("a", i, "x")).collect();
    let full = gather_output(&all[..30].join("\n"));
    assert_eq!(full.results[0].matches.len(), 30);
    assert!(!full.truncated);
    let over = gather_output(&(all.join("\n") + "\n" + &match_line("b", 1, "y")));
    assert_eq!(over.results[0].matches.len(), 30);
    assert_eq!(over.results[1].file_path, "b");
    assert!(over.truncated);
}

#[test]
fn search_keeps_so_many_files() {
    let all: Vec<String> = (0..101).map(|i| match_line(&format!("f{i:03}"), 1, "x")).collect();
    let full = gather_output(&all[..100].join("\n"));
    assert_eq!(full.results.len(), 100);
    assert!(!full.truncated);
    let over = gather_output(&(all.join("\n") + "\n" + &match_line("f000", 2, "y")));
    assert_eq!(over.results.len(), 100);
    assert!(over.truncated);
    assert_eq!(over.results[0].matches.len(), 1);
}

#[test]
fn match_is_kept_or_dropped() {
    let mut groups = MatchGroups::new();
    for i in 0..MAX_MATCHES_PER_FILE {
        let found = read_match(&match_line("a", i as u64, "x")).unwrap();
        assert_eq!(consider(&mut groups, &found), Admission::Kept);
    }
    let more = read_match(&match_line("a", 99, "x")).unwrap();
    assert_eq!(consider(&mut groups, &more), Admission::FileFull);
    for i in 1..100 {
        let found = read_match(&match_line(&format!("f{i}"), 1, "x")).unwrap();
        assert_eq!(consider(&mut groups, &found), Admission::Kept);
    }
    let other = read_match(&match_line("new", 1, "x")).unwrap();
    assert_eq!(consider(&mut groups, &other), Admission::FilesFull);
    assert_eq!(groups.len(), 100);
}

#[test]
fn stream_publishes_batches() {
    let mut search = ContentSearch::new("id".to_string());
    for i in 0..24 {
        let step = search.line(&match_line(if i % 2 == 0 { "b" } else { "a" }, i, "x"));
        assert!(matches!(step, ContentStep::Continue));
    }
    assert!(matches!(search.line("garbage"), ContentStep::Continue));
    match search.line(&match_line("c", 24, "x")) {
        ContentStep::Publish(batch) => {
            assert_eq!(batch.search_id, "id");
            assert!(!batch.truncated);
            let sizes: Vec<(String, usize)> = batch
                .results
                .iter()
                .map(|r| (r.file_path.clone(), r.matches.len()))
                .collect();
            assert_eq!(
                sizes,
                vec![("a".to_string(), 12), ("b".to_string(), 12), ("c".to_string(), 1)]
            );
        }
        _ => panic!("a batch is due"),
    }
    assert!(search.flush().is_none());
    assert!(matches!(search.line(&match_line("c", 25, "y")), ContentStep::Continue));
    let last = search.flush().unwrap();
    assert_eq!(last.results.len(), 1);
    assert_eq!(last.results[0].matches[0].line_text, "y");
    assert!(search.flush().is_none());
}

#[test]
fn stream_stops_when_there_are_enough_files() {
    let mut search = ContentSearch::new("id".to_string());
    let mut published = 0;
    for i in 0..100 {
        if let ContentStep::Publish(batch) = search.line(&match_line(&format!("f{i}"), 1, "x")) {
            published += batch.results.len();
        }
    }
    assert_eq!(published, 100);
    assert!(!search.is_truncated());
    assert!(matches!(search.line(&match_line("one more", 1, "x")), ContentStep::Stop));
    assert!(search.is_truncated());
    assert!(search.flush().is_none());
}

#[test]
fn stream_drops_what_is_too_much_of_a_file() {
    let mut search = ContentSearch::new("id".to_string());
    let mut kept = 0;
    for i in 0..40 {
        if let ContentStep::Publish(batch) = search.line(&match_line("a", i, "x")) {
            kept += batch.results[0].matches.len();
        }
    }
    assert!(search.is_truncated());
    let rest = search.flush().unwrap();
    assert!(rest.truncated);
    kept += rest.results[0].matches.len();
    assert_eq!(kept, 30);
    let done = search.finish(Some(read_error_text("EIO")), None);
    assert_eq!(done.search_id, "id");
    assert!(done.truncated);
    assert_eq!(done.code.as_deref(), Some("RG_STREAM_FAILED"));
    assert_eq!(done.error.as_deref(), Some("stdout read error: EIO"));
}

#[test]
fn file_names_come_in_growing_lists() {
    let mut search = FileNameSearch::new("id".to_string());
    for i in 0..24 {
        assert!(matches!(search.line(&format!("d\\f{i}")), FileNameStep::Continue));
    }
    match search.line("\\\\?\\C:\\x\\y.txt") {
        FileNameStep::Publish(batch) => {
            assert_eq!(batch.files.len(), 25);
            assert_eq!(batch.files[0], "d/f0");
            assert_eq!(batch.files[24], "C:/x/y.txt");
            assert_eq!(batch.truncated, None);
            assert_eq!(batch.search_id, "id");
        }
        _ => panic!("a batch is due"),
    }
    assert!(search.trailing_batch().is_none());
    assert!(matches!(search.line("last"), FileNameStep::Continue));
    let trailing = search.trailing_batch().unwrap();
    assert_eq!(trailing.files.len(), 26);
    assert_eq!(trailing.truncated, Some(false));
    let done = search.finish(None, None);
    assert_eq!(done.total_files, 26);
    assert!(!done.truncated);
    assert!(done.code.is_none() && done.error.is_none());
}

#[test]
fn file_names_stop_when_the_list_is_full() {
    let mut search = FileNameSearch::new("id".to_string());
    let mut batches = 0;
    for i in 0..100 {
        if let FileNameStep::Publish(_) = search.line(&format!("f{i}")) {
            batches += 1;
        }
    }
    assert_eq!(batches, 4);
    assert!(search.trailing_batch().is_none());
    assert!(matches!(search.line("one more"), FileNameStep::Stop));
    let trailing = search.trailing_batch().unwrap();
    assert_eq!(trailing.search_id, "id");
    assert_eq!(trailing.files.len(), 100);
    assert_eq!(trailing.files[99], "f99");
    assert_eq!(trailing.truncated, Some(true));
    let done = search.finish(None, None);
    assert!(done.truncated);
    assert_eq!(done.total_files, 100);
}

#[test]
fn capped_file_names_end_in_a_batch_that_says_so() {
    let lines: Vec<String> = (1..=101).map(|i| format!("/p/{i}")).collect();
    let mut search = FileNameSearch::new("s1".to_string());
    let mut sizes = Vec::new();
    for line in &lines {
        if let FileNameStep::Publish(batch) = search.line(line) {
            assert_eq!(batch.search_id, "s1");
            assert_eq!(batch.truncated, None);
            assert_eq!(batch.files[..], lines[..batch.files.len()]);
            sizes.push(batch.files.len());
        }
    }
    assert_eq!(sizes, [25, 50, 75, 100]);
    let trailing = search.trailing_batch().unwrap();
    assert_eq!(trailing.search_id, "s1");
    assert_eq!(trailing.files[..], lines[..100]);
    assert_eq!(trailing.truncated, Some(true));
    assert!(search.finish(None, None).truncated);
}

#[test]
fn content_batches_are_bounded() {
    let mut search = ContentSearch::new("id".to_string());
    let mut sizes = Vec::new();
    let count = |results: &[FileSearchResult]| -> usize {
        results.iter().map(|file| file.matches.len()).sum()
    };
    for i in 0..53 {
        if let ContentStep::Publish(batch) = search.accept(&RgMatch {
            file_path: format!("f{}", i / 4),
            found: FileSearchMatch { line_number: i, line_text: "x".to_string() },
        }) {
            sizes.push(count(&batch.results));
        }
    }
    assert_eq!(sizes, [25, 25]);
    assert_eq!(count(&search.flush().unwrap().results), 3);
    assert!(search.flush().is_none());
}

#[test]
fn queries_are_checked() {
    assert!(matches!(check_query(" \t\n"), QueryCheck::Empty));
    match check_query("  néé  ") {
        QueryCheck::Accepted(text) => assert_eq!(text, "néé"),
        _ => panic!("a fine query"),
    }
    assert!(matches!(check_query(&"é".repeat(500)), QueryCheck::Accepted(_)));
    assert!(matches!(check_query(&"é".repeat(501)), QueryCheck::TooLong(501)));
}

#[test]
fn failures_say_what_went_wrong() {
    let cases = [
        (
            SearchFailure::QueryTooLong(501),
            "QUERY_TOO_LONG",
            "Search query too long: 501 characters (max 500)",
        ),
        (
            SearchFailure::PathValidationFailed("outside".to_string()),
            "PATH_VALIDATION_FAILED",
            "Invalid search path: outside",
        ),
        (
            SearchFailure::SpawnFailed("/rg".to_string(), "no such file".to_string()),
            "RG_SPAWN_FAILED",
            "rg spawn failed (path: /rg): no such file",
        ),
        (
            SearchFailure::CaptureFailed,
            "RG_STDOUT_CAPTURE_FAILED",
            "failed to capture rg stdout",
        ),
        (
            SearchFailure::StreamFailed("broken".to_string()),
            "RG_STREAM_FAILED",
            "broken",
        ),
    ];
    for (failure, code, message) in cases {
        assert_eq!(failure.code(), code);
        assert_eq!(failure.message(), message);
        let event = SearchContentDoneEvent::not_started("id".to_string(), &failure);
        assert_eq!(event.code.as_deref(), Some(code));
        assert_eq!(event.error.as_deref(), Some(message));
        assert_eq!(event.failed_files, if code == "RG_STDOUT_CAPTURE_FAILED" { 1 } else { 0 });
        let names = SearchFileNamesDoneEvent::not_started("id".to_string(), &failure);
        assert_eq!(names.code.as_deref(), Some(code));
        assert_eq!(names.total_files, 0);
    }
}

#[test]
fn exit_without_matches_is_no_failure() {
    let exit = |success: bool, code: Option<i32>| {
        Some(RgExit { success, code, shown: "ExitStatus(..)".to_string() })
    };
    assert!(stream_failure(None, exit(true, Some(0))).is_none());
    assert!(stream_failure(None, exit(false, Some(1))).is_none());
    assert!(stream_failure(None, None).is_none());
    let failed = stream_failure(None, exit(false, Some(2))).unwrap();
    assert_eq!(failed.message(), "rg exited with status: ExitStatus(..)");
    assert!(stream_failure(None, exit(false, None)).is_some());
    let read = stream_failure(Some(read_error_text("EPIPE")), exit(false, Some(2))).unwrap();
    assert_eq!(read.message(), "stdout read error: EPIPE");
}

#[test]
fn finished_stream_reports_its_error() {
    let exit = Some(RgExit { success: false, code: Some(2), shown: "S".to_string() });
    let event = SearchContentDoneEvent::finished("id".to_string(), true, None, exit);
    assert!(event.truncated);
    assert_eq!(event.code.as_deref(), Some("RG_STREAM_FAILED"));
    assert_eq!(event.error.as_deref(), Some("rg exited with status: S"));
    let fine = SearchContentDoneEvent::finished("id".to_string(), false, None, None);
    assert!(fine.code.is_none() && fine.error.is_none());
    let nothing = SearchContentDoneEvent::nothing_to_do("id".to_string());
    assert!(!nothing.truncated && nothing.code.is_none());
}

fn stream_request(query: &str) -> SearchContentStreamRequest {
    SearchContentStreamRequest {
        scope_root: "/w".to_string(),
        root_path: "/w/src".to_string(),
        query: query.to_string(),
        search_id: "id".to_string(),
    }
}

#[test]
fn content_stream_begins() {
    let root = || Ok("/w/src".to_string());
    match search_content_stream(&stream_request(" a b "), root()) {
        ContentStart::Run(args) => {
            assert_eq!(args[args.len() - 3..], ["--", "a b", "/w/src"]);
            assert_eq!(args[7], "30");
        }
        ContentStart::Over(_) => panic!("it runs"),
    }
    match search_content_stream(&stream_request("  "), root()) {
        ContentStart::Over(event) => assert!(event.code.is_none()),
        ContentStart::Run(_) => panic!("nothing to look for"),
    }
    match search_content_stream(&stream_request(&"x".repeat(600)), Err("bad".to_string())) {
        ContentStart::Over(event) => assert_eq!(event.code.as_deref(), Some("QUERY_TOO_LONG")),
        ContentStart::Run(_) => panic!("too long"),
    }
    match search_content_stream(&stream_request("x"), Err("bad".to_string())) {
        ContentStart::Over(event) => {
            assert_eq!(event.error.as_deref(), Some("Invalid search path: bad"))
        }
        ContentStart::Run(_) => panic!("refused"),
    }
}

#[test]
fn file_name_stream_begins() {
    let request = |query: &str| SearchFileNamesStreamRequest {
        scope_root: "/w".to_string(),
        root_path: "/w".to_string(),
        query: query.to_string(),
        search_id: "id".to_string(),
    };
    match search_file_names_stream(&request(" a* "), Ok("/w".to_string())) {
        FileNamesStart::Run(args) => {
            assert_eq!(args[3], "**/*a\\**");
            assert_eq!(args.last().map(String::as_str), Some("/w"));
        }
        FileNamesStart::Over(_) => panic!("it runs"),
    }
    match search_file_names_stream(&request(""), Ok("/w".to_string())) {
        FileNamesStart::Over(event) => assert!(event.error.is_none()),
        FileNamesStart::Run(_) => panic!("nothing to look for"),
    }
    match search_file_names_stream(&request(&"x".repeat(501)), Ok("/w".to_string())) {
        FileNamesStart::Over(event) => assert_eq!(
            event.error.as_deref(),
            Some("Search query too long: 501 characters (max 500)")
        ),
        FileNamesStart::Run(_) => panic!("too long"),
    }
    match search_file_names_stream(&request("x"), Err("out".to_string())) {
        FileNamesStart::Over(event) => {
            assert_eq!(event.code.as_deref(), Some("PATH_VALIDATION_FAILED"))
        }
        FileNamesStart::Run(_) => panic!("refused"),
    }
}

#[test]
fn search_in_one_reply() {
    let request = |query: &str| SearchContentRequest {
        scope_root: "/w".to_string(),
        root_path: "/w".to_string(),
        query: query.to_string(),
    };
    match start_search_content(&request(" "), Ok("/w".to_string())) {
        SearchStart::Reply(reply) => assert!(reply.data.unwrap().results.is_empty()),
        SearchStart::Run(_) => panic!("nothing to look for"),
    }
    match start_search_content(&request(&"x".repeat(500)), Ok("/w".to_string())) {
        SearchStart::Run(args) => assert_eq!(args[args.len() - 2].len(), 500),
        SearchStart::Reply(_) => panic!("the longest query is searched"),
    }
    for (root, error, code) in [
        (
            Ok("/w".to_string()),
            "Search query too long: 600 characters (max 500)",
            "QUERY_TOO_LONG",
        ),
        (Err("out".to_string()), "Invalid search path: out", "PATH_VALIDATION_FAILED"),
    ] {
        match start_search_content(&request(&"x".repeat(600)), root) {
            SearchStart::Reply(reply) => {
                assert_eq!(reply.error.as_deref(), Some(error));
                assert_eq!(reply.code.as_deref(), Some(code));
                assert!(reply.data.is_none());
            }
            SearchStart::Run(_) => panic!("too long"),
        }
    }
    match start_search_content(&request("x"), Err("out".to_string())) {
        SearchStart::Reply(reply) => {
            assert_eq!(reply.error.as_deref(), Some("Invalid search path: out"));
            assert_eq!(reply.code.as_deref(), Some("PATH_VALIDATION_FAILED"));
        }
        SearchStart::Run(_) => panic!("refused"),
    }

    let unstarted = search_content("/rg", RgOutput::NotStarted("gone".to_string()));
    assert_eq!(unstarted.error.as_deref(), Some("rg spawn failed (path: /rg): gone"));
    assert_eq!(unstarted.code.as_deref(), Some("SEARCH_ERROR"));
    let exited = |code: Option<i32>| RgOutput::Exited {
        code,
        stdout: match_line("a", 1, "x"),
        stderr: "bad flag".to_string(),
    };
    let failed = search_content("/rg", exited(Some(2)));
    assert_eq!(failed.error.as_deref(), Some("rg failed (2): bad flag"));
    for code in [Some(0), Some(1), Some(-1), None] {
        let found = search_content("/rg", exited(code));
        assert_eq!(found.data.unwrap().results.len(), 1);
    }
}
