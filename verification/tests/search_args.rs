use termul_manager::commands::search::args::{build_file_name_search_args, build_search_args};
use termul_manager::commands::search::requests::{
    SearchContentCancelRequest, SearchFileNamesCancelRequest,
};
use termul_manager::commands::search::rg_path::{
    detect_rg_path, resolve_rg_path, rg_candidates, rg_sidecar_name, search_get_rg_info, RgBase,
};

#[test]
fn build_file_name_search_args_escapes_glob_metacharacters() {
    let args = build_file_name_search_args("foo*bar?baz[qux]{a,b}\\z", "/tmp");
    let iglob_idx = args
        .iter()
        .position(|a| a == "--iglob")
        .expect("--iglob present");
    let pattern = &args[iglob_idx + 1];
    assert_eq!(pattern, r"**/*foo\*bar\?baz\[qux\]\{a,b\}\\z*");
    assert!(pattern.starts_with("**/*"));
}

#[test]
fn build_file_name_search_args_includes_ignore_list_and_excludes() {
    let args = build_file_name_search_args("foo", "/tmp");
    for ignored in [
        "node_modules",
        ".git",
        ".env",
        "Thumbs.db",
        "desktop.ini",
        ".DS_Store",
    ] {
        let needle = format!("!{}", ignored);
        let has = args.windows(2).any(|w| w[0] == "-g" && w[1] == needle);
        assert!(has, "missing `-g {}` in {:?}", ignored, args);
    }
    assert_eq!(args.last().map(String::as_str), Some("/tmp"));
}

#[test]
fn build_file_name_search_args_appends_root_path() {
    let args = build_file_name_search_args("term", "/some/root path");
    assert_eq!(args.last().map(String::as_str), Some("/some/root path"));
}

#[test]
fn build_file_name_search_args_starts_with_files_and_case_insensitive() {
    let args = build_file_name_search_args("foo", "/tmp");
    assert_eq!(args[0], "--files");
    assert_eq!(args[1], "-i");
}

#[test]
fn search_file_names_cancel_request_is_a_dto_not_aliased_to_content() {
    let req = SearchFileNamesCancelRequest {
        search_id: "search-1".to_string(),
    };
    assert_eq!(req.search_id, "search-1");
    let content = SearchContentCancelRequest {
        search_id: "search-2".to_string(),
    };
    assert_eq!(content.search_id, "search-2");
}

#[test]
fn file_name_arguments_in_full() {
    let args = build_file_name_search_args("a", "/r");
    assert_eq!(args.len(), 4 + 2 * 15 + 2 * 4 + 1);
    assert_eq!(args[3], "**/*a*");
    assert_eq!(args[4], "-g");
    assert_eq!(args[5], "!node_modules");
    assert_eq!(args[33], "!.nyc_output");
    assert_eq!(args[35], "!.env");
    assert_eq!(args[41], "!.DS_Store");
}

#[test]
fn content_arguments_in_full() {
    let args = build_search_args("-x", "/r", 30);
    assert_eq!(
        args[..8],
        ["--json", "-F", "-i", "-n", "--max-filesize", "1M", "--max-count", "30"]
    );
    assert_eq!(args[8..10], ["-g", "!**/node_modules/**"]);
    assert_eq!(args[36..38], ["-g", "!**/.nyc_output/**"]);
    assert_eq!(args[38..], ["--", "-x", "/r"]);
}

#[test]
fn bundled_program_by_system() {
    assert_eq!(rg_sidecar_name("windows", "aarch64"), "rg-x86_64-pc-windows-msvc.exe");
    assert_eq!(rg_sidecar_name("macos", "aarch64"), "rg-aarch64-apple-darwin");
    assert_eq!(rg_sidecar_name("macos", "x86_64"), "rg-x86_64-apple-darwin");
    assert_eq!(rg_sidecar_name("linux", "aarch64"), "rg-aarch64-unknown-linux-gnu");
    assert_eq!(rg_sidecar_name("linux", "arm"), "rg-armv7-unknown-linux-gnueabihf");
    assert_eq!(rg_sidecar_name("linux", "riscv64"), "rg-x86_64-unknown-linux-musl");
    assert_eq!(rg_sidecar_name("freebsd", "x86_64"), "rg");
}

#[test]
fn places_without_an_environment_path() {
    let places = rg_candidates(&None, false, true, true, "rg-x");
    let shown: Vec<(RgBase, String)> = places
        .iter()
        .map(|p| (p.base, p.components.join("/")))
        .collect();
    assert_eq!(
        shown,
        vec![
            (RgBase::CurrentDir, "src-tauri/bin/rg-x".to_string()),
            (RgBase::CurrentDir, "bin/rg-x".to_string()),
            (RgBase::ExeDir, "rg-x".to_string()),
            (RgBase::ExeDir, "../Resources/rg-x".to_string()),
            (RgBase::ExeDir, "../lib/rg-x".to_string()),
        ]
    );
    assert_eq!(rg_candidates(&Some("  ".to_string()), true, false, true, "rg-x").len(), 3);
}

#[test]
fn places_with_an_environment_path() {
    let env = Some("tools/rg".to_string());
    let places = rg_candidates(&env, false, true, true, "rg-x");
    assert_eq!(places.len(), 2);
    assert_eq!(places[0].components, vec!["tools/rg".to_string()]);
    assert_eq!(
        places[1].components,
        vec!["src-tauri".to_string(), "tools/rg".to_string()]
    );
    assert!(rg_candidates(&env, true, true, true, "rg-x").is_empty());
    assert!(rg_candidates(&env, false, false, true, "rg-x").is_empty());
}

#[test]
fn path_of_ripgrep_and_where_it_comes_from() {
    let pair = |a: &str, b: &str| (a.to_string(), b.to_string());
    let env = Some("tools/rg".to_string());
    assert_eq!(resolve_rg_path(env.clone(), vec![None, None]), pair("tools/rg", "env"));
    assert_eq!(
        resolve_rg_path(env, vec![None, Some("/w/src-tauri/tools/rg".to_string())]),
        pair("/w/src-tauri/tools/rg", "env")
    );
    assert_eq!(
        resolve_rg_path(None, vec![None, Some("/w/bin/rg-x".to_string()), Some("/e/rg-x".to_string())]),
        pair("/w/bin/rg-x", "sidecar")
    );
    assert_eq!(resolve_rg_path(Some(" ".to_string()), vec![]), pair("rg", "path"));
}

#[test]
fn path_in_use_stays_the_same() {
    assert_eq!(detect_rg_path(None, "/new".to_string()), "/new");
    assert_eq!(detect_rg_path(Some("/old".to_string()), "/new".to_string()), "/old");
}

#[test]
fn what_is_told_of_ripgrep() {
    let told = search_get_rg_info(
        "linux",
        "x86_64",
        ("/w/bin/rg".to_string(), "sidecar".to_string()),
        true,
    );
    let info = told.data.unwrap();
    assert_eq!(info.sidecar_binary_name, "rg-x86_64-unknown-linux-musl");
    assert_eq!(info.resolved_path, "/w/bin/rg");
    assert_eq!(info.source, "sidecar");
    assert!(info.exists);
}
