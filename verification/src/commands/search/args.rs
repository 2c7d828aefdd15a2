//! The arguments that ripgrep is started with.

use crate::text::{
    concat3, decimal, decimal_text, is_numeral, lemma_decimal_value, numeral_value, to_chars,
};
use vstd::prelude::*;

verus! {

/// The directories that no search looks into.
pub open spec fn ignored_dirs() -> Seq<Seq<char>> {
    seq![
        "node_modules"@,
        ".git"@,
        ".next"@,
        ".cache"@,
        ".turbo"@,
        "dist"@,
        "build"@,
        ".output"@,
        ".nuxt"@,
        ".svelte-kit"@,
        "__pycache__"@,
        ".pytest_cache"@,
        "venv"@,
        "coverage"@,
        ".nyc_output"@,
    ]
}

/// The files that a file name search leaves out.
pub open spec fn ignored_files() -> Seq<Seq<char>> {
    seq![".env"@, "Thumbs.db"@, "desktop.ini"@, ".DS_Store"@]
}

/// The arguments that exclude each of `names`: `-g` and the name between
/// `front` and `back`.
pub open spec fn exclusions(names: Seq<Seq<char>>, front: Seq<char>, back: Seq<char>) -> Seq<
    Seq<char>,
>
    decreases names.len(),
{
    if names.len() == 0 {
        Seq::empty()
    } else {
        exclusions(names.drop_last(), front, back) + seq!["-g"@, front + names.last() + back]
    }
}

/// The arguments of a content search: a fixed string, in any case, with line
/// numbers, as JSON, in files of at most a megabyte.
pub open spec fn content_args(query: Seq<char>, root: Seq<char>, max_per_file: nat) -> Seq<
    Seq<char>,
> {
    seq![
        "--json"@,
        "-F"@,
        "-i"@,
        "-n"@,
        "--max-filesize"@,
        "1M"@,
        "--max-count"@,
        decimal(max_per_file),
    ] + exclusions(ignored_dirs(), "!**/"@, "/**"@) + seq!["--"@, query, root]
}

/// Whether `c` means something in a glob.
pub open spec fn is_glob_meta(c: char) -> bool {
    c == '*' || c == '?' || c == '[' || c == ']' || c == '{' || c == '}' || c == '\\'
}

/// `s` as a glob that means its own characters: a backslash before each
/// character that would mean something else.
pub open spec fn glob_escaped(s: Seq<char>) -> Seq<char>
    decreases s.len(),
{
    if s.len() == 0 {
        Seq::empty()
    } else if is_glob_meta(s[0]) {
        seq!['\\', s[0]] + glob_escaped(s.drop_first())
    } else {
        seq![s[0]] + glob_escaped(s.drop_first())
    }
}

/// The arguments of a file name search: list the files whose name contains the
/// query, in any case, at any depth.
pub open spec fn file_name_args(query: Seq<char>, root: Seq<char>) -> Seq<Seq<char>> {
    seq!["--files"@, "-i"@, "--iglob"@, "**/*"@ + glob_escaped(query) + "*"@] + exclusions(
        ignored_dirs(),
        "!"@,
        ""@,
    ) + exclusions(ignored_files(), "!"@, ""@) + seq![root]
}

/// The directories that no search looks into.
fn ignored_dir_list() -> (r: Vec<&'static str>)
    ensures
        r.deep_view() == ignored_dirs(),
{
    let r = vec![
        "node_modules",
        ".git",
        ".next",
        ".cache",
        ".turbo",
        "dist",
        "build",
        ".output",
        ".nuxt",
        ".svelte-kit",
        "__pycache__",
        ".pytest_cache",
        "venv",
        "coverage",
        ".nyc_output",
    ];
    assert(r.deep_view() =~= ignored_dirs());
    r
}

/// The files that a file name search leaves out.
fn ignored_file_list() -> (r: Vec<&'static str>)
    ensures
        r.deep_view() == ignored_files(),
{
    let r = vec![".env", "Thumbs.db", "desktop.ini", ".DS_Store"];
    assert(r.deep_view() =~= ignored_files());
    r
}

/// Appends one argument.
fn push_arg(args: &mut Vec<String>, arg: String)
    ensures
        final(args).deep_view() == old(args).deep_view().push(arg@),
{
    let ghost before = args.deep_view();
    args.push(arg);
    assert(args.deep_view() =~= before.push(arg@));
}

/// Appends the arguments that exclude each of `names`.
fn push_exclusions(args: &mut Vec<String>, names: &Vec<&'static str>, front: &str, back: &str)
    ensures
        final(args).deep_view() == old(args).deep_view() + exclusions(
            names.deep_view(),
            front@,
            back@,
        ),
{
    let ghost before = args.deep_view();
    let ghost all = names.deep_view();
    let mut i: usize = 0;
    assert(before + exclusions(all.take(0), front@, back@) =~= before);
    while i < names.len()
        invariant
            i <= names.len(),
            all == names.deep_view(),
            args.deep_view() == before + exclusions(all.take(i as int), front@, back@),
        decreases names.len() - i,
    {
        let ghost now = args.deep_view();
        push_arg(args, "-g".to_string());
        push_arg(args, concat3(front, names[i], back));
        proof {
            assert(all.take(i + 1).drop_last() =~= all.take(i as int));
            assert(all.take(i + 1).last() == names@[i as int]@);
            assert(args.deep_view() =~= before + exclusions(all.take(i + 1), front@, back@));
        }
        i += 1;
    }
    assert(all.take(i as int) =~= all);
}

/// The arguments of a content search for `query` under `root_path`, with at
/// most `max_matches_per_file` matches a file.
pub fn build_search_args(query: &str, root_path: &str, max_matches_per_file: usize) -> (r: Vec<
    String,
>)
    ensures
        r.deep_view() == content_args(query@, root_path@, max_matches_per_file as nat),
{
    let mut args: Vec<String> = vec![
        "--json".to_string(),
        "-F".to_string(),
        "-i".to_string(),
        "-n".to_string(),
        "--max-filesize".to_string(),
        "1M".to_string(),
        "--max-count".to_string(),
        decimal_text(max_matches_per_file as u128),
    ];
    let ghost head = args.deep_view();
    assert(head =~= seq![
        "--json"@,
        "-F"@,
        "-i"@,
        "-n"@,
        "--max-filesize"@,
        "1M"@,
        "--max-count"@,
        decimal(max_matches_per_file as nat),
    ]);
    push_exclusions(&mut args, &ignored_dir_list(), "!**/", "/**");
    push_arg(&mut args, "--".to_string());
    push_arg(&mut args, query.to_string());
    push_arg(&mut args, root_path.to_string());
    assert(args.deep_view() =~= content_args(query@, root_path@, max_matches_per_file as nat));
    args
}

/// The query as a glob that means its own characters.
fn escape_glob(query: &str) -> (r: String)
    ensures
        r@ == glob_escaped(query@),
{
    let chars = to_chars(query);
    let mut out = String::new();
    let mut i: usize = 0;
    assert(chars@.skip(0) =~= chars@);
    assert(out@ + glob_escaped(chars@) =~= glob_escaped(chars@));
    while i < chars.len()
        invariant
            i <= chars.len(),
            chars@ == query@,
            glob_escaped(query@) == out@ + glob_escaped(chars@.skip(i as int)),
        decreases chars.len() - i,
    {
        let c = chars[i];
        let ghost before = out@;
        assert(chars@.skip(i as int)[0] == c);
        assert(chars@.skip(i as int).drop_first() =~= chars@.skip(i + 1));
        if c == '*' || c == '?' || c == '[' || c == ']' || c == '{' || c == '}' || c == '\\' {
            out.push('\\');
        }
        out.push(c);
        assert(before + glob_escaped(chars@.skip(i as int)) =~= out@ + glob_escaped(
            chars@.skip(i + 1),
        ));
        i += 1;
    }
    assert(out@ + glob_escaped(chars@.skip(i as int)) =~= out@);
    out
}

/// The arguments of a search for files under `root_path` whose name contains
/// `query`.
pub fn build_file_name_search_args(query: &str, root_path: &str) -> (r: Vec<String>)
    ensures
        r.deep_view() == file_name_args(query@, root_path@),
{
    let escaped = escape_glob(query);
    let mut args: Vec<String> = vec![
        "--files".to_string(),
        "-i".to_string(),
        "--iglob".to_string(),
        concat3("**/*", &escaped, "*"),
    ];
    assert(args.deep_view() =~= seq![
        "--files"@,
        "-i"@,
        "--iglob"@,
        "**/*"@ + glob_escaped(query@) + "*"@,
    ]);
    push_exclusions(&mut args, &ignored_dir_list(), "!", "");
    push_exclusions(&mut args, &ignored_file_list(), "!", "");
    push_arg(&mut args, root_path.to_string());
    assert(args.deep_view() =~= file_name_args(query@, root_path@));
    args
}

// ==================== Laws ====================

/// The text that a glob means where nothing in it is a wildcard: a backslash
/// makes the next character mean itself. `None` where a character of the glob
/// means something else, or where it ends in a backslash.
pub open spec fn glob_literal(glob: Seq<char>) -> Option<Seq<char>>
    decreases glob.len(),
{
    if glob.len() == 0 {
        Some(Seq::empty())
    } else if glob[0] == '\\' {
        if glob.len() == 1 {
            None
        } else {
            match glob_literal(glob.skip(2)) {
                Some(rest) => Some(seq![glob[1]] + rest),
                None => None,
            }
        }
    } else if is_glob_meta(glob[0]) {
        None
    } else {
        match glob_literal(glob.drop_first()) {
            Some(rest) => Some(seq![glob[0]] + rest),
            None => None,
        }
    }
}

/// A query is matched as it stands: its glob has no wildcard and means just
/// the characters of the query.
pub proof fn law_query_is_matched_literally(query: Seq<char>)
    ensures
        glob_literal(glob_escaped(query)) == Some(query),
    decreases query.len(),
{
    let glob = glob_escaped(query);
    if query.len() > 0 {
        let rest = query.drop_first();
        law_query_is_matched_literally(rest);
        if is_glob_meta(query[0]) {
            assert(glob.skip(2) =~= glob_escaped(rest));
        } else {
            assert(glob.drop_first() =~= glob_escaped(rest));
        }
        assert(seq![query[0]] + rest =~= query);
    } else {
        assert(query =~= Seq::empty());
    }
}

/// The query of a content search is never read as an option, and neither is the
/// directory: both come last, behind the mark that ends the options.
pub proof fn law_query_is_never_an_option(query: Seq<char>, root: Seq<char>, max_per_file: nat)
    ensures
        ({
            let args = content_args(query, root, max_per_file);
            &&& args[args.len() - 3] == "--"@
            &&& args[args.len() - 2] == query
            &&& args.last() == root
        }),
{
}

/// A file name search looks for the query under the directory that it is given,
/// which is its last argument, however the two are written.
pub proof fn law_file_names_are_searched_under_root(query: Seq<char>, root: Seq<char>)
    ensures
        file_name_args(query, root)[3] == "**/*"@ + glob_escaped(query) + "*"@,
        file_name_args(query, root).last() == root,
{
}

/// Each name is excluded, in order: `-g`, and the name between the two texts.
pub proof fn law_every_name_is_excluded(
    names: Seq<Seq<char>>,
    front: Seq<char>,
    back: Seq<char>,
    i: int,
)
    requires
        0 <= i < names.len(),
    ensures
        exclusions(names, front, back).len() == 2 * names.len(),
        exclusions(names, front, back)[2 * i] == "-g"@,
        exclusions(names, front, back)[2 * i + 1] == front + names[i] + back,
    decreases names.len(),
{
    let fewer = names.drop_last();
    lemma_exclusion_count(fewer, front, back);
    if i < fewer.len() {
        law_every_name_is_excluded(fewer, front, back, i);
        assert(fewer[i] == names[i]);
    }
}

/// There are two arguments for each name.
proof fn lemma_exclusion_count(names: Seq<Seq<char>>, front: Seq<char>, back: Seq<char>)
    ensures
        exclusions(names, front, back).len() == 2 * names.len(),
    decreases names.len(),
{
    if names.len() > 0 {
        lemma_exclusion_count(names.drop_last(), front, back);
    }
}

/// The directories and the files that are left out are these.
pub proof fn law_what_is_left_out()
    ensures
        ignored_dirs() == seq![
            "node_modules"@,
            ".git"@,
            ".next"@,
            ".cache"@,
            ".turbo"@,
            "dist"@,
            "build"@,
            ".output"@,
            ".nuxt"@,
            ".svelte-kit"@,
            "__pycache__"@,
            ".pytest_cache"@,
            "venv"@,
            "coverage"@,
            ".nyc_output"@,
        ],
        ignored_files() == seq![".env"@, "Thumbs.db"@, "desktop.ini"@, ".DS_Store"@],
{
}

/// A content search looks for the query as a fixed text, in any case, with line
/// numbers, as JSON, in files of at most a megabyte, for so many matches a file;
/// it leaves each ignored directory out, at any depth, and searches under the
/// root.
pub proof fn law_content_is_searched_as_asked(
    query: Seq<char>,
    root: Seq<char>,
    max_per_file: nat,
)
    ensures
        ({
            let args = content_args(query, root, max_per_file);
            &&& args.len() == 41
            &&& args[0] == "--json"@
            &&& args[1] == "-F"@
            &&& args[2] == "-i"@
            &&& args[3] == "-n"@
            &&& args[4] == "--max-filesize"@
            &&& args[5] == "1M"@
            &&& args[6] == "--max-count"@
            &&& numeral_value(args[7]) == max_per_file
            &&& is_numeral(args[7])
            &&& forall|i: int|
                #![trigger ignored_dirs()[i]]
                0 <= i < 15 ==> args[8 + 2 * i] == "-g"@ && args[9 + 2 * i] == "!**/"@
                    + ignored_dirs()[i] + "/**"@
            &&& args[38] == "--"@
            &&& args[39] == query
            &&& args[40] == root
        }),
{
    lemma_exclusion_count(ignored_dirs(), "!**/"@, "/**"@);
    lemma_decimal_value(max_per_file);
    let args = content_args(query, root, max_per_file);
    assert forall|i: int| #![trigger ignored_dirs()[i]] 0 <= i < 15 implies args[8 + 2 * i]
        == "-g"@ && args[9 + 2 * i] == "!**/"@ + ignored_dirs()[i] + "/**"@ by {
        law_every_name_is_excluded(ignored_dirs(), "!**/"@, "/**"@, i);
    }
}

/// A file name search lists the files whose name has the query in it, in any
/// case, leaves each ignored directory and file out, and searches under the root.
pub proof fn law_file_names_are_searched_as_asked(query: Seq<char>, root: Seq<char>)
    ensures
        ({
            let args = file_name_args(query, root);
            &&& args.len() == 43
            &&& args[0] == "--files"@
            &&& args[1] == "-i"@
            &&& args[2] == "--iglob"@
            &&& args[3] == seq!['*', '*', '/', '*'] + glob_escaped(query) + seq!['*']
            &&& forall|i: int|
                #![trigger ignored_dirs()[i]]
                0 <= i < 15 ==> args[4 + 2 * i] == "-g"@ && args[5 + 2 * i] == seq!['!']
                    + ignored_dirs()[i]
            &&& forall|i: int|
                #![trigger ignored_files()[i]]
                0 <= i < 4 ==> args[34 + 2 * i] == "-g"@ && args[35 + 2 * i] == seq!['!']
                    + ignored_files()[i]
            &&& args[42] == root
        }),
{
    reveal_strlit("!");
    reveal_strlit("");
    reveal_strlit("**/*");
    reveal_strlit("*");
    assert("!"@ =~= seq!['!']);
    assert("**/*"@ =~= seq!['*', '*', '/', '*']);
    assert("*"@ =~= seq!['*']);
    lemma_exclusion_count(ignored_dirs(), "!"@, ""@);
    lemma_exclusion_count(ignored_files(), "!"@, ""@);
    let args = file_name_args(query, root);
    assert forall|i: int| #![trigger ignored_dirs()[i]] 0 <= i < 15 implies args[4 + 2 * i]
        == "-g"@ && args[5 + 2 * i] == seq!['!'] + ignored_dirs()[i] by {
        law_every_name_is_excluded(ignored_dirs(), "!"@, ""@, i);
        assert("!"@ + ignored_dirs()[i] + ""@ =~= seq!['!'] + ignored_dirs()[i]);
    }
    assert forall|i: int| #![trigger ignored_files()[i]] 0 <= i < 4 implies args[34 + 2 * i]
        == "-g"@ && args[35 + 2 * i] == seq!['!'] + ignored_files()[i] by {
        law_every_name_is_excluded(ignored_files(), "!"@, ""@, i);
        assert("!"@ + ignored_files()[i] + ""@ =~= seq!['!'] + ignored_files()[i]);
    }
}

/// A glob has every character of the query, in order, and a backslash before
/// each that means something in a glob, and before no other.
pub proof fn law_only_glob_characters_are_escaped(query: Seq<char>, c: char)
    ensures
        glob_escaped(Seq::empty()) == Seq::<char>::empty(),
        c == '*' || c == '?' || c == '[' || c == ']' || c == '{' || c == '}' || c == '\\'
            ==> glob_escaped(seq![c] + query) == seq!['\\', c] + glob_escaped(query),
        c != '*' && c != '?' && c != '[' && c != ']' && c != '{' && c != '}' && c != '\\'
            ==> glob_escaped(seq![c] + query) == seq![c] + glob_escaped(query),
{
    assert((seq![c] + query).drop_first() =~= query);
}

} // verus!
