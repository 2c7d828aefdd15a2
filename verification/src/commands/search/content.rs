//! Content search: reading ripgrep's JSON lines and keeping the matches within
//! bounds.

use crate::commands::search::groups::{
    by_path, matches_of, sorted_by_path, with_match, FileSearchMatch, FileSearchResult, Groups,
    MatchGroups, MatchModel, MAX_FILES_WITH_MATCHES, MAX_MATCHES_PER_FILE,
};
use crate::outside::{json_number, json_number_at, json_text, json_text_at};
use crate::text::{
    is_line_end, law_line_end_only_is_cut, lines, lines_of, replace_char, replaced, same_text,
    strip_back, trim_line_end,
};
use vstd::prelude::*;

verus! {

// ==================== Reading a line of output ====================

/// A match that ripgrep reported.
#[derive(Debug, Clone)]
pub struct RgMatch {
    pub file_path: String,
    pub found: FileSearchMatch,
}

/// A reported match as a mathematical value.
pub struct RgMatchModel {
    pub file_path: Seq<char>,
    pub found: MatchModel,
}

impl DeepView for RgMatch {
    type V = RgMatchModel;

    open spec fn deep_view(&self) -> RgMatchModel {
        RgMatchModel { file_path: self.file_path@, found: self.found.deep_view() }
    }
}

/// The match in an output line with these fields: there is one where the line
/// is of type `match` and has a path and a line number. The path is given
/// forward slashes, the text loses its line ending, and a missing text is empty.
pub open spec fn match_in_fields(
    kind: Option<Seq<char>>,
    path: Option<Seq<char>>,
    line_number: Option<u64>,
    line_text: Option<Seq<char>>,
) -> Option<RgMatchModel> {
    if kind == Some("match"@) && path is Some && line_number is Some {
        let text = match line_text {
            Some(text) => text,
            None => Seq::empty(),
        };
        Some(
            RgMatchModel {
                file_path: replaced(path->0, '\\', '/'),
                found: MatchModel {
                    line_number: line_number->0 as usize,
                    line_text: strip_back(text, |c: char| is_line_end(c)),
                },
            },
        )
    } else {
        None
    }
}

/// The match in an output line.
pub open spec fn match_in_line(line: Seq<char>) -> Option<RgMatchModel> {
    match_in_fields(
        json_text(line, "/type"@),
        json_text(line, "/data/path/text"@),
        json_number(line, "/data/line_number"@),
        json_text(line, "/data/lines/text"@),
    )
}

/// The match in an output line with these fields.
pub fn interpret_match(
    kind: Option<String>,
    path: Option<String>,
    line_number: Option<u64>,
    line_text: Option<String>,
) -> (r: Option<RgMatch>)
    ensures
        r.deep_view() == match_in_fields(
            kind.deep_view(),
            path.deep_view(),
            line_number,
            line_text.deep_view(),
        ),
        r is Some <==> kind.deep_view() == Some("match"@) && path is Some && line_number is Some,
        r matches Some(found) ==> found.file_path@.len() == path->0@.len() && (forall|i: int|
            0 <= i < path->0@.len() ==> #[trigger] found.file_path@[i] == (if path->0@[i] == '\\' {
                '/'
            } else {
                path->0@[i]
            })) && found.found.line_number == line_number->0 as usize && (line_text is Some
            ==> found.found.line_text@.is_prefix_of(line_text->0@)),
{
    proof {
        if line_text is Some {
            let n = law_line_end_only_is_cut(line_text->0@);
        }
    }
    match kind {
        Some(kind) => {
            if !same_text(&kind, "match") {
                return None;
            }
        },
        None => {
            return None;
        },
    }
    let file_path = match path {
        Some(path) => replace_char(&path, '\\', '/'),
        None => {
            return None;
        },
    };
    let line_number: usize = match line_number {
        Some(n) => n as usize,
        None => {
            return None;
        },
    };
    let line_text = match line_text {
        Some(text) => trim_line_end(&text).to_string(),
        None => String::new(),
    };
    Some(RgMatch { file_path, found: FileSearchMatch { line_number, line_text } })
}

/// The match in an output line; a line that is not JSON holds none.
pub fn read_match(line: &str) -> (r: Option<RgMatch>)
    ensures
        r.deep_view() == match_in_line(line@),
{
    let kind = json_text_at(line, "/type");
    let path = json_text_at(line, "/data/path/text");
    let line_number = json_number_at(line, "/data/line_number");
    let line_text = json_text_at(line, "/data/lines/text");
    interpret_match(kind, path, line_number, line_text)
}

// ==================== Keeping a match ====================

/// What becomes of a match.
#[derive(Debug, Clone, Copy, PartialEq, Eq, Structural)]
pub enum Admission {
    /// It was kept.
    Kept,
    /// Its file has its share of matches: it was dropped.
    FileFull,
    /// It is of a new file and there are enough files: the search is over.
    FilesFull,
}

/// What becomes of a match of `path`, given the matches kept so far.
pub open spec fn admission(groups: Groups, path: Seq<char>) -> Admission {
    if !groups.dom().contains(path) && groups.dom().len() >= MAX_FILES_WITH_MATCHES {
        Admission::FilesFull
    } else if matches_of(groups, path).len() >= MAX_MATCHES_PER_FILE {
        Admission::FileFull
    } else {
        Admission::Kept
    }
}

/// The matches kept once a match has been considered.
pub open spec fn admitted(groups: Groups, found: RgMatchModel) -> Groups {
    if admission(groups, found.file_path) == Admission::Kept {
        with_match(groups, found.file_path, found.found)
    } else {
        groups
    }
}

/// Whether `groups` is within the bounds of a search.
pub open spec fn within_bounds(groups: Groups) -> bool {
    &&& groups.dom().finite()
    &&& groups.dom().len() <= MAX_FILES_WITH_MATCHES
    &&& forall|path: Seq<char>| #[trigger]
        groups.dom().contains(path) ==> groups[path].len() <= MAX_MATCHES_PER_FILE
}

/// Considers one match.
pub fn consider(groups: &mut MatchGroups, found: &RgMatch) -> (r: Admission)
    requires
        old(groups).well_formed(),
    ensures
        final(groups).well_formed(),
        r == admission(old(groups)@, found.file_path@),
        final(groups)@ == admitted(old(groups)@, found.deep_view()),
{
    if !groups.has(&found.file_path) && groups.len() >= MAX_FILES_WITH_MATCHES {
        return Admission::FilesFull;
    }
    if groups.count(&found.file_path) >= MAX_MATCHES_PER_FILE {
        return Admission::FileFull;
    }
    let copy = FileSearchMatch {
        line_number: found.found.line_number,
        line_text: found.found.line_text.clone(),
    };
    groups.push(&found.file_path, copy);
    Admission::Kept
}

// ==================== Searching in one go ====================

/// The matches kept of a whole output, one entry a line, and whether any were
/// dropped.
pub open spec fn gathered(
    frames: Seq<Option<RgMatchModel>>,
    groups: Groups,
    truncated: bool,
) -> (Groups, bool)
    decreases frames.len(),
{
    if frames.len() == 0 {
        (groups, truncated)
    } else {
        match frames[0] {
            None => gathered(frames.drop_first(), groups, truncated),
            Some(found) => match admission(groups, found.file_path) {
                Admission::FilesFull => (groups, true),
                Admission::FileFull => gathered(frames.drop_first(), groups, true),
                Admission::Kept => gathered(
                    frames.drop_first(),
                    admitted(groups, found),
                    truncated,
                ),
            },
        }
    }
}

/// The match, if any, in each line of an output.
pub open spec fn frames_of(lines: Seq<Seq<char>>) -> Seq<Option<RgMatchModel>> {
    lines.map_values(|line: Seq<char>| match_in_line(line))
}

/// No matches.
pub open spec fn no_matches() -> Groups {
    Map::empty()
}

/// Gathers the matches of a list of reported matches.
pub fn gather(frames: &Vec<Option<RgMatch>>) -> (r: (Vec<FileSearchResult>, bool))
    ensures
        sorted_by_path(r.0.deep_view()),
        (by_path(r.0.deep_view()), r.1) == gathered(frames.deep_view(), no_matches(), false),
{
    let mut groups = MatchGroups::new();
    let mut truncated = false;
    let mut i: usize = 0;
    let ghost all = frames.deep_view();
    assert(all.skip(0) == all);
    while i < frames.len()
        invariant
            i <= frames.len(),
            all == frames.deep_view(),
            groups.well_formed(),
            gathered(all, no_matches(), false) == gathered(all.skip(i as int), groups@, truncated),
        decreases frames.len() - i,
    {
        assert(all.skip(i as int)[0] == frames@[i as int].deep_view());
        assert(all.skip(i as int).drop_first() == all.skip(i + 1));
        match &frames[i] {
            Some(found) => {
                match consider(&mut groups, found) {
                    Admission::FilesFull => {
                        return (groups.into_results(), true);
                    },
                    Admission::FileFull => {
                        truncated = true;
                    },
                    Admission::Kept => {},
                }
            },
            None => {},
        }
        i += 1;
    }
    (groups.into_results(), truncated)
}

/// The results of a finished search.
#[derive(Debug, Clone)]
pub struct FileSearchResponse {
    pub results: Vec<FileSearchResult>,
    pub truncated: bool,
    pub scanned_files: usize,
    pub failed_files: usize,
}

/// The matches in the whole output of ripgrep.
pub fn gather_output(stdout: &str) -> (r: FileSearchResponse)
    ensures
        sorted_by_path(r.results.deep_view()),
        (by_path(r.results.deep_view()), r.truncated) == gathered(
            frames_of(lines_of(stdout@)),
            no_matches(),
            false,
        ),
        r.scanned_files == 0,
        r.failed_files == 0,
{
    let output = lines(stdout);
    let mut frames: Vec<Option<RgMatch>> = Vec::new();
    let mut i: usize = 0;
    while i < output.len()
        invariant
            i <= output.len(),
            frames.deep_view() == frames_of(output.deep_view()).take(i as int),
        decreases output.len() - i,
    {
        let ghost before = frames.deep_view();
        frames.push(read_match(&output[i]));
        assert(frames.deep_view() =~= before.push(match_in_line(output@[i as int]@)));
        assert(frames_of(output.deep_view())[i as int] == match_in_line(output@[i as int]@));
        assert(frames.deep_view() =~= frames_of(output.deep_view()).take(i + 1));
        i += 1;
    }
    assert(frames.deep_view() =~= frames_of(output.deep_view()));
    let (results, truncated) = gather(&frames);
    FileSearchResponse { results, truncated, scanned_files: 0, failed_files: 0 }
}

// ==================== Laws ====================

/// The matches of `path` among the reported ones, in the order of the report.
pub open spec fn reported(frames: Seq<Option<RgMatchModel>>, path: Seq<char>) -> Seq<MatchModel>
    decreases frames.len(),
{
    if frames.len() == 0 {
        Seq::empty()
    } else {
        let rest = reported(frames.drop_first(), path);
        match frames[0] {
            Some(found) if found.file_path == path => seq![found.found] + rest,
            _ => rest,
        }
    }
}

/// Considering a match keeps the bounds.
pub proof fn lemma_admitted_within_bounds(groups: Groups, found: RgMatchModel)
    requires
        within_bounds(groups),
    ensures
        within_bounds(admitted(groups, found)),
{
}

/// A search keeps at most the bounded number of files, and of each file at most
/// the bounded number of matches, whatever ripgrep reports.
pub proof fn law_search_stays_within_bounds(
    frames: Seq<Option<RgMatchModel>>,
    groups: Groups,
    truncated: bool,
)
    requires
        within_bounds(groups),
    ensures
        within_bounds(gathered(frames, groups, truncated).0),
    decreases frames.len(),
{
    if frames.len() > 0 {
        let rest = frames.drop_first();
        match frames[0] {
            None => law_search_stays_within_bounds(rest, groups, truncated),
            Some(found) => {
                lemma_admitted_within_bounds(groups, found);
                law_search_stays_within_bounds(rest, groups, true);
                law_search_stays_within_bounds(rest, admitted(groups, found), truncated);
            },
        }
    }
}

/// Once matches have been dropped, a search stays marked as truncated.
pub proof fn law_truncation_is_final(frames: Seq<Option<RgMatchModel>>, groups: Groups)
    ensures
        gathered(frames, groups, true).1,
    decreases frames.len(),
{
    if frames.len() > 0 {
        let rest = frames.drop_first();
        match frames[0] {
            None => law_truncation_is_final(rest, groups),
            Some(found) => {
                law_truncation_is_final(rest, groups);
                law_truncation_is_final(rest, admitted(groups, found));
            },
        }
    }
}

/// A search that is not marked as truncated holds every reported match of every
/// file, in the order of the report, after what it started with.
pub proof fn law_untruncated_search_is_complete(
    frames: Seq<Option<RgMatchModel>>,
    groups: Groups,
    path: Seq<char>,
)
    requires
        !gathered(frames, groups, false).1,
    ensures
        matches_of(gathered(frames, groups, false).0, path) == matches_of(groups, path) + reported(
            frames,
            path,
        ),
    decreases frames.len(),
{
    if frames.len() == 0 {
        assert(matches_of(groups, path) + Seq::<MatchModel>::empty() == matches_of(groups, path));
    } else {
        let rest = frames.drop_first();
        match frames[0] {
            None => law_untruncated_search_is_complete(rest, groups, path),
            Some(found) => {
                law_truncation_is_final(rest, groups);
                law_untruncated_search_is_complete(rest, admitted(groups, found), path);
                if found.file_path == path {
                    assert(matches_of(groups, path) + (seq![found.found] + reported(rest, path))
                        == matches_of(groups, path).push(found.found) + reported(rest, path));
                }
            },
        }
    }
}

/// Whether a match of `path` was reported and not kept: fewer are kept of the
/// file than it had before and were reported of it.
pub open spec fn misses_a_match(
    frames: Seq<Option<RgMatchModel>>,
    groups: Groups,
    path: Seq<char>,
) -> bool {
    matches_of(gathered(frames, groups, false).0, path).len() < matches_of(groups, path).len()
        + reported(frames, path).len()
}

/// A search is marked as truncated just where a reported match is missing from
/// what it keeps.
pub proof fn law_truncated_search_misses_a_match(
    frames: Seq<Option<RgMatchModel>>,
    groups: Groups,
)
    requires
        within_bounds(groups),
    ensures
        gathered(frames, groups, false).1 <==> exists|path: Seq<char>| #[trigger]
            misses_a_match(frames, groups, path),
    decreases frames.len(),
{
    if !gathered(frames, groups, false).1 {
        assert forall|path: Seq<char>| !#[trigger] misses_a_match(frames, groups, path) by {
            law_untruncated_search_is_complete(frames, groups, path);
        }
    } else if frames.len() > 0 {
        let rest = frames.drop_first();
        match frames[0] {
            None => {
                law_truncated_search_misses_a_match(rest, groups);
                let path = choose|path: Seq<char>| #[trigger] misses_a_match(rest, groups, path);
                assert(misses_a_match(frames, groups, path));
            },
            Some(found) => match admission(groups, found.file_path) {
                Admission::FilesFull => {
                    assert(misses_a_match(frames, groups, found.file_path));
                },
                Admission::FileFull => {
                    lemma_full_file_is_settled(rest, groups, true, found.file_path);
                    assert(misses_a_match(frames, groups, found.file_path));
                },
                Admission::Kept => {
                    let next = admitted(groups, found);
                    lemma_admitted_within_bounds(groups, found);
                    law_truncated_search_misses_a_match(rest, next);
                    let path = choose|path: Seq<char>| #[trigger] misses_a_match(rest, next, path);
                    assert(misses_a_match(frames, groups, path));
                },
            },
        }
    }
}

/// What a search keeps of a file is a front part of what was reported of it:
/// no match is made up, reordered or skipped over.
pub proof fn law_kept_matches_are_a_prefix(
    frames: Seq<Option<RgMatchModel>>,
    groups: Groups,
    truncated: bool,
    path: Seq<char>,
)
    requires
        within_bounds(groups),
    ensures
        matches_of(gathered(frames, groups, truncated).0, path).is_prefix_of(
            matches_of(groups, path) + reported(frames, path),
        ),
    decreases frames.len(),
{
    let whole = matches_of(groups, path) + reported(frames, path);
    if frames.len() > 0 {
        let rest = frames.drop_first();
        match frames[0] {
            None => law_kept_matches_are_a_prefix(rest, groups, truncated, path),
            Some(found) => match admission(groups, found.file_path) {
                Admission::FilesFull => {},
                Admission::FileFull => {
                    law_kept_matches_are_a_prefix(rest, groups, true, path);
                    if found.file_path == path {
                        lemma_full_file_is_settled(rest, groups, true, path);
                    }
                },
                Admission::Kept => {
                    lemma_admitted_within_bounds(groups, found);
                    law_kept_matches_are_a_prefix(rest, admitted(groups, found), truncated, path);
                    if found.file_path == path {
                        assert(whole == matches_of(groups, path).push(found.found) + reported(
                            rest,
                            path,
                        ));
                    }
                },
            },
        }
    }
}

/// A file with its share of matches gets no more.
pub proof fn lemma_full_file_is_settled(
    frames: Seq<Option<RgMatchModel>>,
    groups: Groups,
    truncated: bool,
    path: Seq<char>,
)
    requires
        matches_of(groups, path).len() >= MAX_MATCHES_PER_FILE,
    ensures
        matches_of(gathered(frames, groups, truncated).0, path) == matches_of(groups, path),
    decreases frames.len(),
{
    if frames.len() > 0 {
        let rest = frames.drop_first();
        match frames[0] {
            None => lemma_full_file_is_settled(rest, groups, truncated, path),
            Some(found) => {
                lemma_full_file_is_settled(rest, groups, true, path);
                lemma_full_file_is_settled(rest, admitted(groups, found), truncated, path);
            },
        }
    }
}

/// A line of type `match` with a path and a line number is a match, and no other
/// line is. The file is the one that the line names, character by character, but
/// for a backslash, which becomes a forward slash; so a path without backslashes
/// is reported unchanged. The line number is that of the line, and the text is
/// its text, without the carriage returns and line feeds at its end.
pub proof fn law_match_is_what_the_line_says(
    kind: Option<Seq<char>>,
    path: Option<Seq<char>>,
    line_number: Option<u64>,
    line_text: Option<Seq<char>>,
)
    ensures
        ({
            let found = match_in_fields(kind, path, line_number, line_text);
            &&& found is Some <==> kind == Some(seq!['m', 'a', 't', 'c', 'h']) && path is Some
                && line_number is Some
            &&& found is Some ==> found->0.file_path.len() == path->0.len()
            &&& found is Some ==> forall|i: int|
                0 <= i < path->0.len() ==> #[trigger] found->0.file_path[i] == (if path->0[i]
                    == '\\' {
                    '/'
                } else {
                    path->0[i]
                })
            &&& found is Some && line_number->0 <= usize::MAX ==> found->0.found.line_number
                == line_number->0
            &&& found is Some && line_text is None ==> found->0.found.line_text.len() == 0
            &&& found is Some && line_text is Some ==> {
                let text = found->0.found.line_text;
                let whole = line_text->0;
                &&& text.len() <= whole.len()
                &&& forall|i: int| 0 <= i < text.len() ==> #[trigger] text[i] == whole[i]
                &&& forall|i: int|
                    text.len() <= i < whole.len() ==> #[trigger] whole[i] == '\r' || whole[i]
                        == '\n'
                &&& text.len() > 0 ==> text.last() != '\r' && text.last() != '\n'
            }
        }),
        path is Some && (forall|i: int| 0 <= i < path->0.len() ==> #[trigger] path->0[i] != '\\')
            ==> (match_in_fields(kind, path, line_number, line_text) matches Some(found)
            ==> found.file_path == path->0),
{
    reveal_strlit("match");
    assert("match"@ =~= seq!['m', 'a', 't', 'c', 'h']);
    let whole = match line_text {
        Some(text) => text,
        None => Seq::empty(),
    };
    let n = law_line_end_only_is_cut(whole);
    if path is Some && forall|i: int| 0 <= i < path->0.len() ==> #[trigger] path->0[i] != '\\' {
        assert(replaced(path->0, '\\', '/') =~= path->0);
    }
}

/// The match in a line of ripgrep's output is made of its type, the path, the
/// line number and the text that the JSON of the line has at their places.
pub proof fn law_match_is_read_from_its_places(line: Seq<char>)
    ensures
        match_in_line(line) is Some <==> json_text(line, "/type"@) == Some("match"@) && json_text(
            line,
            "/data/path/text"@,
        ) is Some && json_number(line, "/data/line_number"@) is Some,
        match_in_line(line) matches Some(found) ==> found.file_path.len() == json_text(
            line,
            "/data/path/text"@,
        )->0.len() && (forall|i: int|
            0 <= i < found.file_path.len() && json_text(line, "/data/path/text"@)->0[i] != '\\'
                ==> #[trigger] found.file_path[i] == json_text(line, "/data/path/text"@)->0[i]) && (
        json_number(line, "/data/line_number"@)->0 <= usize::MAX ==> found.found.line_number
            == json_number(line, "/data/line_number"@)->0) && (json_text(
            line,
            "/data/lines/text"@,
        ) matches Some(text) ==> found.found.line_text.is_prefix_of(text) && (forall|i: int|
            found.found.line_text.len() <= i < text.len() ==> #[trigger] text[i] == '\r' || text[i]
                == '\n')),
{
    law_match_is_what_the_line_says(
        json_text(line, "/type"@),
        json_text(line, "/data/path/text"@),
        json_number(line, "/data/line_number"@),
        json_text(line, "/data/lines/text"@),
    );
    reveal_strlit("match");
    assert("match"@ =~= seq!['m', 'a', 't', 'c', 'h']);
}

/// Every line of an output is looked at, in its place.
pub proof fn law_every_line_is_looked_at(lines: Seq<Seq<char>>)
    ensures
        frames_of(lines).len() == lines.len(),
        forall|i: int|
            0 <= i < lines.len() ==> #[trigger] frames_of(lines)[i] == match_in_line(lines[i]),
{
}

/// A match is kept unless its file has 30 already, or it is of a new file and
/// there are 100; what is kept of other files stays, and it comes last of its own.
pub proof fn law_match_is_kept_within_bounds(groups: Groups, found: RgMatchModel, other: Seq<char>)
    ensures
        ({
            let path = found.file_path;
            let new = !groups.dom().contains(path);
            let full = !new && groups[path].len() >= 30;
            &&& admission(groups, path) == Admission::FilesFull <==> new && groups.dom().len()
                >= 100
            &&& admission(groups, path) == Admission::FileFull <==> full
            &&& admission(groups, path) != Admission::Kept ==> admitted(groups, found) == groups
            &&& admission(groups, path) == Admission::Kept ==> matches_of(
                admitted(groups, found),
                path,
            ) == matches_of(groups, path).push(found.found)
            &&& other != path ==> matches_of(admitted(groups, found), other) == matches_of(
                groups,
                other,
            )
        }),
{
}

/// Where an output is of no more than 100 files, a search keeps of each file the
/// first matches that were reported of it, up to 30, in order, and every one of
/// them where there are no more.
pub proof fn law_first_matches_of_each_file_are_kept(
    frames: Seq<Option<RgMatchModel>>,
    groups: Groups,
    truncated: bool,
    files: Set<Seq<char>>,
    path: Seq<char>,
)
    requires
        within_bounds(groups),
        files.finite(),
        files.len() <= 100,
        groups.dom().subset_of(files),
        forall|i: int|
            0 <= i < frames.len() && (#[trigger] frames[i]) is Some ==> files.contains(
                frames[i]->0.file_path,
            ),
    ensures
        ({
            let all = matches_of(groups, path) + reported(frames, path);
            matches_of(gathered(frames, groups, truncated).0, path) == all.take(
                if all.len() < 30 {
                    all.len() as int
                } else {
                    30
                },
            )
        }),
    decreases frames.len(),
{
    let all = matches_of(groups, path) + reported(frames, path);
    if frames.len() == 0 {
        assert(all =~= matches_of(groups, path));
        assert(all.take(all.len() as int) =~= all);
    } else {
        let rest = frames.drop_first();
        assert forall|i: int| 0 <= i < rest.len() && (#[trigger] rest[i]) is Some implies files.contains(
            rest[i]->0.file_path,
        ) by {
            assert(frames[i + 1] is Some);
        }
        match frames[0] {
            None => law_first_matches_of_each_file_are_kept(rest, groups, truncated, files, path),
            Some(found) => {
                let of = found.file_path;
                assert(files.contains(of));
                if !groups.dom().contains(of) {
                    assert(groups.dom().subset_of(files.remove(of)));
                    vstd::set_lib::lemma_len_subset(groups.dom(), files.remove(of));
                }
                if admission(groups, of) == Admission::FileFull {
                    law_first_matches_of_each_file_are_kept(rest, groups, true, files, path);
                    if of == path {
                        let less = matches_of(groups, path) + reported(rest, path);
                        assert(less.take(30) =~= all.take(30));
                    }
                } else {
                    lemma_admitted_within_bounds(groups, found);
                    let next = admitted(groups, found);
                    law_first_matches_of_each_file_are_kept(rest, next, truncated, files, path);
                    if of == path {
                        assert(matches_of(next, path) + reported(rest, path) =~= all);
                    }
                }
            },
        }
    }
}

/// A reported match as a value has its file, its line and its text.
pub proof fn law_match_model_has_every_field(found: RgMatch)
    ensures
        found.deep_view().file_path == found.file_path@,
        found.deep_view().found.line_number == found.found.line_number,
        found.deep_view().found.line_text == found.found.line_text@,
{
}

} // verus!
