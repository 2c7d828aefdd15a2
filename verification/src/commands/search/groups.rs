//! Matches grouped by file, in the order of the file paths.

use crate::text::{
    comes_before, lemma_text_less_irreflexive, lemma_text_less_total, lemma_text_less_transitive,
    same_text, text_less,
};
use vstd::prelude::*;

verus! {

/// The number of files with matches that a search keeps.
pub const MAX_FILES_WITH_MATCHES: usize = 100;

/// The number of matches that a search keeps of one file.
pub const MAX_MATCHES_PER_FILE: usize = 30;

/// One matching line of a file.
#[derive(Debug, Clone)]
pub struct FileSearchMatch {
    pub line_number: usize,
    pub line_text: String,
}

/// The matching lines of one file.
#[derive(Debug, Clone)]
pub struct FileSearchResult {
    pub file_path: String,
    pub matches: Vec<FileSearchMatch>,
}

/// A matching line as a mathematical value.
pub struct MatchModel {
    pub line_number: usize,
    pub line_text: Seq<char>,
}

/// The matching lines of one file as a mathematical value.
pub struct ResultModel {
    pub file_path: Seq<char>,
    pub matches: Seq<MatchModel>,
}

impl DeepView for FileSearchMatch {
    type V = MatchModel;

    open spec fn deep_view(&self) -> MatchModel {
        MatchModel { line_number: self.line_number, line_text: self.line_text@ }
    }
}

impl DeepView for FileSearchResult {
    type V = ResultModel;

    open spec fn deep_view(&self) -> ResultModel {
        ResultModel { file_path: self.file_path@, matches: self.matches.deep_view() }
    }
}

/// The matches by file: from the path of a file to its matching lines.
pub type Groups = Map<Seq<char>, Seq<MatchModel>>;

/// Whether the paths of `results` increase strictly.
pub open spec fn sorted_by_path(results: Seq<ResultModel>) -> bool {
    forall|i: int, j: int|
        0 <= i < j < results.len() ==> text_less(
            #[trigger] results[i].file_path,
            #[trigger] results[j].file_path,
        )
}

/// Whether `path` is the path of one of `results`.
pub open spec fn has_path(results: Seq<ResultModel>, path: Seq<char>) -> bool {
    exists|i: int| 0 <= i < results.len() && #[trigger] results[i].file_path == path
}

/// Where `path` stands in `results`.
pub open spec fn path_index(results: Seq<ResultModel>, path: Seq<char>) -> int {
    choose|i: int| 0 <= i < results.len() && #[trigger] results[i].file_path == path
}

/// `results` as a map from path to matches.
pub open spec fn by_path(results: Seq<ResultModel>) -> Groups {
    Map::new(
        |path: Seq<char>| has_path(results, path),
        |path: Seq<char>| results[path_index(results, path)].matches,
    )
}

/// The matches that `groups` holds of `path`; none where it does not know the file.
pub open spec fn matches_of(groups: Groups, path: Seq<char>) -> Seq<MatchModel> {
    if groups.dom().contains(path) {
        groups[path]
    } else {
        Seq::empty()
    }
}

/// `groups` with one more match of `path`.
pub open spec fn with_match(groups: Groups, path: Seq<char>, found: MatchModel) -> Groups {
    groups.insert(path, matches_of(groups, path).push(found))
}

/// The number of matches in `results`.
pub open spec fn total_matches(results: Seq<ResultModel>) -> nat
    decreases results.len(),
{
    if results.len() == 0 {
        0
    } else {
        total_matches(results.drop_last()) + results.last().matches.len()
    }
}

/// In sorted results a path stands in one place only.
pub proof fn lemma_path_is_unique(results: Seq<ResultModel>, i: int)
    requires
        sorted_by_path(results),
        0 <= i < results.len(),
    ensures
        path_index(results, results[i].file_path) == i,
        by_path(results).dom().contains(results[i].file_path),
        by_path(results)[results[i].file_path] == results[i].matches,
{
    let path = results[i].file_path;
    let k = path_index(results, path);
    assert(has_path(results, path));
    lemma_text_less_irreflexive(path);
    if k < i {
        assert(text_less(results[k].file_path, results[i].file_path));
    } else if i < k {
        assert(text_less(results[i].file_path, results[k].file_path));
    }
}

/// Sorted results hold as many files as their map has paths.
pub proof fn lemma_file_count(results: Seq<ResultModel>)
    requires
        sorted_by_path(results),
    ensures
        by_path(results).dom().finite(),
        by_path(results).dom().len() == results.len(),
    decreases results.len(),
{
    let dom = by_path(results).dom();
    if results.len() == 0 {
        assert(dom == Set::<Seq<char>>::empty());
    } else {
        let front = results.drop_last();
        let last = results.last().file_path;
        lemma_file_count(front);
        lemma_text_less_irreflexive(last);
        assert(!by_path(front).dom().contains(last)) by {
            if has_path(front, last) {
                let i = path_index(front, last);
                assert(front[i] == results[i]);
                assert(text_less(results[i].file_path, results[results.len() - 1].file_path));
            }
        }
        assert(dom =~= by_path(front).dom().insert(last)) by {
            assert forall|p: Seq<char>| dom.contains(p) implies by_path(front).dom().insert(
                last,
            ).contains(p) by {
                let i = path_index(results, p);
                if i < front.len() {
                    assert(front[i].file_path == p);
                }
            }
            assert forall|p: Seq<char>| by_path(front).dom().insert(last).contains(
                p,
            ) implies dom.contains(p) by {
                if p == last {
                    assert(results[results.len() - 1].file_path == p);
                } else {
                    let i = path_index(front, p);
                    assert(results[i].file_path == p);
                }
            }
        }
    }
}

/// Changing the matches of the file at `i`.
proof fn lemma_update_matches(results: Seq<ResultModel>, i: int, matches: Seq<MatchModel>)
    requires
        sorted_by_path(results),
        0 <= i < results.len(),
    ensures
        ({
            let path = results[i].file_path;
            let changed = results.update(i, ResultModel { file_path: path, matches });
            &&& sorted_by_path(changed)
            &&& by_path(changed) == by_path(results).insert(path, matches)
        }),
{
    let path = results[i].file_path;
    let changed = results.update(i, ResultModel { file_path: path, matches });
    assert forall|k: int| 0 <= k < results.len() implies #[trigger] changed[k].file_path
        == results[k].file_path by {}
    assert(sorted_by_path(changed));
    let target = by_path(results).insert(path, matches);
    assert forall|p: Seq<char>| by_path(changed).dom().contains(p) == target.dom().contains(p) by {
        if has_path(changed, p) {
            let k = path_index(changed, p);
            assert(results[k].file_path == p);
        }
        if has_path(results, p) {
            let k = path_index(results, p);
            assert(changed[k].file_path == p);
        }
        if p == path {
            assert(changed[i].file_path == p);
        }
    }
    assert forall|p: Seq<char>| by_path(changed).dom().contains(p) implies by_path(changed)[p]
        == target[p] by {
        let k = path_index(changed, p);
        lemma_path_is_unique(changed, k);
        assert(results[k].file_path == p);
        lemma_path_is_unique(results, k);
        lemma_path_is_unique(results, i);
    }
    assert(by_path(changed) =~= target);
}

/// Inserting a new file where the order wants it.
proof fn lemma_insert_file(
    results: Seq<ResultModel>,
    i: int,
    path: Seq<char>,
    matches: Seq<MatchModel>,
)
    requires
        sorted_by_path(results),
        0 <= i <= results.len(),
        forall|k: int| 0 <= k < i ==> text_less(#[trigger] results[k].file_path, path),
        forall|k: int| i <= k < results.len() ==> text_less(path, #[trigger] results[k].file_path),
    ensures
        ({
            let changed = results.insert(i, ResultModel { file_path: path, matches });
            &&& sorted_by_path(changed)
            &&& by_path(changed) == by_path(results).insert(path, matches)
            &&& !by_path(results).dom().contains(path)
        }),
{
    let changed = results.insert(i, ResultModel { file_path: path, matches });
    assert forall|a: int, b: int| 0 <= a < b < changed.len() implies text_less(
        #[trigger] changed[a].file_path,
        #[trigger] changed[b].file_path,
    ) by {
        let a0 = if a < i { a } else { a - 1 };
        let b0 = if b < i { b } else { b - 1 };
        if a != i {
            assert(changed[a] == results[a0]);
        }
        if b != i {
            assert(changed[b] == results[b0]);
        }
    }
    assert(sorted_by_path(changed));
    lemma_text_less_irreflexive(path);
    assert(!has_path(results, path)) by {
        if has_path(results, path) {
            let k = path_index(results, path);
            assert(results[k].file_path == path);
        }
    }
    let target = by_path(results).insert(path, matches);
    assert forall|p: Seq<char>| by_path(changed).dom().contains(p) == target.dom().contains(p) by {
        if has_path(changed, p) {
            let k = path_index(changed, p);
            if k < i {
                assert(results[k].file_path == p);
            } else if k > i {
                assert(results[k - 1].file_path == p);
            }
        }
        if has_path(results, p) {
            let k = path_index(results, p);
            if k < i {
                assert(changed[k].file_path == p);
            } else {
                assert(changed[k + 1].file_path == p);
            }
        }
        if p == path {
            assert(changed[i].file_path == p);
        }
    }
    assert forall|p: Seq<char>| by_path(changed).dom().contains(p) implies by_path(changed)[p]
        == target[p] by {
        let k = path_index(changed, p);
        lemma_path_is_unique(changed, k);
        if k < i {
            assert(results[k].file_path == p);
            lemma_path_is_unique(results, k);
        } else if k > i {
            assert(results[k - 1].file_path == p);
            lemma_path_is_unique(results, k - 1);
        }
    }
    assert(by_path(changed) =~= target);
}

/// The number of matches after a change at `i`.
proof fn lemma_total_after_update(results: Seq<ResultModel>, i: int, with: ResultModel)
    requires
        0 <= i < results.len(),
    ensures
        total_matches(results.update(i, with)) + results[i].matches.len() == total_matches(results)
            + with.matches.len(),
    decreases results.len(),
{
    let changed = results.update(i, with);
    if i == results.len() - 1 {
        assert(changed.drop_last() == results.drop_last());
    } else {
        lemma_total_after_update(results.drop_last(), i, with);
        assert(changed.drop_last() == results.drop_last().update(i, with));
    }
}

/// The number of matches after an insertion at `i`.
proof fn lemma_total_after_insert(results: Seq<ResultModel>, i: int, new: ResultModel)
    requires
        0 <= i <= results.len(),
    ensures
        total_matches(results.insert(i, new)) == total_matches(results) + new.matches.len(),
    decreases results.len(),
{
    let changed = results.insert(i, new);
    if i == results.len() {
        assert(changed.drop_last() == results);
    } else {
        lemma_total_after_insert(results.drop_last(), i, new);
        assert(changed.drop_last() == results.drop_last().insert(i, new));
        assert(changed.last() == results.last());
    }
}

/// Matches grouped by file, in the order of the paths.
pub struct MatchGroups {
    entries: Vec<FileSearchResult>,
}

impl View for MatchGroups {
    type V = Groups;

    closed spec fn view(&self) -> Groups {
        by_path(self.entries.deep_view())
    }
}

impl MatchGroups {
    /// The files in their order.
    pub closed spec fn files(&self) -> Seq<ResultModel> {
        self.entries.deep_view()
    }

    /// Whether the files are in order, each once.
    pub open spec fn well_formed(&self) -> bool {
        sorted_by_path(self.files()) && self@ == by_path(self.files())
    }

    /// No files.
    pub fn new() -> (r: Self)
        ensures
            r.well_formed(),
            r@ == Map::<Seq<char>, Seq<MatchModel>>::empty(),
            r.files() == Seq::<ResultModel>::empty(),
    {
        let r = MatchGroups { entries: Vec::new() };
        assert(r.files() =~= Seq::<ResultModel>::empty());
        assert(r@ =~= Map::<Seq<char>, Seq<MatchModel>>::empty());
        r
    }

    /// The number of files.
    pub fn len(&self) -> (n: usize)
        requires
            self.well_formed(),
        ensures
            n == self@.dom().len(),
            n == self.files().len(),
    {
        proof {
            lemma_file_count(self.files());
        }
        self.entries.len()
    }

    /// Where `path` stands or would be inserted, and whether it is there.
    fn place(&self, path: &str) -> (r: (usize, bool))
        requires
            self.well_formed(),
        ensures
            r.0 <= self.entries.len(),
            r.1 == self@.dom().contains(path@),
            r.1 ==> r.0 < self.entries.len() && self.files()[r.0 as int].file_path == path@,
            !r.1 ==> {
                &&& forall|k: int|
                    0 <= k < r.0 ==> text_less(#[trigger] self.files()[k].file_path, path@)
                &&& forall|k: int|
                    r.0 <= k < self.files().len() ==> text_less(
                        path@,
                        #[trigger] self.files()[k].file_path,
                    )
            },
    {
        let ghost files = self.files();
        let mut i: usize = 0;
        while i < self.entries.len() && comes_before(&self.entries[i].file_path, path)
            invariant
                i <= self.entries.len(),
                files == self.files(),
                files.len() == self.entries.len(),
                forall|k: int| 0 <= k < i ==> text_less(#[trigger] files[k].file_path, path@),
            decreases self.entries.len() - i,
        {
            assert(files[i as int].file_path == self.entries@[i as int].file_path@);
            i += 1;
        }
        if i < self.entries.len() && same_text(&self.entries[i].file_path, path) {
            assert(files[i as int].file_path == path@);
            (i, true)
        } else {
            proof {
                if i < files.len() {
                    assert(files[i as int].file_path == self.entries@[i as int].file_path@);
                    lemma_text_less_total(files[i as int].file_path, path@);
                }
                assert forall|k: int| i <= k < files.len() implies text_less(
                    path@,
                    #[trigger] files[k].file_path,
                ) by {
                    if k > i {
                        lemma_text_less_transitive(
                            path@,
                            files[i as int].file_path,
                            files[k].file_path,
                        );
                    }
                }
                lemma_insert_file(files, i as int, path@, Seq::empty());
            }
            (i, false)
        }
    }

    /// Whether there are matches of `path`, or an empty place for them.
    pub fn has(&self, path: &str) -> (r: bool)
        requires
            self.well_formed(),
        ensures
            r == self@.dom().contains(path@),
    {
        self.place(path).1
    }

    /// The number of matches of `path`.
    pub fn count(&self, path: &str) -> (n: usize)
        requires
            self.well_formed(),
        ensures
            n == matches_of(self@, path@).len(),
    {
        let (i, there) = self.place(path);
        if there {
            proof {
                lemma_path_is_unique(self.files(), i as int);
            }
            assert(self.files()[i as int].matches == self.entries@[i as int].matches.deep_view());
            self.entries[i].matches.len()
        } else {
            0
        }
    }

    /// Adds one match of `path`.
    pub fn push(&mut self, path: &str, found: FileSearchMatch)
        requires
            old(self).well_formed(),
        ensures
            final(self).well_formed(),
            final(self)@ == with_match(old(self)@, path@, found.deep_view()),
            total_matches(final(self).files()) == total_matches(old(self).files()) + 1,
    {
        let ghost files = self.files();
        let ghost model = found.deep_view();
        let (i, there) = self.place(path);
        if there {
            let ghost grown = files[i as int].matches.push(model);
            proof {
                lemma_path_is_unique(files, i as int);
                lemma_update_matches(files, i as int, grown);
                lemma_total_after_update(
                    files,
                    i as int,
                    ResultModel { file_path: path@, matches: grown },
                );
            }
            self.entries[i].matches.push(found);
            assert(self.entries@[i as int].matches.deep_view() =~= grown);
            assert(self.files() =~= files.update(
                i as int,
                ResultModel { file_path: path@, matches: grown },
            ));
        } else {
            let ghost grown = Seq::<MatchModel>::empty().push(model);
            proof {
                lemma_insert_file(files, i as int, path@, grown);
                lemma_total_after_insert(
                    files,
                    i as int,
                    ResultModel { file_path: path@, matches: grown },
                );
            }
            let mut matches: Vec<FileSearchMatch> = Vec::new();
            matches.push(found);
            assert(matches.deep_view() =~= grown);
            self.entries.insert(i, FileSearchResult { file_path: path.to_string(), matches });
            assert(self.files() =~= files.insert(
                i as int,
                ResultModel { file_path: path@, matches: grown },
            ));
        }
    }

    /// The files with their matches, in order.
    pub fn into_results(self) -> (r: Vec<FileSearchResult>)
        ensures
            r.deep_view() == self.files(),
    {
        self.entries
    }
}

// ==================== Laws ====================

/// Results as a map have the path of every result and no other, each with its
/// own matches.
pub proof fn law_results_are_found_by_path(results: Seq<ResultModel>, path: Seq<char>)
    requires
        sorted_by_path(results),
    ensures
        by_path(results).dom().contains(path) <==> exists|i: int|
            0 <= i < results.len() && #[trigger] results[i].file_path == path,
        forall|i: int|
            0 <= i < results.len() && #[trigger] results[i].file_path == path ==> matches_of(
                by_path(results),
                path,
            ) == results[i].matches,
{
    assert forall|i: int| 0 <= i < results.len() && #[trigger] results[i].file_path == path implies matches_of(
        by_path(results),
        path,
    ) == results[i].matches by {
        lemma_path_is_unique(results, i);
    }
}

/// Sorted results have no path twice, and the path of each comes before those of
/// all that follow.
pub proof fn law_sorted_results_are_in_order(results: Seq<ResultModel>, i: int, j: int)
    requires
        sorted_by_path(results),
        0 <= i < j < results.len(),
    ensures
        text_less(results[i].file_path, results[j].file_path),
        results[i].file_path != results[j].file_path,
{
    lemma_text_less_irreflexive(results[i].file_path);
}

/// One more match comes last among those of its file, and changes no other file.
pub proof fn law_match_is_added_to_its_file(
    groups: Groups,
    path: Seq<char>,
    found: MatchModel,
    other: Seq<char>,
)
    ensures
        with_match(groups, path, found).dom() == groups.dom().insert(path),
        matches_of(with_match(groups, path, found), path).len() == matches_of(groups, path).len()
            + 1,
        matches_of(with_match(groups, path, found), path).last() == found,
        matches_of(with_match(groups, path, found), path).drop_last() == matches_of(groups, path),
        other != path ==> matches_of(with_match(groups, path, found), other) == matches_of(
            groups,
            other,
        ),
        !groups.dom().contains(other) ==> matches_of(groups, other).len() == 0,
        groups.dom().contains(other) ==> matches_of(groups, other) == groups[other],
{
    assert(with_match(groups, path, found).dom() =~= groups.dom().insert(path));
    assert(matches_of(with_match(groups, path, found), path).drop_last() =~= matches_of(
        groups,
        path,
    ));
}

/// The matches of some files are those of each file, counted together.
pub proof fn law_matches_are_counted_by_file(results: Seq<ResultModel>, last: ResultModel)
    ensures
        total_matches(Seq::empty()) == 0,
        total_matches(results.push(last)) == total_matches(results) + last.matches.len(),
{
    assert(results.push(last).drop_last() =~= results);
}

/// The results of a file as a value have its path and every match, in order.
pub proof fn law_result_model_has_every_match(result: FileSearchResult, found: FileSearchMatch)
    ensures
        found.deep_view().line_number == found.line_number,
        found.deep_view().line_text == found.line_text@,
        result.deep_view().file_path == result.file_path@,
        result.deep_view().matches.len() == result.matches@.len(),
        forall|i: int|
            0 <= i < result.matches@.len() ==> #[trigger] result.deep_view().matches[i]
                == result.matches@[i].deep_view(),
{
}

impl MatchGroups {
    /// The files as values are all of them, in order, each with its matches.
    proof fn law_model_has_every_file(self)
        ensures
            self.files().len() == self.entries@.len(),
            forall|i: int|
                0 <= i < self.entries@.len() ==> #[trigger] self.files()[i]
                    == self.entries@[i].deep_view(),
            self@ == by_path(self.files()),
    {
    }
}

} // verus!
