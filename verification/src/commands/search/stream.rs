//! Streaming content search: matches are kept as in a search in one go, and
//! published in batches.

use crate::commands::search::content::{
    admission, admitted, consider, gathered, law_truncated_search_misses_a_match, match_in_line,
    misses_a_match, no_matches, read_match, reported, Admission, RgMatch, RgMatchModel,
};
use crate::commands::search::failure::{stream_error, stream_failure, RgExit, SearchFailure};
use crate::commands::search::groups::{
    by_path, matches_of, sorted_by_path, total_matches, with_match, FileSearchMatch,
    FileSearchResult, Groups, MatchGroups, MatchModel,
};
use vstd::prelude::*;

verus! {

/// The number of pending matches at which a batch is published.
pub const CONTENT_BATCH_SIZE: usize = 25;

/// A batch of matches, published while the search runs.
#[derive(Debug, Clone)]
pub struct SearchContentBatchEvent {
    pub search_id: String,
    pub results: Vec<FileSearchResult>,
    pub truncated: bool,
}

/// The end of a content search.
#[derive(Debug, Clone)]
pub struct SearchContentDoneEvent {
    pub search_id: String,
    pub truncated: bool,
    pub scanned_files: usize,
    pub failed_files: usize,
    pub code: Option<String>,
    pub error: Option<String>,
}

impl SearchContentDoneEvent {
    /// Whether this event says just this.
    pub open spec fn says(
        self,
        search_id: Seq<char>,
        truncated: bool,
        failed_files: usize,
        code: Option<Seq<char>>,
        error: Option<Seq<char>>,
    ) -> bool {
        &&& self.search_id@ == search_id
        &&& self.truncated == truncated
        &&& self.scanned_files == 0
        &&& self.failed_files == failed_files
        &&& self.code.deep_view() == code
        &&& self.error.deep_view() == error
    }

    /// The end of a search with nothing to search for.
    pub fn nothing_to_do(search_id: String) -> (r: Self)
        ensures
            r.says(search_id@, false, 0, None, None),
    {
        SearchContentDoneEvent {
            search_id,
            truncated: false,
            scanned_files: 0,
            failed_files: 0,
            code: None,
            error: None,
        }
    }

    /// The end of a search that failed before any output was read. Only an
    /// output that could not be taken counts as a failed file.
    pub fn not_started(search_id: String, failure: &SearchFailure) -> (r: Self)
        ensures
            r.says(
                search_id@,
                false,
                if failure is CaptureFailed { 1 } else { 0 },
                Some(failure.code_text()),
                Some(failure.message_text()),
            ),
    {
        let failed_files: usize = match failure {
            SearchFailure::CaptureFailed => 1,
            _ => 0,
        };
        SearchContentDoneEvent {
            search_id,
            truncated: false,
            scanned_files: 0,
            failed_files,
            code: Some(failure.code()),
            error: Some(failure.message()),
        }
    }

    /// The end of a search whose output was read.
    pub fn finished(
        search_id: String,
        truncated: bool,
        read_error: Option<String>,
        exit: Option<RgExit>,
    ) -> (r: Self)
        ensures
            match stream_error(read_error.deep_view(), exit) {
                Some(text) => r.says(
                    search_id@,
                    truncated,
                    0,
                    Some("RG_STREAM_FAILED"@),
                    Some(text),
                ),
                None => r.says(search_id@, truncated, 0, None, None),
            },
    {
        let (code, error) = match stream_failure(read_error, exit) {
            Some(failure) => (Some(failure.code()), Some(failure.message())),
            None => (None, None),
        };
        SearchContentDoneEvent {
            search_id,
            truncated,
            scanned_files: 0,
            failed_files: 0,
            code,
            error,
        }
    }
}

/// A running search as a mathematical value: all matches kept, those of them
/// not published yet, how many those are, and whether any match was dropped.
pub struct StreamModel {
    pub kept: Groups,
    pub pending: Groups,
    pub pending_count: nat,
    pub truncated: bool,
}

/// What is to be done after a match.
pub enum StepModel {
    Continue,
    Stop,
    /// Publish these results, which are so many matches.
    Publish { results: Groups, count: nat, truncated: bool },
}

/// A search that has read nothing.
pub open spec fn fresh() -> StreamModel {
    StreamModel { kept: no_matches(), pending: no_matches(), pending_count: 0, truncated: false }
}

/// The search after one match, and what is to be done.
pub open spec fn after_match(s: StreamModel, found: RgMatchModel) -> (StreamModel, StepModel) {
    match admission(s.kept, found.file_path) {
        Admission::FilesFull => (StreamModel { truncated: true, ..s }, StepModel::Stop),
        Admission::FileFull => (StreamModel { truncated: true, ..s }, StepModel::Continue),
        Admission::Kept => {
            let kept = admitted(s.kept, found);
            let pending = with_match(s.pending, found.file_path, found.found);
            if s.pending_count + 1 >= CONTENT_BATCH_SIZE {
                (
                    StreamModel {
                        kept,
                        pending: no_matches(),
                        pending_count: 0,
                        truncated: s.truncated,
                    },
                    StepModel::Publish {
                        results: pending,
                        count: s.pending_count + 1,
                        truncated: s.truncated,
                    },
                )
            } else {
                (
                    StreamModel {
                        kept,
                        pending,
                        pending_count: s.pending_count + 1,
                        truncated: s.truncated,
                    },
                    StepModel::Continue,
                )
            }
        },
    }
}

/// The search after one line of output, and what is to be done.
pub open spec fn after_line(s: StreamModel, line: Option<RgMatchModel>) -> (
    StreamModel,
    StepModel,
) {
    match line {
        Some(found) => after_match(s, found),
        None => (s, StepModel::Continue),
    }
}

/// What the reader of the output does next.
#[derive(Debug, Clone)]
pub enum ContentStep {
    /// Read on.
    Continue,
    /// Stop reading: enough files have matches.
    Stop,
    /// Publish this batch and read on.
    Publish(SearchContentBatchEvent),
}

/// Whether `batch` publishes `results` of the search `search_id`, sorted by path,
/// which are `count` matches.
pub open spec fn publishes(
    batch: SearchContentBatchEvent,
    search_id: Seq<char>,
    results: Groups,
    count: nat,
    truncated: bool,
) -> bool {
    &&& batch.search_id@ == search_id
    &&& sorted_by_path(batch.results.deep_view())
    &&& by_path(batch.results.deep_view()) == results
    &&& total_matches(batch.results.deep_view()) == count
    &&& batch.truncated == truncated
}

/// Whether `step` does what `model` says, for the search `search_id`.
pub open spec fn does(step: ContentStep, search_id: Seq<char>, model: StepModel) -> bool {
    match model {
        StepModel::Continue => step is Continue,
        StepModel::Stop => step is Stop,
        StepModel::Publish { results, count, truncated } => step matches ContentStep::Publish(batch)
            && publishes(batch, search_id, results, count, truncated),
    }
}

/// A running content search.
pub struct ContentSearch {
    search_id: String,
    kept: MatchGroups,
    pending: MatchGroups,
    pending_count: usize,
    truncated: bool,
}

impl View for ContentSearch {
    type V = StreamModel;

    closed spec fn view(&self) -> StreamModel {
        StreamModel {
            kept: self.kept@,
            pending: self.pending@,
            pending_count: self.pending_count as nat,
            truncated: self.truncated,
        }
    }
}

impl ContentSearch {
    /// The search that this is.
    pub closed spec fn id(&self) -> Seq<char> {
        self.search_id@
    }

    /// Whether the matches are in order, the pending ones counted, and fewer
    /// than make a batch.
    pub closed spec fn well_formed(&self) -> bool {
        &&& self.kept.well_formed()
        &&& self.pending.well_formed()
        &&& self.pending_count == total_matches(self.pending.files())
        &&& self.pending_count < CONTENT_BATCH_SIZE
        &&& self.pending_count == 0 ==> self.pending@ == no_matches()
    }

    /// A search that has read nothing.
    pub fn new(search_id: String) -> (r: Self)
        ensures
            r.well_formed(),
            r.id() == search_id@,
            r@ == fresh(),
    {
        ContentSearch {
            search_id,
            kept: MatchGroups::new(),
            pending: MatchGroups::new(),
            pending_count: 0,
            truncated: false,
        }
    }

    /// Whether matches were dropped.
    pub fn is_truncated(&self) -> (r: bool)
        ensures
            r == self@.truncated,
    {
        self.truncated
    }

    /// The batch of all pending matches, which are pending no longer.
    fn take_pending(&mut self) -> (r: SearchContentBatchEvent)
        requires
            old(self).kept.well_formed(),
            old(self).pending.well_formed(),
            old(self).pending_count == total_matches(old(self).pending.files()),
        ensures
            final(self).well_formed(),
            final(self).id() == old(self).id(),
            final(self)@ == (StreamModel { pending: no_matches(), pending_count: 0, ..old(self)@ }),
            publishes(
                r,
                old(self).id(),
                old(self)@.pending,
                old(self)@.pending_count,
                old(self)@.truncated,
            ),
    {
        let mut pending = MatchGroups::new();
        std::mem::swap(&mut pending, &mut self.pending);
        self.pending_count = 0;
        SearchContentBatchEvent {
            search_id: self.search_id.clone(),
            results: pending.into_results(),
            truncated: self.truncated,
        }
    }

    /// Considers one match.
    pub fn accept(&mut self, found: &RgMatch) -> (r: ContentStep)
        requires
            old(self).well_formed(),
        ensures
            final(self).well_formed(),
            final(self).id() == old(self).id(),
            final(self)@ == after_match(old(self)@, found.deep_view()).0,
            does(r, old(self).id(), after_match(old(self)@, found.deep_view()).1),
            r matches ContentStep::Publish(batch) ==> total_matches(batch.results.deep_view())
                == CONTENT_BATCH_SIZE,
    {
        match consider(&mut self.kept, found) {
            Admission::FilesFull => {
                self.truncated = true;
                ContentStep::Stop
            },
            Admission::FileFull => {
                self.truncated = true;
                ContentStep::Continue
            },
            Admission::Kept => {
                let copy = FileSearchMatch {
                    line_number: found.found.line_number,
                    line_text: found.found.line_text.clone(),
                };
                self.pending.push(&found.file_path, copy);
                self.pending_count += 1;
                if self.pending_count >= CONTENT_BATCH_SIZE {
                    ContentStep::Publish(self.take_pending())
                } else {
                    ContentStep::Continue
                }
            },
        }
    }

    /// Considers one line of ripgrep's output.
    pub fn line(&mut self, line: &str) -> (r: ContentStep)
        requires
            old(self).well_formed(),
        ensures
            final(self).well_formed(),
            final(self).id() == old(self).id(),
            final(self)@ == after_line(old(self)@, match_in_line(line@)).0,
            does(r, old(self).id(), after_line(old(self)@, match_in_line(line@)).1),
            r matches ContentStep::Publish(batch) ==> total_matches(batch.results.deep_view())
                == CONTENT_BATCH_SIZE,
    {
        match read_match(line) {
            Some(found) => self.accept(&found),
            None => ContentStep::Continue,
        }
    }

    /// The batch of what is still pending when the output ends, if anything is.
    pub fn flush(&mut self) -> (r: Option<SearchContentBatchEvent>)
        requires
            old(self).well_formed(),
        ensures
            final(self).well_formed(),
            final(self).id() == old(self).id(),
            final(self)@ == (StreamModel { pending: no_matches(), pending_count: 0, ..old(self)@ }),
            r is None <==> old(self)@.pending == no_matches(),
            r is None <==> old(self)@.pending_count == 0,
            r matches Some(batch) ==> publishes(
                batch,
                old(self).id(),
                old(self)@.pending,
                old(self)@.pending_count,
                old(self)@.truncated,
            ),
            r matches Some(batch) ==> 0 < total_matches(batch.results.deep_view())
                < CONTENT_BATCH_SIZE,
    {
        let n: usize = self.pending.len();
        if n == 0 {
            proof {
                assert(self.pending.files() =~= Seq::empty());
                assert(self.pending@ =~= no_matches());
            }
            None
        } else {
            Some(self.take_pending())
        }
    }

    /// The end of the search. `read_error` is why reading stopped early, `exit`
    /// what waiting for ripgrep gave.
    pub fn finish(self, read_error: Option<String>, exit: Option<RgExit>) -> (r:
        SearchContentDoneEvent)
        ensures
            match stream_error(read_error.deep_view(), exit) {
                Some(text) => r.says(
                    self.id(),
                    self@.truncated,
                    0,
                    Some("RG_STREAM_FAILED"@),
                    Some(text),
                ),
                None => r.says(self.id(), self@.truncated, 0, None, None),
            },
    {
        SearchContentDoneEvent::finished(self.search_id, self.truncated, read_error, exit)
    }
}

// ==================== Laws ====================

/// Every batch that is published on the way holds as many matches as make a
/// batch, and fewer are pending after each line.
pub proof fn law_batches_are_bounded(s: StreamModel, line: Option<RgMatchModel>)
    requires
        s.pending_count < CONTENT_BATCH_SIZE,
    ensures
        after_line(s, line).0.pending_count < CONTENT_BATCH_SIZE,
        after_line(s, line).1 matches StepModel::Publish { count, .. } ==> count
            == CONTENT_BATCH_SIZE,
{
}

/// What a step publishes of a file.
pub open spec fn published(step: StepModel, path: Seq<char>) -> Seq<MatchModel> {
    match step {
        StepModel::Publish { results, .. } => matches_of(results, path),
        _ => Seq::empty(),
    }
}

/// Every kept match is published once or pending: where what was kept of a file
/// is what was published of it, `before`, and what is pending, it is so again
/// after the next line.
pub proof fn law_no_match_is_lost_or_repeated(
    s: StreamModel,
    line: Option<RgMatchModel>,
    path: Seq<char>,
    before: Seq<MatchModel>,
)
    requires
        matches_of(s.kept, path) == before + matches_of(s.pending, path),
    ensures
        ({
            let (next, step) = after_line(s, line);
            matches_of(next.kept, path) == before + published(step, path) + matches_of(
                next.pending,
                path,
            )
        }),
{
    let (next, step) = after_line(s, line);
    let empty = Seq::<MatchModel>::empty();
    assert(matches_of(no_matches(), path) == empty);
    assert(before + empty == before);
    match line {
        Some(found) => {
            if admission(s.kept, found.file_path) == Admission::Kept {
                let grown = with_match(s.pending, found.file_path, found.found);
                if found.file_path == path {
                    assert((before + matches_of(s.pending, path)).push(found.found) == before
                        + matches_of(s.pending, path).push(found.found));
                }
                assert(matches_of(next.kept, path) == before + matches_of(grown, path));
                assert(before + matches_of(grown, path) + empty == before + matches_of(grown, path));
            }
        },
        None => {},
    }
}

/// The search after a whole output, stopping where a step says so.
pub open spec fn after_lines(s: StreamModel, frames: Seq<Option<RgMatchModel>>) -> StreamModel
    decreases frames.len(),
{
    if frames.len() == 0 {
        s
    } else {
        let (next, step) = after_line(s, frames[0]);
        if step is Stop {
            next
        } else {
            after_lines(next, frames.drop_first())
        }
    }
}

/// Streaming keeps the matches that a search in one go keeps of the same
/// output, and reports the same truncation.
pub proof fn law_streaming_agrees_with_one_go(s: StreamModel, frames: Seq<Option<RgMatchModel>>)
    ensures
        gathered(frames, s.kept, s.truncated) == (
            after_lines(s, frames).kept,
            after_lines(s, frames).truncated,
        ),
    decreases frames.len(),
{
    if frames.len() > 0 {
        let (next, step) = after_line(s, frames[0]);
        law_streaming_agrees_with_one_go(next, frames.drop_first());
    }
}

/// What is published of a file over a whole output, the last flush included.
pub open spec fn streamed(
    s: StreamModel,
    frames: Seq<Option<RgMatchModel>>,
    path: Seq<char>,
) -> Seq<MatchModel>
    decreases frames.len(),
{
    if frames.len() == 0 {
        matches_of(s.pending, path)
    } else {
        let (next, step) = after_line(s, frames[0]);
        published(step, path) + if step is Stop {
            matches_of(next.pending, path)
        } else {
            streamed(next, frames.drop_first(), path)
        }
    }
}

/// What is published of a file completes what was published before to what is
/// kept of it.
proof fn lemma_streamed_completes(
    s: StreamModel,
    frames: Seq<Option<RgMatchModel>>,
    path: Seq<char>,
    before: Seq<MatchModel>,
)
    requires
        matches_of(s.kept, path) == before + matches_of(s.pending, path),
    ensures
        before + streamed(s, frames, path) == matches_of(after_lines(s, frames).kept, path),
    decreases frames.len(),
{
    if frames.len() > 0 {
        let (next, step) = after_line(s, frames[0]);
        law_no_match_is_lost_or_repeated(s, frames[0], path, before);
        let now = before + published(step, path);
        if step is Stop {
            assert(before + (published(step, path) + matches_of(next.pending, path)) == now
                + matches_of(next.pending, path));
        } else {
            let rest = frames.drop_first();
            lemma_streamed_completes(next, rest, path, now);
            assert(before + (published(step, path) + streamed(next, rest, path)) == now + streamed(
                next,
                rest,
                path,
            ));
        }
    }
}

/// The batches of a search, the last flush included, add up to the results of
/// a search in one go: of each file they hold the same matches in the same order.
pub proof fn law_batches_add_up(frames: Seq<Option<RgMatchModel>>, path: Seq<char>)
    ensures
        streamed(fresh(), frames, path) == matches_of(
            gathered(frames, no_matches(), false).0,
            path,
        ),
{
    let empty = Seq::<MatchModel>::empty();
    assert(matches_of(fresh().kept, path) == empty + matches_of(fresh().pending, path));
    lemma_streamed_completes(fresh(), frames, path, empty);
    law_streaming_agrees_with_one_go(fresh(), frames);
    assert(empty + streamed(fresh(), frames, path) == streamed(fresh(), frames, path));
}

/// A streaming search says that it is truncated just where a reported match is
/// missing from what it publishes.
pub proof fn law_truncated_stream_misses_a_match(frames: Seq<Option<RgMatchModel>>)
    ensures
        after_lines(fresh(), frames).truncated <==> exists|path: Seq<char>|
            (#[trigger] streamed(fresh(), frames, path)).len() < reported(frames, path).len(),
{
    law_streaming_agrees_with_one_go(fresh(), frames);
    law_truncated_search_misses_a_match(frames, no_matches());
    assert forall|path: Seq<char>|
        (#[trigger] streamed(fresh(), frames, path)).len() < reported(frames, path).len()
            <==> misses_a_match(frames, no_matches(), path) by {
        law_batches_add_up(frames, path);
    }
    if after_lines(fresh(), frames).truncated {
        let path = choose|path: Seq<char>| #[trigger]
            misses_a_match(frames, no_matches(), path);
        assert(streamed(fresh(), frames, path).len() < reported(frames, path).len());
    }
}

/// A match that is kept comes last among those of its file, kept and pending, and
/// the pending ones are published, all of them, when there are 25. A match of a
/// file with 30 is dropped, and one of a new file beside 100 ends the search; both
/// cut the results short.
pub proof fn law_match_is_kept_and_published(s: StreamModel, found: RgMatchModel)
    ensures
        ({
            let (next, step) = after_match(s, found);
            let path = found.file_path;
            let new = !s.kept.dom().contains(path);
            let over = new && s.kept.dom().len() >= 100;
            let full = !new && s.kept[path].len() >= 30;
            let grown = with_match(s.pending, path, found.found);
            &&& over ==> step is Stop && next.truncated && next.kept == s.kept && next.pending
                == s.pending
            &&& full ==> step is Continue && next.truncated && next.kept == s.kept
                && next.pending == s.pending
            &&& !over && !full ==> next.truncated == s.truncated && matches_of(next.kept, path)
                == matches_of(s.kept, path).push(found.found)
            &&& !over && !full && s.pending_count + 1 < 25 ==> step is Continue && next.pending
                == grown && next.pending_count == s.pending_count + 1
            &&& !over && !full && s.pending_count + 1 >= 25 ==> step == (StepModel::Publish {
                results: grown,
                count: s.pending_count + 1,
                truncated: s.truncated,
            }) && next.pending == no_matches() && next.pending_count == 0
        }),
        after_line(s, Some(found)) == after_match(s, found),
        after_line(s, None).0 == s,
        after_line(s, None).1 is Continue,
        fresh().kept == no_matches(),
        fresh().pending == no_matches(),
        fresh().pending_count == 0,
        !fresh().truncated,
{
}

/// A batch has the files in order, just these matches of each, as many as were
/// counted, and says for which search it is and whether matches were dropped; a
/// step publishes such a batch, or none.
pub proof fn law_batch_has_every_match(
    batch: SearchContentBatchEvent,
    step: ContentStep,
    search_id: Seq<char>,
    results: Groups,
    count: nat,
    truncated: bool,
    path: Seq<char>,
)
    ensures
        publishes(batch, search_id, results, count, truncated) ==> batch.search_id@ == search_id
            && batch.truncated == truncated && sorted_by_path(batch.results.deep_view())
            && matches_of(by_path(batch.results.deep_view()), path) == matches_of(results, path)
            && total_matches(batch.results.deep_view()) == count,
        does(step, search_id, StepModel::Continue) ==> step is Continue,
        does(step, search_id, StepModel::Stop) ==> step is Stop,
        does(step, search_id, StepModel::Publish { results, count, truncated }) ==> (
        step matches ContentStep::Publish(sent) && sent.search_id@ == search_id && sent.truncated
            == truncated && by_path(sent.results.deep_view()) == results && total_matches(
            sent.results.deep_view(),
        ) == count),
{
}

/// The end of a search says for which search it is, whether matches were dropped,
/// how many files failed, and the error where there is one.
pub proof fn law_end_says_all(
    event: SearchContentDoneEvent,
    search_id: Seq<char>,
    truncated: bool,
    failed_files: usize,
    code: Option<Seq<char>>,
    error: Option<Seq<char>>,
)
    ensures
        event.says(search_id, truncated, failed_files, code, error) <==> event.search_id@
            == search_id && event.truncated == truncated && event.scanned_files == 0
            && event.failed_files == failed_files && event.code.deep_view() == code
            && event.error.deep_view() == error,
{
}

impl ContentSearch {
    /// A search as a value has the matches that are kept and those that are
    /// pending.
    proof fn law_search_model_has_every_match(self)
        ensures
            self@.kept == self.kept@,
            self@.pending == self.pending@,
            self@.pending_count == self.pending_count,
            self@.truncated == self.truncated,
            self.id() == self.search_id@,
    {
    }
}

} // verus!
