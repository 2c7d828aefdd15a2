//! Streaming file name search: the list of files grows and is published whole,
//! each time it has grown by a batch, and at the end where it has grown since or
//! is cut short.

use crate::commands::search::failure::{stream_error, stream_failure, RgExit, SearchFailure};
use crate::paths::{strip_verbatim_prefix, without_verbatim_prefix};
use crate::text::{copy_list, replace_char, replaced};
use vstd::prelude::*;

verus! {

/// The number of files that a search lists.
pub const MAX_FILE_NAMES: usize = 100;

/// The number of new files after which the list is published.
pub const FILE_NAME_BATCH_SIZE: usize = 25;

/// The list of files so far.
#[derive(Debug, Clone)]
pub struct SearchFileNamesBatchEvent {
    pub search_id: String,
    pub files: Vec<String>,
    /// Whether the list was cut short; not known while the search runs.
    pub truncated: Option<bool>,
}

/// The end of a file name search.
#[derive(Debug, Clone)]
pub struct SearchFileNamesDoneEvent {
    pub search_id: String,
    pub truncated: bool,
    pub total_files: usize,
    /// The code to branch on, where there is an error.
    pub code: Option<String>,
    pub error: Option<String>,
}

impl SearchFileNamesDoneEvent {
    /// Whether this event says just this.
    pub open spec fn says(
        self,
        search_id: Seq<char>,
        truncated: bool,
        total_files: nat,
        code: Option<Seq<char>>,
        error: Option<Seq<char>>,
    ) -> bool {
        &&& self.search_id@ == search_id
        &&& self.truncated == truncated
        &&& self.total_files == total_files
        &&& self.code.deep_view() == code
        &&& self.error.deep_view() == error
    }

    /// The end of a search with nothing to search for.
    pub fn nothing_to_do(search_id: String) -> (r: Self)
        ensures
            r.says(search_id@, false, 0, None, None),
    {
        SearchFileNamesDoneEvent {
            search_id,
            truncated: false,
            total_files: 0,
            code: None,
            error: None,
        }
    }

    /// The end of a search that failed before any output was read.
    pub fn not_started(search_id: String, failure: &SearchFailure) -> (r: Self)
        ensures
            r.says(
                search_id@,
                false,
                0,
                Some(failure.code_text()),
                Some(failure.message_text()),
            ),
    {
        SearchFileNamesDoneEvent {
            search_id,
            truncated: false,
            total_files: 0,
            code: Some(failure.code()),
            error: Some(failure.message()),
        }
    }
}

/// A file as it is listed: without a verbatim prefix and with forward slashes.
pub open spec fn listed(line: Seq<char>) -> Seq<char> {
    replaced(without_verbatim_prefix(line), '\\', '/')
}

/// A running search as a mathematical value: the list, whether files were left
/// out, and how long the list was when it was last published.
pub struct NamesModel {
    pub files: Seq<Seq<char>>,
    pub truncated: bool,
    pub last_batch: nat,
}

/// What is to be done after a line.
pub enum NamesStepModel {
    Continue,
    Stop,
    Publish(Seq<Seq<char>>),
}

/// A search that has read nothing.
pub open spec fn no_names() -> NamesModel {
    NamesModel { files: Seq::empty(), truncated: false, last_batch: 0 }
}

/// The search after one line of output, and what is to be done.
pub open spec fn after_name(s: NamesModel, line: Seq<char>) -> (NamesModel, NamesStepModel) {
    if s.files.len() >= MAX_FILE_NAMES {
        (NamesModel { truncated: true, ..s }, NamesStepModel::Stop)
    } else {
        let files = s.files.push(listed(line));
        if files.len() % (FILE_NAME_BATCH_SIZE as nat) == 0 {
            (
                NamesModel { files, truncated: s.truncated, last_batch: files.len() },
                NamesStepModel::Publish(files),
            )
        } else {
            (NamesModel { files, ..s }, NamesStepModel::Continue)
        }
    }
}

/// What the reader of the output does next.
#[derive(Debug, Clone)]
pub enum FileNameStep {
    /// Read on.
    Continue,
    /// Stop reading: the list is full.
    Stop,
    /// Publish the list and read on.
    Publish(SearchFileNamesBatchEvent),
}

/// Whether `batch` publishes `files` of the search `search_id`.
pub open spec fn lists(
    batch: SearchFileNamesBatchEvent,
    search_id: Seq<char>,
    files: Seq<Seq<char>>,
    truncated: Option<bool>,
) -> bool {
    batch.search_id@ == search_id && batch.files.deep_view() == files && batch.truncated
        == truncated
}

/// Whether `step` does what `model` says, for the search `search_id`. A list
/// that is published on the way does not say whether it is cut short.
pub open spec fn does(step: FileNameStep, search_id: Seq<char>, model: NamesStepModel) -> bool {
    match model {
        NamesStepModel::Continue => step is Continue,
        NamesStepModel::Stop => step is Stop,
        NamesStepModel::Publish(files) => step matches FileNameStep::Publish(batch) && lists(
            batch,
            search_id,
            files,
            None,
        ),
    }
}

/// A running file name search.
pub struct FileNameSearch {
    search_id: String,
    files: Vec<String>,
    truncated: bool,
    last_batch: usize,
}

impl View for FileNameSearch {
    type V = NamesModel;

    closed spec fn view(&self) -> NamesModel {
        NamesModel {
            files: self.files.deep_view(),
            truncated: self.truncated,
            last_batch: self.last_batch as nat,
        }
    }
}

/// Whether the list is published once more when the output ends: where it has
/// grown since it was published last, or files were left out, which no batch
/// on the way could tell.
pub open spec fn has_trailing_batch(s: NamesModel) -> bool {
    s.files.len() != s.last_batch || s.truncated
}

/// Whether the list is within its bound, was published at its last multiple of
/// a batch, and is full where files were left out.
pub open spec fn names_in_order(s: NamesModel) -> bool {
    &&& s.files.len() <= MAX_FILE_NAMES
    &&& s.last_batch == s.files.len() - s.files.len() % (FILE_NAME_BATCH_SIZE as nat)
    &&& s.truncated ==> s.files.len() == MAX_FILE_NAMES
}

impl FileNameSearch {
    /// The search that this is.
    pub closed spec fn id(&self) -> Seq<char> {
        self.search_id@
    }

    /// A search that has read nothing.
    pub fn new(search_id: String) -> (r: Self)
        ensures
            r.id() == search_id@,
            r@ == no_names(),
            names_in_order(r@),
    {
        let r = FileNameSearch { search_id, files: Vec::new(), truncated: false, last_batch: 0 };
        assert(r@.files =~= Seq::<Seq<char>>::empty());
        r
    }

    /// Considers one line of ripgrep's output.
    pub fn line(&mut self, line: &str) -> (r: FileNameStep)
        requires
            names_in_order(old(self)@),
        ensures
            names_in_order(final(self)@),
            final(self).id() == old(self).id(),
            final(self)@ == after_name(old(self)@, line@).0,
            does(r, old(self).id(), after_name(old(self)@, line@).1),
            old(self)@.files.len() < 100 ==> final(self)@.files.len() == old(self)@.files.len() + 1
                && final(self)@.files.drop_last() == old(self)@.files,
            old(self)@.files.len() < 100 && (forall|i: int|
                0 <= i < line@.len() ==> #[trigger] line@[i] != '\\')
                ==> final(self)@.files.last() == line@,
    {
        proof {
            law_line_adds_its_file(self@, line@);
            law_file_is_listed_as_printed(line@);
        }
        if self.files.len() >= MAX_FILE_NAMES {
            self.truncated = true;
            return FileNameStep::Stop;
        }
        let ghost before = self.files.deep_view();
        self.files.push(replace_char(strip_verbatim_prefix(line), '\\', '/'));
        assert(self.files.deep_view() =~= before.push(listed(line@)));
        if self.files.len() % FILE_NAME_BATCH_SIZE == 0 {
            self.last_batch = self.files.len();
            FileNameStep::Publish(
                SearchFileNamesBatchEvent {
                    search_id: self.search_id.clone(),
                    files: copy_list(&self.files),
                    truncated: None,
                },
            )
        } else {
            FileNameStep::Continue
        }
    }

    /// The list to publish when the output ends: it says whether it is cut short.
    /// There is none where the list was published at its full length already and
    /// nothing was left out.
    pub fn trailing_batch(&self) -> (r: Option<SearchFileNamesBatchEvent>)
        ensures
            r is Some <==> has_trailing_batch(self@),
            r matches Some(batch) ==> lists(
                batch,
                self.id(),
                self@.files,
                Some(self@.truncated),
            ),
    {
        if self.files.len() != self.last_batch || self.truncated {
            Some(
                SearchFileNamesBatchEvent {
                    search_id: self.search_id.clone(),
                    files: copy_list(&self.files),
                    truncated: Some(self.truncated),
                },
            )
        } else {
            None
        }
    }

    /// The end of the search.
    pub fn finish(self, read_error: Option<String>, exit: Option<RgExit>) -> (r:
        SearchFileNamesDoneEvent)
        ensures
            match stream_error(read_error.deep_view(), exit) {
                Some(text) => r.says(
                    self.id(),
                    self@.truncated,
                    self@.files.len(),
                    Some("RG_STREAM_FAILED"@),
                    Some(text),
                ),
                None => r.says(self.id(), self@.truncated, self@.files.len(), None, None),
            },
    {
        let (code, error) = match stream_failure(read_error, exit) {
            Some(failure) => (Some(failure.code()), Some(failure.message())),
            None => (None, None),
        };
        SearchFileNamesDoneEvent {
            search_id: self.search_id,
            truncated: self.truncated,
            total_files: self.files.len(),
            code,
            error,
        }
    }
}

// ==================== Laws ====================

/// The search after a whole output, stopping where a step says so.
pub open spec fn after_names(s: NamesModel, lines: Seq<Seq<char>>) -> NamesModel
    decreases lines.len(),
{
    if lines.len() == 0 {
        s
    } else {
        let (next, step) = after_name(s, lines[0]);
        if step is Stop {
            next
        } else {
            after_names(next, lines.drop_first())
        }
    }
}

/// A search lists the first files of the output, as many as it may, and says
/// that it was cut short just where the output had more.
pub proof fn law_first_files_are_listed(s: NamesModel, lines: Seq<Seq<char>>)
    requires
        names_in_order(s),
        !s.truncated,
    ensures
        ({
            let done = after_names(s, lines);
            let all = s.files + lines.map_values(|line: Seq<char>| listed(line));
            &&& names_in_order(done)
            &&& done.files == all.take(
                if all.len() <= MAX_FILE_NAMES {
                    all.len() as int
                } else {
                    MAX_FILE_NAMES as int
                },
            )
            &&& done.truncated <==> all.len() > MAX_FILE_NAMES
        }),
    decreases lines.len(),
{
    let f = |line: Seq<char>| listed(line);
    let all = s.files + lines.map_values(f);
    if lines.len() == 0 {
        assert(all =~= s.files);
        assert(all.take(all.len() as int) =~= all);
    } else {
        let (next, step) = after_name(s, lines[0]);
        if step is Stop {
            assert(all.take(MAX_FILE_NAMES as int) =~= s.files);
        } else {
            law_first_files_are_listed(next, lines.drop_first());
            assert(next.files + lines.drop_first().map_values(f) =~= all);
        }
    }
}

/// The list that was published last over an output, the trailing one included;
/// `shown` was published before.
pub open spec fn last_published(
    s: NamesModel,
    lines: Seq<Seq<char>>,
    shown: Seq<Seq<char>>,
) -> Seq<Seq<char>>
    decreases lines.len(),
{
    if lines.len() == 0 {
        if has_trailing_batch(s) {
            s.files
        } else {
            shown
        }
    } else {
        let (next, step) = after_name(s, lines[0]);
        match step {
            NamesStepModel::Stop => if has_trailing_batch(next) {
                next.files
            } else {
                shown
            },
            NamesStepModel::Publish(files) => last_published(next, lines.drop_first(), files),
            NamesStepModel::Continue => last_published(next, lines.drop_first(), shown),
        }
    }
}

/// Whoever shows the list published last ends with the whole list.
pub proof fn law_last_batch_is_the_whole_list(
    s: NamesModel,
    lines: Seq<Seq<char>>,
    shown: Seq<Seq<char>>,
)
    requires
        names_in_order(s),
        shown == s.files.take(s.last_batch as int),
    ensures
        last_published(s, lines, shown) == after_names(s, lines).files,
    decreases lines.len(),
{
    assert(s.files.take(s.files.len() as int) =~= s.files);
    if lines.len() > 0 {
        let (next, step) = after_name(s, lines[0]);
        assert(next.files.take(next.files.len() as int) =~= next.files);
        match step {
            NamesStepModel::Stop => {},
            NamesStepModel::Publish(files) => {
                law_last_batch_is_the_whole_list(next, lines.drop_first(), files);
            },
            NamesStepModel::Continue => {
                assert(next.files.take(next.last_batch as int) =~= shown);
                law_last_batch_is_the_whole_list(next, lines.drop_first(), shown);
            },
        }
    }
}

/// The output ends with one more batch just where it has more files than are
/// listed, or a number of them that fills no whole batch. That batch says that
/// the list is cut short just where there were more.
pub proof fn law_trailing_batch_comes_where_needed(lines: Seq<Seq<char>>)
    ensures
        ({
            let done = after_names(no_names(), lines);
            &&& has_trailing_batch(done) <==> (lines.len() > MAX_FILE_NAMES || lines.len() % (
            FILE_NAME_BATCH_SIZE as nat) != 0)
            &&& done.truncated <==> lines.len() > MAX_FILE_NAMES
        }),
{
    law_first_files_are_listed(no_names(), lines);
}

/// Where the output has more files than are listed, the batch at its end holds
/// the first of them, as many as are listed, and says that there were more.
pub proof fn law_capped_search_says_so(lines: Seq<Seq<char>>)
    requires
        lines.len() > MAX_FILE_NAMES,
    ensures
        ({
            let done = after_names(no_names(), lines);
            &&& done.truncated
            &&& has_trailing_batch(done)
            &&& done.files == lines.take(MAX_FILE_NAMES as int).map_values(
                |line: Seq<char>| listed(line),
            )
        }),
{
    let f = |line: Seq<char>| listed(line);
    law_first_files_are_listed(no_names(), lines);
    assert(no_names().files + lines.map_values(f) =~= lines.map_values(f));
    assert(lines.map_values(f).take(MAX_FILE_NAMES as int) =~= lines.take(
        MAX_FILE_NAMES as int,
    ).map_values(f));
}

/// A file is listed as ripgrep prints it, character by character: a verbatim
/// prefix goes, a backslash becomes a forward slash, and nothing else changes. A
/// line without either is listed as it is.
pub proof fn law_file_is_listed_as_printed(line: Seq<char>)
    ensures
        ({
            let cut: int = if line.len() >= 4 && line[0] == '\\' && line[1] == '\\' && line[2]
                == '?' && line[3] == '\\' && !(line.len() >= 8 && line[4] == 'U' && line[5] == 'N'
                && line[6] == 'C' && line[7] == '\\') {
                4
            } else {
                0
            };
            &&& listed(line).len() == line.len() - cut
            &&& forall|i: int|
                0 <= i < listed(line).len() ==> #[trigger] listed(line)[i] == (if line[i + cut]
                    == '\\' {
                    '/'
                } else {
                    line[i + cut]
                })
        }),
        (forall|i: int| 0 <= i < line.len() ==> #[trigger] line[i] != '\\') ==> listed(line) == line,
{
    if forall|i: int| 0 <= i < line.len() ==> #[trigger] line[i] != '\\' {
        assert(listed(line) =~= line);
    }
}

/// A line adds its file at the end of the list, until there are 100; the list is
/// published, whole, each time that it has grown by 25. A line more ends the
/// search, and the list is cut short.
pub proof fn law_line_adds_its_file(s: NamesModel, line: Seq<char>)
    ensures
        ({
            let (next, step) = after_name(s, line);
            &&& s.files.len() >= 100 ==> step is Stop && next.truncated && next.files == s.files
                && next.last_batch == s.last_batch
            &&& s.files.len() < 100 ==> next.files.len() == s.files.len() + 1
                && next.files.drop_last() == s.files && next.files.last() == listed(line)
                && next.truncated == s.truncated
            &&& s.files.len() < 100 && (s.files.len() + 1) % 25 == 0 ==> step
                == NamesStepModel::Publish(next.files) && next.last_batch == next.files.len()
            &&& s.files.len() < 100 && (s.files.len() + 1) % 25 != 0 ==> step is Continue
                && next.last_batch == s.last_batch
        }),
        no_names().files.len() == 0,
        !no_names().truncated,
        no_names().last_batch == 0,
{
    let (next, step) = after_name(s, line);
    if s.files.len() < 100 {
        assert(next.files.drop_last() =~= s.files);
    }
}

/// Where an output has no more than 100 lines, each of its files is listed, in
/// order, and nothing is cut short; where it has more, the first 100 are.
pub proof fn law_files_are_listed_in_order(lines: Seq<Seq<char>>)
    ensures
        ({
            let done = after_names(no_names(), lines);
            &&& done.files.len() == (if lines.len() < 100 {
                lines.len()
            } else {
                100
            })
            &&& forall|i: int|
                0 <= i < done.files.len() ==> #[trigger] done.files[i] == listed(lines[i])
            &&& done.truncated <==> lines.len() > 100
            &&& has_trailing_batch(done) <==> lines.len() > 100 || lines.len() % 25 != 0
        }),
{
    law_first_files_are_listed(no_names(), lines);
    law_trailing_batch_comes_where_needed(lines);
}

/// A batch lists just these files, in order, for its search, and says of the end
/// of the list what is known of it; a step publishes such a batch, or none.
pub proof fn law_batch_lists_every_file(
    batch: SearchFileNamesBatchEvent,
    step: FileNameStep,
    search_id: Seq<char>,
    files: Seq<Seq<char>>,
    truncated: Option<bool>,
)
    ensures
        lists(batch, search_id, files, truncated) ==> batch.search_id@ == search_id
            && batch.files@.len() == files.len() && (forall|i: int|
            0 <= i < files.len() ==> #[trigger] batch.files@[i]@ == files[i]) && batch.truncated
            == truncated,
        does(step, search_id, NamesStepModel::Continue) ==> step is Continue,
        does(step, search_id, NamesStepModel::Stop) ==> step is Stop,
        does(step, search_id, NamesStepModel::Publish(files)) ==> (
        step matches FileNameStep::Publish(sent) && sent.search_id@ == search_id
            && sent.files.deep_view() == files && sent.truncated is None),
{
    if lists(batch, search_id, files, truncated) {
        assert forall|i: int| 0 <= i < files.len() implies #[trigger] batch.files@[i]@
            == files[i] by {
            assert(batch.files.deep_view()[i] == batch.files@[i]@);
        }
    }
}

/// The end of a search says for which search it is, whether the list was cut
/// short, how long it is, and the error where there is one.
pub proof fn law_end_says_all(
    event: SearchFileNamesDoneEvent,
    search_id: Seq<char>,
    truncated: bool,
    total_files: nat,
    code: Option<Seq<char>>,
    error: Option<Seq<char>>,
)
    ensures
        event.says(search_id, truncated, total_files, code, error) <==> event.search_id@
            == search_id && event.truncated == truncated && event.total_files == total_files
            && event.code.deep_view() == code && event.error.deep_view() == error,
{
}

impl FileNameSearch {
    /// A search as a value has every file that is listed, in order.
    proof fn law_search_model_has_every_file(self)
        ensures
            self@.files.len() == self.files@.len(),
            forall|i: int|
                0 <= i < self.files@.len() ==> #[trigger] self@.files[i] == self.files@[i]@,
            self@.truncated == self.truncated,
            self@.last_batch == self.last_batch,
            self.id() == self.search_id@,
    {
    }
}

} // verus!
