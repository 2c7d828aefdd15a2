//! What is asked of git, and what is made of its answers.

use crate::text::{
    concat2, concat3, decimal, decimal_text, find_char, first_index, from_chars, is_digit,
    is_white_space, law_decimal_parses_back, law_printed_lines_are_read_back, lemma_decimal_value,
    lemma_first_index, lemma_first_index_bounds, lines, lines_of, numeral_value, parse_usize,
    parsed_usize, printed, strip_back, strip_front, to_chars, trim, trimmed,
};
use vstd::prelude::*;

verus! {

/// What is asked of git.
#[derive(Debug, Clone, Copy, PartialEq, Eq, Structural)]
pub enum GitAction {
    Init,
    StashPush,
    StashList,
    StashApply,
    StashPop,
    StashDrop,
    BranchList,
    BranchSwitch,
    BranchCreate,
}

impl GitAction {
    /// What git is called with, as an error text says it.
    pub open spec fn command_name(self) -> Seq<char> {
        match self {
            GitAction::Init => "git init"@,
            GitAction::StashPush => "git stash push"@,
            GitAction::StashList => "git stash list"@,
            GitAction::StashApply => "git stash apply"@,
            GitAction::StashPop => "git stash pop"@,
            GitAction::StashDrop => "git stash drop"@,
            GitAction::BranchList => "git branch"@,
            GitAction::BranchSwitch => "git checkout"@,
            GitAction::BranchCreate => "git checkout -b"@,
        }
    }

    /// What the work is called where it did not come to its end.
    pub open spec fn task_name(self) -> Seq<char> {
        match self {
            GitAction::BranchList => "git branch list"@,
            GitAction::BranchSwitch => "git branch switch"@,
            GitAction::BranchCreate => "git branch create"@,
            _ => self.command_name(),
        }
    }

    /// What git is called with, as an error text says it.
    fn command(self) -> (r: &'static str)
        ensures
            r@ == self.command_name(),
    {
        match self {
            GitAction::Init => "git init",
            GitAction::StashPush => "git stash push",
            GitAction::StashList => "git stash list",
            GitAction::StashApply => "git stash apply",
            GitAction::StashPop => "git stash pop",
            GitAction::StashDrop => "git stash drop",
            GitAction::BranchList => "git branch",
            GitAction::BranchSwitch => "git checkout",
            GitAction::BranchCreate => "git checkout -b",
        }
    }

    /// What the work is called where it did not come to its end.
    fn task(self) -> (r: &'static str)
        ensures
            r@ == self.task_name(),
    {
        match self {
            GitAction::BranchList => "git branch list",
            GitAction::BranchSwitch => "git branch switch",
            GitAction::BranchCreate => "git branch create",
            _ => self.command(),
        }
    }
}

/// What git printed, and whether it reports success.
#[derive(Debug, Clone)]
pub struct GitOutput {
    pub success: bool,
    pub stdout: String,
    pub stderr: String,
}

/// What came of running git.
#[derive(Debug, Clone)]
pub enum GitRun {
    /// The work did not come to its end, for this reason.
    TaskFailed(String),
    /// Git could not be run.
    NotRun,
    /// Git ran.
    Ran(GitOutput),
}

/// What git printed where it succeeded, and else an error text: why the work
/// did not come to its end, that git could not be run, or what git reported.
pub open spec fn git_answer(action: GitAction, run: GitRun) -> Result<Seq<char>, Seq<char>> {
    match run {
        GitRun::TaskFailed(reason) => Err(action.task_name() + " task failed: "@ + reason@),
        GitRun::NotRun => Err("Failed to run "@ + action.command_name()),
        GitRun::Ran(output) => if output.success {
            Ok(output.stdout@)
        } else {
            Err(trimmed(output.stderr@))
        },
    }
}

/// What git printed where it succeeded, and else an error text.
fn git_printed(action: GitAction, run: GitRun) -> (r: Result<String, String>)
    ensures
        match git_answer(action, run) {
            Ok(printed) => r matches Ok(text) && text@ == printed,
            Err(error) => r matches Err(text) && text@ == error,
        },
{
    match run {
        GitRun::TaskFailed(reason) => Err(concat3(action.task(), " task failed: ", &reason)),
        GitRun::NotRun => Err(concat2("Failed to run ", action.command())),
        GitRun::Ran(output) => if output.success {
            Ok(output.stdout)
        } else {
            Err(trim(&output.stderr).to_string())
        },
    }
}

/// What the caller is told of an action that gives no data.
pub fn git_result(action: GitAction, run: GitRun) -> (r: Result<(), String>)
    ensures
        match git_answer(action, run) {
            Ok(_) => r is Ok,
            Err(error) => r matches Err(text) && text@ == error,
        },
{
    match git_printed(action, run) {
        Ok(_) => Ok(()),
        Err(text) => Err(text),
    }
}

/// The longer work that the git tracker does.
#[derive(Debug, Clone, Copy, PartialEq, Eq, Structural)]
pub enum GitTask {
    Commit,
    Push,
    Checkout,
    CreateBranch,
}

impl GitTask {
    /// What the work is called where it did not come to its end.
    pub open spec fn name(self) -> Seq<char> {
        match self {
            GitTask::Commit => "git commit"@,
            GitTask::Push => "git push"@,
            GitTask::Checkout => "git checkout"@,
            GitTask::CreateBranch => "git create branch"@,
        }
    }
}

/// What the caller is told of longer work: what it came to, or why it did not
/// come to its end.
pub fn task_result(task: GitTask, outcome: Result<Result<(), String>, String>) -> (r: Result<
    (),
    String,
>)
    ensures
        match outcome {
            Ok(done) => r == done,
            Err(reason) => r matches Err(text) && text@ == task.name() + " task failed: "@
                + reason@,
        },
{
    match outcome {
        Ok(done) => done,
        Err(reason) => {
            let name = match task {
                GitTask::Commit => "git commit",
                GitTask::Push => "git push",
                GitTask::Checkout => "git checkout",
                GitTask::CreateBranch => "git create branch",
            };
            Err(concat3(name, " task failed: ", &reason))
        },
    }
}

// ==================== Arguments ====================

/// The arguments that stash the changes, with the untracked files where asked.
pub open spec fn stash_push_arguments(
    message: Option<Seq<char>>,
    include_untracked: Option<bool>,
) -> Seq<Seq<char>> {
    seq!["stash"@, "push"@] + (if include_untracked == Some(true) {
        seq!["-u"@]
    } else {
        Seq::empty()
    }) + (match message {
        Some(text) => seq!["-m"@, text],
        None => Seq::empty(),
    })
}

/// The arguments that stash the changes.
pub fn stash_push_args(message: Option<String>, include_untracked: Option<bool>) -> (r: Vec<String>)
    ensures
        r.deep_view() == stash_push_arguments(message.deep_view(), include_untracked),
{
    let mut args: Vec<String> = vec!["stash".to_string(), "push".to_string()];
    if let Some(untracked) = include_untracked {
        if untracked {
            args.push("-u".to_string());
        }
    }
    let ghost wanted = message.deep_view();
    if let Some(text) = message {
        args.push("-m".to_string());
        args.push(text);
    }
    assert(args.deep_view() =~= stash_push_arguments(wanted, include_untracked));
    args
}

/// How git names the stash `index`.
pub open spec fn stash_ref(index: nat) -> Seq<char> {
    "stash@{"@ + decimal(index) + "}"@
}

/// What is done with one stash.
#[derive(Debug, Clone, Copy, PartialEq, Eq, Structural)]
pub enum StashVerb {
    Apply,
    Pop,
    Drop,
}

impl StashVerb {
    /// What git calls it.
    pub open spec fn word(self) -> Seq<char> {
        match self {
            StashVerb::Apply => "apply"@,
            StashVerb::Pop => "pop"@,
            StashVerb::Drop => "drop"@,
        }
    }
}

/// The arguments that do `verb` with the stash `index`.
pub fn stash_args(verb: StashVerb, index: usize) -> (r: Vec<String>)
    ensures
        r.deep_view() == seq!["stash"@, verb.word(), stash_ref(index as nat)],
{
    let word = match verb {
        StashVerb::Apply => "apply",
        StashVerb::Pop => "pop",
        StashVerb::Drop => "drop",
    };
    let args: Vec<String> = vec![
        "stash".to_string(),
        word.to_string(),
        concat3("stash@{", &decimal_text(index as u128), "}"),
    ];
    assert(args.deep_view() =~= seq!["stash"@, verb.word(), stash_ref(index as nat)]);
    args
}

/// The arguments that list all branches by their short names.
pub fn branch_list_args() -> (r: Vec<String>)
    ensures
        r.deep_view() == seq!["branch"@, "-a"@, "--format=%(refname:short)"@],
{
    let args: Vec<String> = vec![
        "branch".to_string(),
        "-a".to_string(),
        "--format=%(refname:short)".to_string(),
    ];
    assert(args.deep_view() =~= seq!["branch"@, "-a"@, "--format=%(refname:short)"@]);
    args
}

/// The arguments that check the branch `name` out; it is created where asked.
pub fn checkout_args(name: &str, create: bool) -> (r: Vec<String>)
    ensures
        r.deep_view() == (if create {
            seq!["checkout"@, "-b"@, name@]
        } else {
            seq!["checkout"@, name@]
        }),
{
    let mut args: Vec<String> = vec!["checkout".to_string()];
    if create {
        args.push("-b".to_string());
    }
    args.push(name.to_string());
    assert(args.deep_view() =~= (if create {
        seq!["checkout"@, "-b"@, name@]
    } else {
        seq!["checkout"@, name@]
    }));
    args
}

// ==================== Stashes ====================

/// A stash: its number, how git names it, and its message.
#[derive(Debug, Clone)]
pub struct GitStashInfo {
    pub index: usize,
    pub name: String,
    pub message: String,
}

/// A stash as a mathematical value.
pub struct StashModel {
    pub index: usize,
    pub name: Seq<char>,
    pub message: Seq<char>,
}

impl DeepView for GitStashInfo {
    type V = StashModel;

    open spec fn deep_view(&self) -> StashModel {
        StashModel { index: self.index, name: self.name@, message: self.message@ }
    }
}

/// The name of the stash in a line: what stands before the first colon.
pub open spec fn stash_name(line: Seq<char>) -> Seq<char> {
    trimmed(line.take(first_index(line, ':')))
}

/// Whether the braces in the name of a line's stash, if it has both, stand in
/// order.
pub open spec fn braces_in_order(line: Seq<char>) -> bool {
    let name = stash_name(line);
    let open = first_index(name, '{');
    let close = first_index(name, '}');
    first_index(line, ':') < line.len() && open < name.len() && close < name.len() ==> open < close
}

/// The stash that a line names, if it does: before the first colon stands a
/// name with a number in braces, after it the message.
pub open spec fn stash_in_line(line: Seq<char>) -> Option<StashModel> {
    let colon = first_index(line, ':');
    let name = stash_name(line);
    let open = first_index(name, '{');
    let close = first_index(name, '}');
    if colon < line.len() && open < name.len() && open < close < name.len() {
        match parsed_usize(name.subrange(open + 1, close)) {
            Some(index) => Some(
                StashModel { index, name, message: trimmed(line.skip(colon + 1)) },
            ),
            None => None,
        }
    } else {
        None
    }
}

/// The stashes that `lines` name, in order.
pub open spec fn stashes_in(lines: Seq<Seq<char>>) -> Seq<StashModel>
    decreases lines.len(),
{
    if lines.len() == 0 {
        Seq::empty()
    } else {
        match stash_in_line(lines.last()) {
            Some(stash) => stashes_in(lines.drop_last()).push(stash),
            None => stashes_in(lines.drop_last()),
        }
    }
}

/// Whether the braces are in order in every line that git printed.
pub open spec fn readable_stash_list(stdout: Seq<char>) -> bool {
    forall|i: int| 0 <= i < lines_of(stdout).len() ==> braces_in_order(#[trigger] lines_of(stdout)[i])
}

/// The stash that `line` names, if it does.
fn read_stash(line: &str) -> (r: Option<GitStashInfo>)
    ensures
        r.deep_view() == stash_in_line(line@),
{
    let chars = to_chars(line);
    let colon: usize = find_char(&chars, ':');
    if colon == chars.len() {
        return None;
    }
    let front = part(&chars, 0, colon);
    let back = part(&chars, colon + 1, chars.len());
    assert(front@ =~= line@.take(colon as int));
    assert(back@ =~= line@.skip(colon + 1));
    let name = trim(&front).to_string();
    let name_chars = to_chars(&name);
    let open: usize = find_char(&name_chars, '{');
    let close: usize = find_char(&name_chars, '}');
    if open == name_chars.len() || close == name_chars.len() || close <= open {
        return None;
    }
    let digits = to_chars(&part(&name_chars, open + 1, close));
    match parse_usize(&digits) {
        Some(index) => Some(GitStashInfo { index, name, message: trim(&back).to_string() }),
        None => None,
    }
}

/// The characters from place `from` up to place `to`.
fn part(chars: &Vec<char>, from: usize, to: usize) -> (r: String)
    requires
        from <= to <= chars.len(),
    ensures
        r@ == chars@.subrange(from as int, to as int),
{
    let mut piece: Vec<char> = Vec::new();
    let mut i: usize = from;
    while i < to
        invariant
            from <= i <= to <= chars.len(),
            piece@ == chars@.subrange(from as int, i as int),
        decreases to - i,
    {
        piece.push(chars[i]);
        assert(piece@ =~= chars@.subrange(from as int, i + 1));
        i += 1;
    }
    from_chars(&piece)
}

/// Whether the braces are in order in every line that git printed.
pub fn stash_list_is_readable(stdout: &str) -> (r: bool)
    ensures
        r == readable_stash_list(stdout@),
{
    let all = lines(stdout);
    let mut i: usize = 0;
    while i < all.len()
        invariant
            i <= all.len(),
            all.deep_view() == lines_of(stdout@),
            forall|j: int| 0 <= j < i ==> braces_in_order(#[trigger] lines_of(stdout@)[j]),
        decreases all.len() - i,
    {
        let chars = to_chars(&all[i]);
        let ghost line = lines_of(stdout@)[i as int];
        assert(line == all@[i as int]@);
        let colon: usize = find_char(&chars, ':');
        if colon < chars.len() {
            let front = part(&chars, 0, colon);
            assert(front@ =~= line.take(colon as int));
            let name = to_chars(trim(&front));
            let open: usize = find_char(&name, '{');
            let close: usize = find_char(&name, '}');
            if open < name.len() && close < name.len() && close <= open {
                assert(!braces_in_order(line));
                return false;
            }
        }
        i += 1;
    }
    true
}

/// The stashes that git lists. A line whose name closes a brace before it opens
/// one is not to be read.
pub fn git_stash_list(run: GitRun) -> (r: Result<Vec<GitStashInfo>, String>)
    requires
        run matches GitRun::Ran(output) ==> output.success ==> readable_stash_list(output.stdout@),
    ensures
        match git_answer(GitAction::StashList, run) {
            Ok(printed) => r matches Ok(list) && list.deep_view() == stashes_in(lines_of(printed))
                && ((forall|i: int|
                0 <= i < lines_of(printed).len() ==> stash_in_line(
                    #[trigger] lines_of(printed)[i],
                ) is Some) ==> list@.len() == lines_of(printed).len() && forall|i: int|
                0 <= i < list@.len() ==> (#[trigger] list@[i]).deep_view() == stash_in_line(
                    lines_of(printed)[i],
                )->0),
            Err(error) => r matches Err(text) && text@ == error,
        },
{
    let printed = match git_printed(GitAction::StashList, run) {
        Ok(text) => text,
        Err(text) => return Err(text),
    };
    let all = lines(&printed);
    let mut list: Vec<GitStashInfo> = Vec::new();
    let mut i: usize = 0;
    assert(list.deep_view() =~= stashes_in(all.deep_view().take(0)));
    while i < all.len()
        invariant
            i <= all.len(),
            all.deep_view() == lines_of(printed@),
            list.deep_view() == stashes_in(all.deep_view().take(i as int)),
        decreases all.len() - i,
    {
        let ghost before = list.deep_view();
        let found = read_stash(&all[i]);
        proof {
            assert(all.deep_view().take(i + 1).drop_last() =~= all.deep_view().take(i as int));
            assert(all.deep_view().take(i + 1).last() == all@[i as int]@);
        }
        if let Some(stash) = found {
            let ghost added = stash.deep_view();
            list.push(stash);
            assert(list.deep_view() =~= before.push(added));
        }
        i += 1;
    }
    assert(all.deep_view().take(i as int) =~= all.deep_view());
    proof {
        let texts = lines_of(printed@);
        if forall|k: int|
            0 <= k < texts.len() ==> stash_in_line(#[trigger] texts[k]) is Some {
            law_every_stash_is_listed(texts);
            assert(list.deep_view().len() == list@.len());
            assert forall|k: int| 0 <= k < list@.len() implies (#[trigger] list@[k]).deep_view()
                == stash_in_line(texts[k])->0 by {
                assert(list.deep_view()[k] == list@[k].deep_view());
            }
        }
    }
    Ok(list)
}

// ==================== Branches ====================

/// The names in `lines`, without surrounding white space; blank lines name
/// nothing.
pub open spec fn names_in(lines: Seq<Seq<char>>) -> Seq<Seq<char>>
    decreases lines.len(),
{
    if lines.len() == 0 {
        Seq::empty()
    } else if trimmed(lines.last()).len() > 0 {
        names_in(lines.drop_last()).push(trimmed(lines.last()))
    } else {
        names_in(lines.drop_last())
    }
}

/// The branches that git lists.
pub fn git_branch_list(run: GitRun) -> (r: Result<Vec<String>, String>)
    ensures
        match git_answer(GitAction::BranchList, run) {
            Ok(printed) => r matches Ok(list) && list.deep_view() == names_in(lines_of(printed)),
            Err(error) => r matches Err(text) && text@ == error,
        },
{
    let printed = match git_printed(GitAction::BranchList, run) {
        Ok(text) => text,
        Err(text) => return Err(text),
    };
    let all = lines(&printed);
    let mut list: Vec<String> = Vec::new();
    let mut i: usize = 0;
    assert(list.deep_view() =~= names_in(all.deep_view().take(0)));
    while i < all.len()
        invariant
            i <= all.len(),
            all.deep_view() == lines_of(printed@),
            list.deep_view() == names_in(all.deep_view().take(i as int)),
        decreases all.len() - i,
    {
        let ghost before = list.deep_view();
        let name = trim(&all[i]);
        proof {
            assert(all.deep_view().take(i + 1).drop_last() =~= all.deep_view().take(i as int));
            assert(all.deep_view().take(i + 1).last() == all@[i as int]@);
        }
        if !name.is_empty() {
            list.push(name.to_string());
            assert(list.deep_view() =~= before.push(name@));
        }
        i += 1;
    }
    assert(all.deep_view().take(i as int) =~= all.deep_view());
    Ok(list)
}

// ==================== Laws ====================

/// A stash that git lists under the name that it gives the stash `index` is
/// read as that stash, so that it can be applied, popped and dropped by its
/// number.
pub proof fn law_listed_stash_is_found_again(index: usize, message: Seq<char>)
    ensures
        stash_in_line(stash_ref(index as nat) + ":"@ + message) == Some(
            StashModel {
                index,
                name: stash_ref(index as nat),
                message: trimmed(message),
            },
        ),
        braces_in_order(stash_ref(index as nat) + ":"@ + message),
{
    let digits = decimal(index as nat);
    let name = stash_ref(index as nat);
    let line = name + ":"@ + message;
    reveal_strlit("stash@{");
    reveal_strlit("}");
    reveal_strlit(":");
    law_decimal_parses_back(index);
    lemma_decimal_value(index as nat);
    assert forall|j: int| 0 <= j < name.len() implies name[j] != ':' by {
        if 7 <= j < 7 + digits.len() {
            assert(name[j] == digits[j - 7]);
            assert(is_digit(digits[j - 7]));
        }
    }
    assert forall|j: int| 0 <= j < name.len() implies line[j] != ':' by {
        assert(line[j] == name[j]);
    }
    assert(line[name.len() as int] == ':');
    lemma_first_index(line, ':', name.len() as int);
    assert(line.take(name.len() as int) =~= name);
    assert(line.skip(name.len() as int + 1) =~= message);
    let white = |c: char| is_white_space(c);
    assert(!white(name[0]));
    assert(strip_front(name, white) == name);
    assert(!white(name.last()));
    assert(strip_back(name, white) == name);
    assert(trimmed(name) == name);
    lemma_first_index(name, '{', 6);
    assert forall|j: int| 0 <= j < name.len() - 1 implies name[j] != '}' by {
        if 7 <= j < 7 + digits.len() {
            assert(name[j] == digits[j - 7]);
            assert(is_digit(digits[j - 7]));
        }
    }
    lemma_first_index(name, '}', name.len() - 1);
    assert(name.subrange(7, name.len() - 1) =~= digits);
}

/// Every branch that is listed is a line that git printed, trimmed, and is not
/// empty.
pub proof fn law_branches_are_printed_lines(lines: Seq<Seq<char>>, i: int)
    requires
        0 <= i < names_in(lines).len(),
    ensures
        names_in(lines)[i].len() > 0,
        exists|j: int| 0 <= j < lines.len() && names_in(lines)[i] == trimmed(#[trigger] lines[j]),
    decreases lines.len(),
{
    let front = lines.drop_last();
    if i < names_in(front).len() {
        law_branches_are_printed_lines(front, i);
        let j = choose|j: int|
            0 <= j < front.len() && names_in(front)[i] == trimmed(#[trigger] front[j]);
        assert(lines[j] == front[j]);
    } else {
        assert(names_in(lines)[i] == trimmed(lines[lines.len() - 1]));
    }
}

/// The stashes of two lists of lines are those of the first and then those of
/// the second: no line keeps another from being listed.
pub proof fn law_stashes_are_listed_line_by_line(a: Seq<Seq<char>>, b: Seq<Seq<char>>)
    ensures
        stashes_in(a + b) == stashes_in(a) + stashes_in(b),
    decreases b.len(),
{
    if b.len() == 0 {
        assert(a + b =~= a);
        assert(stashes_in(a) + stashes_in(b) =~= stashes_in(a));
    } else {
        let front = b.drop_last();
        law_stashes_are_listed_line_by_line(a, front);
        assert((a + b).drop_last() =~= a + front);
        assert((a + b).last() == b.last());
        match stash_in_line(b.last()) {
            Some(stash) => {
                assert(stashes_in(a) + stashes_in(front).push(stash) =~= (stashes_in(a)
                    + stashes_in(front)).push(stash));
            },
            None => {},
        }
    }
}

/// One line is listed as the stash that it names, and not at all where it names
/// none.
pub proof fn law_one_line_is_one_stash(line: Seq<char>)
    ensures
        stash_in_line(line) is Some ==> stashes_in(seq![line]) == seq![stash_in_line(line)->0],
        stash_in_line(line) is None ==> stashes_in(seq![line]).len() == 0,
{
    assert(seq![line].drop_last() =~= Seq::empty());
    assert(stashes_in(Seq::<Seq<char>>::empty()) =~= Seq::empty());
    assert(seq![line].last() == line);
    if stash_in_line(line) is Some {
        assert(stashes_in(seq![line]) =~= seq![stash_in_line(line)->0]);
    }
}

/// Every line that names a stash is in the list: where each of them does, the
/// list has as many entries, and each is the stash of the line in its place.
pub proof fn law_every_stash_is_listed(lines: Seq<Seq<char>>)
    requires
        forall|i: int| 0 <= i < lines.len() ==> stash_in_line(#[trigger] lines[i]) is Some,
    ensures
        stashes_in(lines).len() == lines.len(),
        forall|i: int|
            0 <= i < lines.len() ==> #[trigger] stashes_in(lines)[i] == stash_in_line(lines[i])->0,
    decreases lines.len(),
{
    if lines.len() > 0 {
        let front = lines.drop_last();
        assert forall|i: int| 0 <= i < front.len() implies stash_in_line(#[trigger] front[i]) is Some by {
            assert(front[i] == lines[i]);
        }
        law_every_stash_is_listed(front);
        assert(stash_in_line(lines[lines.len() - 1]) is Some);
        assert forall|i: int| 0 <= i < lines.len() implies #[trigger] stashes_in(lines)[i]
            == stash_in_line(lines[i])->0 by {
            if i < front.len() {
                assert(stashes_in(front)[i] == stash_in_line(front[i])->0);
            }
        }
    }
}

/// Every entry of the list is the stash of a line.
pub proof fn law_only_stashes_are_listed(lines: Seq<Seq<char>>, k: int)
    requires
        0 <= k < stashes_in(lines).len(),
    ensures
        exists|i: int|
            0 <= i < lines.len() && stash_in_line(#[trigger] lines[i]) == Some(stashes_in(lines)[k]),
    decreases lines.len(),
{
    let front = lines.drop_last();
    if k < stashes_in(front).len() {
        law_only_stashes_are_listed(front, k);
        let i = choose|i: int|
            0 <= i < front.len() && stash_in_line(#[trigger] front[i]) == Some(
                stashes_in(front)[k],
            );
        assert(lines[i] == front[i]);
    } else {
        assert(stash_in_line(lines[lines.len() - 1]) == Some(stashes_in(lines)[k]));
    }
}

/// What git prints for the stashes with these messages: the newest is number 0.
pub open spec fn stash_lines(messages: Seq<Seq<char>>) -> Seq<Seq<char>> {
    messages.map(|i: int, message: Seq<char>| stash_ref(i as nat) + ":"@ + message)
}

/// Where git prints its stashes, each on a line, all of them are listed, in
/// order, each with its number, its name and its message.
pub proof fn law_printed_stashes_are_listed(messages: Seq<Seq<char>>)
    requires
        messages.len() <= usize::MAX,
        forall|k: int, i: int|
            0 <= k < messages.len() && 0 <= i < messages[k].len() ==> #[trigger] messages[k][i]
                != '\n',
        forall|k: int|
            0 <= k < messages.len() && messages[k].len() > 0 ==> (#[trigger] messages[k]).last()
                != '\r',
    ensures
        ({
            let list = stashes_in(lines_of(printed(stash_lines(messages))));
            &&& list.len() == messages.len()
            &&& forall|k: int|
                0 <= k < messages.len() ==> (#[trigger] list[k]).index == k && list[k].name
                    == stash_ref(k as nat) && list[k].message == trimmed(messages[k])
        }),
{
    let lines = stash_lines(messages);
    reveal_strlit("stash@{");
    reveal_strlit("}");
    reveal_strlit(":");
    assert forall|k: int, i: int| 0 <= k < lines.len() && 0 <= i < lines[k].len() implies
        #[trigger] lines[k][i] != '\n' by {
        let digits = decimal(k as nat);
        lemma_decimal_value(k as nat);
        let name = stash_ref(k as nat);
        if i < name.len() {
            assert(lines[k][i] == name[i]);
            if 7 <= i < 7 + digits.len() {
                assert(name[i] == digits[i - 7]);
                assert(is_digit(digits[i - 7]));
            }
        } else if i > name.len() {
            assert(lines[k][i] == messages[k][i - name.len() - 1]);
        }
    }
    assert forall|k: int| 0 <= k < lines.len() && lines[k].len() > 0 implies (
    #[trigger] lines[k]).last() != '\r' by {
        if messages[k].len() > 0 {
            assert(lines[k].last() == messages[k].last());
        } else {
            assert(lines[k].last() == ':');
        }
    }
    law_printed_lines_are_read_back(lines);
    assert forall|k: int| 0 <= k < lines.len() implies stash_in_line(#[trigger] lines[k]) is Some by {
        law_listed_stash_is_found_again(k as usize, messages[k]);
    }
    law_every_stash_is_listed(lines);
    let list = stashes_in(lines);
    assert forall|k: int| 0 <= k < messages.len() implies (#[trigger] list[k]).index == k
        && list[k].name == stash_ref(k as nat) && list[k].message == trimmed(messages[k]) by {
        law_listed_stash_is_found_again(k as usize, messages[k]);
        assert(list[k] == stash_in_line(lines[k])->0);
    }
}

/// A line names a stash just where a colon stands in it, the name before the
/// first one has a number between its first brace that opens and its first that
/// closes, and that number can be read. The message is all that stands behind
/// that colon, without the white space around it.
pub proof fn law_stash_is_what_its_line_says(line: Seq<char>, colon: int, open: int, close: int)
    requires
        0 <= colon < line.len(),
        line[colon] == ':',
        forall|i: int| 0 <= i < colon ==> #[trigger] line[i] != ':',
        ({
            let name = trimmed(line.take(colon));
            &&& 0 <= open < close < name.len()
            &&& name[open] == '{'
            &&& name[close] == '}'
            &&& forall|i: int| 0 <= i < open ==> #[trigger] name[i] != '{'
            &&& forall|i: int| 0 <= i < close ==> #[trigger] name[i] != '}'
        }),
    ensures
        ({
            let name = trimmed(line.take(colon));
            let number = parsed_usize(name.subrange(open + 1, close));
            &&& number is Some ==> stash_in_line(line) == Some(
                StashModel {
                    index: number->0,
                    name,
                    message: trimmed(line.skip(colon + 1)),
                },
            )
            &&& number is None ==> stash_in_line(line) is None
        }),
{
    let name = trimmed(line.take(colon));
    lemma_first_index(line, ':', colon);
    lemma_first_index(name, '{', open);
    lemma_first_index(name, '}', close);
}

/// A line without a colon names no stash.
pub proof fn law_line_without_colon_names_no_stash(line: Seq<char>)
    requires
        forall|i: int| 0 <= i < line.len() ==> #[trigger] line[i] != ':',
    ensures
        stash_in_line(line) is None,
        braces_in_order(line),
{
    lemma_first_index(line, ':', line.len() as int);
}

/// A list can be read where in none of its lines the name closes a brace before
/// it opens one, or has just one of the two.
pub proof fn law_ordered_braces_can_be_read(line: Seq<char>, colon: int)
    requires
        0 <= colon < line.len(),
        line[colon] == ':',
        forall|i: int| 0 <= i < colon ==> #[trigger] line[i] != ':',
    ensures
        ({
            let name = trimmed(line.take(colon));
            let open = first_index(name, '{');
            let close = first_index(name, '}');
            braces_in_order(line) <==> open == name.len() || close == name.len() || open < close
        }),
{
    let name = trimmed(line.take(colon));
    lemma_first_index(line, ':', colon);
    lemma_first_index_bounds(name, '{');
    lemma_first_index_bounds(name, '}');
}

/// The branches of two lists of lines are those of the first and then those of
/// the second, and a line is listed trimmed, unless it is blank.
pub proof fn law_branches_are_listed_line_by_line(a: Seq<Seq<char>>, b: Seq<Seq<char>>)
    ensures
        names_in(a + b) == names_in(a) + names_in(b),
    decreases b.len(),
{
    if b.len() == 0 {
        assert(a + b =~= a);
        assert(names_in(a) + names_in(b) =~= names_in(a));
    } else {
        let front = b.drop_last();
        law_branches_are_listed_line_by_line(a, front);
        assert((a + b).drop_last() =~= a + front);
        assert((a + b).last() == b.last());
        let name = trimmed(b.last());
        if name.len() > 0 {
            assert(names_in(a) + names_in(front).push(name) =~= (names_in(a) + names_in(
                front,
            )).push(name));
        }
    }
}

/// Every branch that is printed is listed: where no line is blank, the list has
/// as many names as there are lines, and each is the line in its place, trimmed.
pub proof fn law_every_branch_is_listed(lines: Seq<Seq<char>>)
    requires
        forall|i: int| 0 <= i < lines.len() ==> trimmed(#[trigger] lines[i]).len() > 0,
    ensures
        names_in(lines).len() == lines.len(),
        forall|i: int|
            0 <= i < lines.len() ==> #[trigger] names_in(lines)[i] == trimmed(lines[i]),
    decreases lines.len(),
{
    if lines.len() > 0 {
        let front = lines.drop_last();
        assert forall|i: int| 0 <= i < front.len() implies trimmed(#[trigger] front[i]).len()
            > 0 by {
            assert(front[i] == lines[i]);
        }
        law_every_branch_is_listed(front);
        assert(trimmed(lines[lines.len() - 1]).len() > 0);
        assert forall|i: int| 0 <= i < lines.len() implies #[trigger] names_in(lines)[i]
            == trimmed(lines[i]) by {
            if i < front.len() {
                assert(names_in(front)[i] == trimmed(front[i]));
            }
        }
    }
}

/// What git printed is passed on whole where it succeeded. Else the caller is
/// told what git reported, that git could not be run, or why the work did not
/// come to its end.
pub proof fn law_git_is_passed_on(action: GitAction, run: GitRun)
    ensures
        git_answer(action, run) is Ok <==> (run matches GitRun::Ran(output) && output.success),
        run matches GitRun::Ran(output) ==> output.success ==> git_answer(action, run)->Ok_0
            == output.stdout@,
        run matches GitRun::Ran(output) ==> !output.success ==> git_answer(action, run)->Err_0
            == trimmed(output.stderr@),
        run is NotRun ==> git_answer(action, run)->Err_0 == "Failed to run "@
            + action.command_name(),
        run matches GitRun::TaskFailed(reason) ==> git_answer(action, run)->Err_0
            == action.task_name() + " task failed: "@ + reason@,
{
}

/// What is asked of git is called what git calls it.
pub proof fn law_git_work_is_named()
    ensures
        GitAction::Init.command_name() == "git init"@,
        GitAction::StashPush.command_name() == "git stash push"@,
        GitAction::StashList.command_name() == "git stash list"@,
        GitAction::StashApply.command_name() == "git stash apply"@,
        GitAction::StashPop.command_name() == "git stash pop"@,
        GitAction::StashDrop.command_name() == "git stash drop"@,
        GitAction::BranchList.command_name() == "git branch"@,
        GitAction::BranchSwitch.command_name() == "git checkout"@,
        GitAction::BranchCreate.command_name() == "git checkout -b"@,
        GitAction::Init.task_name() == "git init"@,
        GitAction::StashPush.task_name() == "git stash push"@,
        GitAction::StashList.task_name() == "git stash list"@,
        GitAction::StashApply.task_name() == "git stash apply"@,
        GitAction::StashPop.task_name() == "git stash pop"@,
        GitAction::StashDrop.task_name() == "git stash drop"@,
        GitAction::BranchList.task_name() == "git branch list"@,
        GitAction::BranchSwitch.task_name() == "git branch switch"@,
        GitAction::BranchCreate.task_name() == "git branch create"@,
        GitTask::Commit.name() == "git commit"@,
        GitTask::Push.name() == "git push"@,
        GitTask::Checkout.name() == "git checkout"@,
        GitTask::CreateBranch.name() == "git create branch"@,
        StashVerb::Apply.word() == "apply"@,
        StashVerb::Pop.word() == "pop"@,
        StashVerb::Drop.word() == "drop"@,
{
}

/// A stash is pushed with its message, as it is, where it has one, and with the
/// untracked files just where that is asked for; nothing else is asked of git.
pub proof fn law_stash_is_pushed_as_asked(
    message: Option<Seq<char>>,
    include_untracked: Option<bool>,
)
    ensures
        ({
            let args = stash_push_arguments(message, include_untracked);
            let untracked = include_untracked == Some(true);
            let n: int = if untracked {
                3
            } else {
                2
            };
            &&& args[0] == "stash"@
            &&& args[1] == "push"@
            &&& untracked ==> args[2] == "-u"@
            &&& message is None ==> args.len() == n
            &&& message is Some ==> args.len() == n + 2 && args[n] == "-m"@ && args[n + 1]
                == message->0
        }),
{
}

/// Git names a stash by its number, in braces.
pub proof fn law_stash_is_named_by_its_number(index: nat) -> (digits: Seq<char>)
    ensures
        stash_ref(index) == seq!['s', 't', 'a', 's', 'h', '@', '{'] + digits + seq!['}'],
        forall|i: int| 0 <= i < digits.len() ==> is_digit(#[trigger] digits[i]),
        numeral_value(digits) == index,
{
    reveal_strlit("stash@{");
    reveal_strlit("}");
    lemma_decimal_value(index);
    assert("stash@{"@ =~= seq!['s', 't', 'a', 's', 'h', '@', '{']);
    assert("}"@ =~= seq!['}']);
    decimal(index)
}

/// A stash as a value has its number, its name and its message.
pub proof fn law_stash_model_has_every_field(stash: GitStashInfo)
    ensures
        stash.deep_view().index == stash.index,
        stash.deep_view().name == stash.name@,
        stash.deep_view().message == stash.message@,
{
}

} // verus!
