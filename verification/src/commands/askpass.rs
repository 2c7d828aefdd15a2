//! The helper that hands a password to ssh: a file with the password, and a
//! script that prints it and removes both.

use crate::commands::reply::IpcResult;
use crate::outside::{is_lower_hex, random_uuid};
use crate::text::{
    concat2, concat3, find_char, first_index, from_chars, lemma_first_index,
    lemma_first_index_bounds, to_chars,
};
use vstd::prelude::*;
use vstd::utf8::encode_utf8;

verus! {

/// After how many seconds both files are removed, if they are still there.
pub const CLEANUP_AFTER_SECS: u64 = 30;

/// The part of `id` before its first hyphen, or all of it where it has none.
pub open spec fn short_id(id: Seq<char>) -> Seq<char> {
    id.take(first_index(id, '-'))
}

/// The part of `id` before its first hyphen.
pub fn askpass_id(id: &str) -> (r: String)
    ensures
        r@ == short_id(id@),
{
    let chars = to_chars(id);
    let n: usize = find_char(&chars, '-');
    let mut piece: Vec<char> = Vec::new();
    let mut i: usize = 0;
    while i < n
        invariant
            i <= n <= chars.len(),
            piece@ == chars@.take(i as int),
        decreases n - i,
    {
        piece.push(chars[i]);
        assert(piece@ =~= chars@.take(i + 1));
        i += 1;
    }
    from_chars(&piece)
}

/// A random id for the files of a helper: eight hexadecimal digits.
pub fn fresh_askpass_id() -> (r: String)
    ensures
        r@.len() == 8,
        forall|i: int| 0 <= i < 8 ==> is_lower_hex(#[trigger] r@[i]),
{
    let id = random_uuid();
    proof {
        assert forall|j: int| 0 <= j < 8 implies id@[j] != '-' by {
            assert(is_lower_hex(id@[j]));
        }
        assert(id@[8] == '-');
        lemma_first_index(id@, '-', 8);
    }
    askpass_id(&id)
}

/// The system that a helper is made for.
#[derive(Debug, Clone, Copy, PartialEq, Eq, Structural)]
pub enum HelperSystem {
    Unix,
    Windows,
}

/// The name of the file with the password.
pub fn data_file_name(id: &str) -> (r: String)
    ensures
        r@ == "termul-askpass-"@ + id@ + ".dat"@,
{
    concat3("termul-askpass-", id, ".dat")
}

/// The name of the script.
pub fn script_file_name(system: HelperSystem, id: &str) -> (r: String)
    ensures
        r@ == "termul-askpass-"@ + id@ + (match system {
            HelperSystem::Unix => ".sh"@,
            HelperSystem::Windows => ".bat"@,
        }),
{
    match system {
        HelperSystem::Unix => concat3("termul-askpass-", id, ".sh"),
        HelperSystem::Windows => concat3("termul-askpass-", id, ".bat"),
    }
}

/// The script that prints the file at `data_path` and removes it and itself.
pub open spec fn script_text(system: HelperSystem, data_path: Seq<char>) -> Seq<char> {
    match system {
        HelperSystem::Unix => "#!/bin/sh\ncat \""@ + data_path + "\"\nrm -f \""@ + data_path
            + "\" \"$0\"\n"@,
        HelperSystem::Windows => "@echo off\r\ntype \""@ + data_path + "\"\r\ndel /q \""@
            + data_path + "\" >nul 2>&1\r\n(goto) 2>nul & del /q \"%~f0\" >nul 2>&1\r\n"@,
    }
}

/// The script that prints the file at `data_path` and removes it and itself.
/// The password is no part of it.
pub fn script_content(system: HelperSystem, data_path: &str) -> (r: String)
    ensures
        r@ == script_text(system, data_path@),
{
    match system {
        HelperSystem::Unix => {
            let mut text = concat3("#!/bin/sh\ncat \"", data_path, "\"\nrm -f \"");
            text.append(data_path);
            text.append("\" \"$0\"\n");
            text
        },
        HelperSystem::Windows => {
            let mut text = concat3("@echo off\r\ntype \"", data_path, "\"\r\ndel /q \"");
            text.append(data_path);
            text.append("\" >nul 2>&1\r\n(goto) 2>nul & del /q \"%~f0\" >nul 2>&1\r\n");
            text
        },
    }
}

// ==================== Making the helper ====================

/// The steps of making a helper.
#[derive(Debug, Clone, Copy, PartialEq, Eq, Structural)]
pub enum HelperStep {
    /// Write the file with the password.
    WriteData,
    /// Keep it from others.
    RestrictData,
    /// Write the script.
    WriteScript,
    /// Let the script be run by its owner.
    AllowScript,
    /// Remove the file with the password: the script is not to be had.
    RemoveData,
    /// Remove the script too.
    RemoveBoth,
    /// See to it that both files are removed in time.
    ScheduleCleanup,
    /// Nothing more.
    Finished,
}

/// The permissions that a step sets on its file, on a system that has them: the
/// file with the password is its owner's to read and write, the script its
/// owner's to run as well.
pub open spec fn helper_permissions(step: HelperStep) -> Option<u32> {
    match step {
        HelperStep::RestrictData => Some(0o600),
        HelperStep::AllowScript => Some(0o700),
        _ => None,
    }
}

/// What a step writes to its file: the password and nothing else to the one,
/// the script to the other.
pub open spec fn helper_writes(
    system: HelperSystem,
    step: HelperStep,
    data_path: Seq<char>,
    password: Seq<char>,
) -> Option<Seq<u8>> {
    match step {
        HelperStep::WriteData => Some(encode_utf8(password)),
        HelperStep::WriteScript => Some(encode_utf8(script_text(system, data_path))),
        _ => None,
    }
}

impl HelperStep {
    /// The permissions that this step sets on its file, if it sets any.
    pub fn permissions(self) -> (r: Option<u32>)
        ensures
            r == helper_permissions(self),
    {
        match self {
            HelperStep::RestrictData => Some(0o600),
            HelperStep::AllowScript => Some(0o700),
            _ => None,
        }
    }

    /// What this step writes to its file, if it writes one.
    pub fn writes(self, system: HelperSystem, data_path: &str, password: &str) -> (r: Option<
        Vec<u8>,
    >)
        ensures
            r.deep_view() == helper_writes(system, self, data_path@, password@),
    {
        match self {
            HelperStep::WriteData => {
                let bytes = password.as_bytes_vec();
                assert(bytes.deep_view() =~= bytes@);
                Some(bytes)
            },
            HelperStep::WriteScript => {
                let bytes = script_content(system, data_path).as_str().as_bytes_vec();
                assert(bytes.deep_view() =~= bytes@);
                Some(bytes)
            },
            _ => None,
        }
    }
}

/// The step after `step`, which went well or not. Keeping the file from others
/// and removing files may fail.
pub open spec fn helper_step_after(
    system: HelperSystem,
    step: HelperStep,
    went_well: bool,
) -> HelperStep {
    match step {
        HelperStep::WriteData => if went_well {
            HelperStep::RestrictData
        } else {
            HelperStep::Finished
        },
        HelperStep::RestrictData => HelperStep::WriteScript,
        HelperStep::WriteScript => if !went_well {
            HelperStep::RemoveData
        } else if system == HelperSystem::Unix {
            HelperStep::AllowScript
        } else {
            HelperStep::ScheduleCleanup
        },
        HelperStep::AllowScript => if went_well {
            HelperStep::ScheduleCleanup
        } else {
            HelperStep::RemoveBoth
        },
        _ => HelperStep::Finished,
    }
}

/// The error that a failed step gives, if any.
pub open spec fn helper_error(step: HelperStep, reason: Seq<char>) -> Option<Seq<char>> {
    match step {
        HelperStep::WriteData => Some("Failed to create askpass data: "@ + reason),
        HelperStep::WriteScript => Some("Failed to create askpass: "@ + reason),
        HelperStep::AllowScript => Some("Failed to set askpass permissions: "@ + reason),
        _ => None,
    }
}

/// A helper in the making.
#[derive(Debug, Clone)]
pub struct AskpassHelper {
    system: HelperSystem,
    script_path: String,
    step: HelperStep,
    failure: Option<String>,
}

/// A helper in the making as a mathematical value.
pub struct HelperModel {
    pub system: HelperSystem,
    pub script_path: Seq<char>,
    pub step: HelperStep,
    pub failure: Option<Seq<char>>,
}

impl View for AskpassHelper {
    type V = HelperModel;

    closed spec fn view(&self) -> HelperModel {
        HelperModel {
            system: self.system,
            script_path: self.script_path@,
            step: self.step,
            failure: self.failure.deep_view(),
        }
    }
}

/// A helper that is begun.
pub open spec fn helper_begun(system: HelperSystem, script_path: Seq<char>) -> HelperModel {
    HelperModel { system, script_path, step: HelperStep::WriteData, failure: None }
}

/// The helper after its step went well, or failed for a reason.
pub open spec fn helper_after(helper: HelperModel, failed: Option<Seq<char>>) -> HelperModel {
    HelperModel {
        step: helper_step_after(helper.system, helper.step, failed is None),
        failure: match failed {
            Some(reason) => if helper_error(helper.step, reason) is Some {
                helper_error(helper.step, reason)
            } else {
                helper.failure
            },
            None => helper.failure,
        },
        ..helper
    }
}

impl AskpassHelper {
    /// Begins a helper whose script will stand at `script_path`.
    pub fn new(system: HelperSystem, script_path: String) -> (r: Self)
        ensures
            r@ == helper_begun(system, script_path@),
    {
        AskpassHelper { system, script_path, step: HelperStep::WriteData, failure: None }
    }

    /// What is to be done.
    pub fn step(&self) -> (r: HelperStep)
        ensures
            r == self@.step,
    {
        self.step
    }

    /// Goes on after the step was done: `Err` with the reason where it failed.
    pub fn advance(&mut self, outcome: Result<(), String>)
        ensures
            final(self)@ == helper_after(
                old(self)@,
                match outcome {
                    Ok(()) => None,
                    Err(reason) => Some(reason@),
                },
            ),
    {
        let went_well = outcome.is_ok();
        if let Err(reason) = outcome {
            match self.step {
                HelperStep::WriteData => {
                    self.failure = Some(concat2("Failed to create askpass data: ", &reason));
                },
                HelperStep::WriteScript => {
                    self.failure = Some(concat2("Failed to create askpass: ", &reason));
                },
                HelperStep::AllowScript => {
                    self.failure = Some(concat2("Failed to set askpass permissions: ", &reason));
                },
                _ => {},
            }
        }
        let unix = self.system == HelperSystem::Unix;
        self.step = match self.step {
            HelperStep::WriteData => if went_well {
                HelperStep::RestrictData
            } else {
                HelperStep::Finished
            },
            HelperStep::RestrictData => HelperStep::WriteScript,
            HelperStep::WriteScript => if !went_well {
                HelperStep::RemoveData
            } else if unix {
                HelperStep::AllowScript
            } else {
                HelperStep::ScheduleCleanup
            },
            HelperStep::AllowScript => if went_well {
                HelperStep::ScheduleCleanup
            } else {
                HelperStep::RemoveBoth
            },
            _ => HelperStep::Finished,
        };
    }

    /// The reply, or `None` while there is more to do: the path of the script,
    /// or why there is none.
    pub fn reply(&self) -> (r: Option<IpcResult<String>>)
        ensures
            r is Some <==> self@.step == HelperStep::Finished,
            r matches Some(answer) ==> answer.well_formed() && match self@.failure {
                Some(text) => answer.fails_with(text, "SSH_ASKPASS_ERROR"@),
                None => answer.success && answer.data.deep_view() == Some(self@.script_path),
            },
    {
        match self.step {
            HelperStep::Finished => match &self.failure {
                Some(text) => Some(IpcResult::error(text.clone(), "SSH_ASKPASS_ERROR")),
                None => Some(IpcResult::success(self.script_path.clone())),
            },
            _ => None,
        }
    }
}

// ==================== Laws ====================

/// How far a step is from the end.
pub open spec fn helper_steps_left(step: HelperStep) -> nat {
    match step {
        HelperStep::WriteData => 5,
        HelperStep::RestrictData => 4,
        HelperStep::WriteScript => 3,
        HelperStep::AllowScript => 2,
        HelperStep::RemoveData => 1,
        HelperStep::RemoveBoth => 1,
        HelperStep::ScheduleCleanup => 1,
        HelperStep::Finished => 0,
    }
}

/// The steps that are done for a helper, where `failed` says of each whether,
/// and why, it fails.
pub open spec fn helper_steps(
    helper: HelperModel,
    failed: spec_fn(HelperStep) -> Option<Seq<char>>,
) -> Seq<HelperStep>
    decreases helper_steps_left(helper.step),
{
    if helper.step == HelperStep::Finished {
        Seq::empty()
    } else {
        seq![helper.step] + helper_steps(helper_after(helper, failed(helper.step)), failed)
    }
}

/// The helper at its end.
pub open spec fn helper_ended(
    helper: HelperModel,
    failed: spec_fn(HelperStep) -> Option<Seq<char>>,
) -> HelperModel
    decreases helper_steps_left(helper.step),
{
    if helper.step == HelperStep::Finished {
        helper
    } else {
        helper_ended(helper_after(helper, failed(helper.step)), failed)
    }
}

/// A password that was written to disk does not stay there: whatever goes wrong
/// afterwards, the last step removes the file or sees to it that it is removed
/// in time.
pub proof fn law_password_does_not_stay_on_disk(
    system: HelperSystem,
    script_path: Seq<char>,
    failed: spec_fn(HelperStep) -> Option<Seq<char>>,
)
    ensures
        failed(HelperStep::WriteData) is None ==> ({
            let last = helper_steps(helper_begun(system, script_path), failed).last();
            last == HelperStep::RemoveData || last == HelperStep::RemoveBoth || last
                == HelperStep::ScheduleCleanup
        }),
{
    reveal_with_fuel(helper_steps, 7);
}

/// The file with the password is kept from others before anything else is done:
/// the step after it was written gives it to its owner alone.
pub proof fn law_password_is_kept_from_others(
    system: HelperSystem,
    script_path: Seq<char>,
    failed: spec_fn(HelperStep) -> Option<Seq<char>>,
)
    requires
        failed(HelperStep::WriteData) is None,
    ensures
        ({
            let steps = helper_steps(helper_begun(system, script_path), failed);
            &&& steps.len() >= 2
            &&& steps[0] == HelperStep::WriteData
            &&& steps[1] == HelperStep::RestrictData
            &&& helper_permissions(steps[1]) == Some(0o600u32)
        }),
{
    reveal_with_fuel(helper_steps, 3);
}

/// The password stands in its own file and nowhere else: what the other steps
/// write is the same for every password, and what is handed out is the path of
/// the script.
pub proof fn law_password_stands_in_its_file_only(
    system: HelperSystem,
    data_path: Seq<char>,
    script_path: Seq<char>,
    failed: spec_fn(HelperStep) -> Option<Seq<char>>,
    password: Seq<char>,
    other: Seq<char>,
)
    ensures
        helper_writes(system, HelperStep::WriteData, data_path, password) == Some(
            encode_utf8(password),
        ),
        helper_writes(system, HelperStep::WriteScript, data_path, password) == Some(
            encode_utf8(script_text(system, data_path)),
        ),
        forall|step: HelperStep|
            step != HelperStep::WriteData ==> #[trigger] helper_writes(
                system,
                step,
                data_path,
                password,
            ) == helper_writes(system, step, data_path, other),
        helper_ended(helper_begun(system, script_path), failed).script_path == script_path,
{
    reveal_with_fuel(helper_ended, 7);
}

/// The script is handed out just where it was written, may be run, and both
/// files will be removed in time.
pub proof fn law_helper_is_handed_out_when_complete(
    system: HelperSystem,
    script_path: Seq<char>,
    failed: spec_fn(HelperStep) -> Option<Seq<char>>,
)
    ensures
        ({
            let helper = helper_begun(system, script_path);
            let end = helper_ended(helper, failed);
            let complete = failed(HelperStep::WriteData) is None && failed(
                HelperStep::WriteScript,
            ) is None && (system == HelperSystem::Unix ==> failed(HelperStep::AllowScript) is None);
            &&& end.step == HelperStep::Finished
            &&& end.failure is None <==> complete
            &&& complete ==> helper_steps(helper, failed).last() == HelperStep::ScheduleCleanup
        }),
{
    reveal_with_fuel(helper_steps, 7);
    reveal_with_fuel(helper_ended, 7);
}

/// The short form of an id is its front, up to its first hyphen.
pub proof fn law_short_id_is_the_front(id: Seq<char>)
    ensures
        short_id(id).len() <= id.len(),
        forall|i: int|
            0 <= i < short_id(id).len() ==> #[trigger] short_id(id)[i] == id[i] && id[i] != '-',
        short_id(id).len() < id.len() ==> id[short_id(id).len() as int] == '-',
{
    lemma_first_index_bounds(id, '-');
}

/// The script prints the file with the password, and then removes that file and
/// itself: it names no other file, and says nothing else.
pub proof fn law_script_prints_and_removes(data_path: Seq<char>)
    ensures
        script_text(HelperSystem::Unix, data_path) == "#!/bin/sh\ncat \""@ + data_path
            + "\"\nrm -f \""@ + data_path + "\" \"$0\"\n"@,
        script_text(HelperSystem::Windows, data_path) == "@echo off\r\ntype \""@ + data_path
            + "\"\r\ndel /q \""@ + data_path
            + "\" >nul 2>&1\r\n(goto) 2>nul & del /q \"%~f0\" >nul 2>&1\r\n"@,
{
}

/// A helper of which every step goes well is made in this order; on Windows the
/// script needs no permission to be run.
pub proof fn law_helper_is_made_in_order(
    script_path: Seq<char>,
    failed: spec_fn(HelperStep) -> Option<Seq<char>>,
)
    requires
        forall|step: HelperStep| #[trigger] failed(step) is None,
    ensures
        helper_steps(helper_begun(HelperSystem::Unix, script_path), failed) == seq![
            HelperStep::WriteData,
            HelperStep::RestrictData,
            HelperStep::WriteScript,
            HelperStep::AllowScript,
            HelperStep::ScheduleCleanup,
        ],
        helper_steps(helper_begun(HelperSystem::Windows, script_path), failed) == seq![
            HelperStep::WriteData,
            HelperStep::RestrictData,
            HelperStep::WriteScript,
            HelperStep::ScheduleCleanup,
        ],
{
    reveal_with_fuel(helper_steps, 7);
    assert(helper_steps(helper_begun(HelperSystem::Unix, script_path), failed) =~= seq![
        HelperStep::WriteData,
        HelperStep::RestrictData,
        HelperStep::WriteScript,
        HelperStep::AllowScript,
        HelperStep::ScheduleCleanup,
    ]);
    assert(helper_steps(helper_begun(HelperSystem::Windows, script_path), failed) =~= seq![
        HelperStep::WriteData,
        HelperStep::RestrictData,
        HelperStep::WriteScript,
        HelperStep::ScheduleCleanup,
    ]);
}

/// A helper that is not made says which step failed and why; that a file could
/// not be kept from others, or removed, is no failure.
pub proof fn law_failed_helper_says_why(
    system: HelperSystem,
    script_path: Seq<char>,
    failed: spec_fn(HelperStep) -> Option<Seq<char>>,
)
    ensures
        ({
            let told = helper_ended(helper_begun(system, script_path), failed).failure;
            if failed(HelperStep::WriteData) is Some {
                told == Some("Failed to create askpass data: "@ + failed(HelperStep::WriteData)->0)
            } else if failed(HelperStep::WriteScript) is Some {
                told == Some("Failed to create askpass: "@ + failed(HelperStep::WriteScript)->0)
            } else if system == HelperSystem::Unix && failed(HelperStep::AllowScript) is Some {
                told == Some(
                    "Failed to set askpass permissions: "@ + failed(HelperStep::AllowScript)->0,
                )
            } else {
                told is None
            }
        }),
{
    reveal_with_fuel(helper_ended, 7);
}

/// What was written of a helper that is not made is removed: the file with the
/// password, and the script too where there is one.
pub proof fn law_failed_helper_is_removed(
    system: HelperSystem,
    script_path: Seq<char>,
    failed: spec_fn(HelperStep) -> Option<Seq<char>>,
)
    requires
        failed(HelperStep::WriteData) is None,
    ensures
        failed(HelperStep::WriteScript) is Some ==> helper_steps(
            helper_begun(system, script_path),
            failed,
        ).last() == HelperStep::RemoveData,
        failed(HelperStep::WriteScript) is None && system == HelperSystem::Unix && failed(
            HelperStep::AllowScript,
        ) is Some ==> helper_steps(helper_begun(system, script_path), failed).last()
            == HelperStep::RemoveBoth,
{
    reveal_with_fuel(helper_steps, 7);
}

/// The file with the password is its owner's to read and write, the script its
/// owner's to run as well, and no other step sets permissions.
pub proof fn law_files_belong_to_their_owner(step: HelperStep)
    ensures
        helper_permissions(HelperStep::RestrictData) == Some(0o600u32),
        helper_permissions(HelperStep::AllowScript) == Some(0o700u32),
        step != HelperStep::RestrictData && step != HelperStep::AllowScript ==> helper_permissions(
            step,
        ) is None,
{
}

impl AskpassHelper {
    /// A helper as a value has its system, its script, its step and its failure.
    proof fn law_helper_model_has_every_field(self)
        ensures
            self@.system == self.system,
            self@.script_path == self.script_path@,
            self@.step == self.step,
            self@.failure == self.failure.deep_view(),
    {
    }
}

/// Both files are removed after half a minute.
pub proof fn law_files_are_removed_in_time()
    ensures
        CLEANUP_AFTER_SECS == 30,
{
}

} // verus!
