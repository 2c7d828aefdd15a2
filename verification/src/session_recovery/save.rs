//! Saving the registry so that the file on disk is always a whole registry: a
//! temporary file is written and synced, and then takes the place of the old.

use crate::outside::{is_random_uuid, random_uuid};
use crate::paths::non_empty_parent;
use crate::session_recovery::registry::SessionRegistry;
use crate::text::concat3;
use vstd::prelude::*;

verus! {

/// The steps of a save, in the order in which they are done.
#[derive(Debug, Clone, Copy, PartialEq, Eq, Structural)]
pub enum SaveStep {
    /// Create the directory of the registry.
    CreateParent,
    /// Turn the registry into bytes.
    Serialize,
    /// Create the temporary file.
    CreateTemp,
    /// Write the bytes into it.
    WriteTemp,
    /// Sync it to disk.
    SyncTemp,
    /// Put it in the place of the registry.
    Replace,
    /// Remove it, because it could not be put there.
    RemoveTemp,
    /// Sync the directory of the registry.
    SyncParent,
    /// Nothing more.
    Finished,
}

/// The name of the temporary file beside `file_name`, made of `id`.
pub open spec fn temp_name(file_name: Option<Seq<char>>, id: Seq<char>) -> Seq<char> {
    let name = match file_name {
        Some(name) => name,
        None => "sessions.json"@,
    };
    "."@ + name + "."@ + id + ".tmp"@
}

/// The name of the temporary file beside `file_name`, made of `id`.
pub fn temp_file_name(file_name: Option<&str>, id: &str) -> (r: String)
    ensures
        r@ == temp_name(
            match file_name {
                Some(name) => Some(name@),
                None => None,
            },
            id@,
        ),
{
    let name = match file_name {
        Some(name) => name,
        None => "sessions.json",
    };
    let mut r = concat3(".", name, ".");
    r.append(id);
    r.append(".tmp");
    r
}

/// A name for a temporary file beside `file_name`, made of a random id.
pub fn fresh_temp_file_name(file_name: Option<&str>) -> (r: String)
    ensures
        exists|id: Seq<char>|
            #![trigger is_random_uuid(id)]
            is_random_uuid(id) && r@ == temp_name(
                match file_name {
                    Some(name) => Some(name@),
                    None => None,
                },
                id,
            ),
{
    let id = random_uuid();
    assert(is_random_uuid(id@));
    temp_file_name(file_name, &id)
}

/// A save under way.
#[derive(Debug, Clone)]
pub struct AtomicSave {
    path: String,
    parent: Option<String>,
    temp_path: String,
    step: SaveStep,
    failure: Option<String>,
}

/// A save under way as a mathematical value.
pub struct SaveModel {
    /// The registry's path as it is shown.
    pub path: Seq<char>,
    /// The path of its directory as it is shown, where the path names one.
    pub parent: Option<Seq<char>>,
    /// The path of the temporary file as it is shown.
    pub temp_path: Seq<char>,
    /// What is to be done.
    pub step: SaveStep,
    /// Why the save has failed, if it has.
    pub failure: Option<Seq<char>>,
}

/// A save that begins.
pub open spec fn begun(path: Seq<char>, parent: Option<Seq<char>>, temp_path: Seq<char>) -> SaveModel {
    SaveModel {
        path,
        parent,
        temp_path,
        step: if parent is Some {
            SaveStep::CreateParent
        } else {
            SaveStep::Serialize
        },
        failure: None,
    }
}

/// The step after `step`, which went well or not. A failure ends the save, but
/// for a registry that could not be replaced, where the temporary file is
/// removed first; removing it and syncing the directory may fail.
pub open spec fn step_after(step: SaveStep, has_parent: bool, went_well: bool) -> SaveStep {
    match step {
        SaveStep::Replace => if !went_well {
            SaveStep::RemoveTemp
        } else if has_parent {
            SaveStep::SyncParent
        } else {
            SaveStep::Finished
        },
        SaveStep::RemoveTemp => SaveStep::Finished,
        SaveStep::SyncParent => SaveStep::Finished,
        SaveStep::Finished => SaveStep::Finished,
        _ => if !went_well {
            SaveStep::Finished
        } else {
            match step {
                SaveStep::CreateParent => SaveStep::Serialize,
                SaveStep::Serialize => SaveStep::CreateTemp,
                SaveStep::CreateTemp => SaveStep::WriteTemp,
                SaveStep::WriteTemp => SaveStep::SyncTemp,
                _ => SaveStep::Replace,
            }
        },
    }
}

/// The error that a failed step gives the save, if any.
pub open spec fn step_error(save: SaveModel, reason: Seq<char>) -> Option<Seq<char>> {
    match save.step {
        SaveStep::CreateParent => Some(
            "failed to create session registry directory "@ + (match save.parent {
                Some(parent) => parent,
                None => ""@,
            }) + ": "@ + reason,
        ),
        SaveStep::Serialize => Some("failed to serialize session registry"@ + ": "@ + reason),
        SaveStep::CreateTemp => Some(
            "failed to create session registry temp "@ + save.temp_path + ": "@ + reason,
        ),
        SaveStep::WriteTemp => Some(
            "failed to write session registry temp "@ + save.temp_path + ": "@ + reason,
        ),
        SaveStep::SyncTemp => Some(
            "failed to sync session registry temp "@ + save.temp_path + ": "@ + reason,
        ),
        SaveStep::Replace => Some(
            "failed to replace session registry "@ + save.path + ": "@ + reason,
        ),
        _ => None,
    }
}

/// The save after its step went well, or failed for a reason.
pub open spec fn save_after(save: SaveModel, failed: Option<Seq<char>>) -> SaveModel {
    SaveModel {
        step: step_after(save.step, save.parent is Some, failed is None),
        failure: match failed {
            Some(reason) => if step_error(save, reason) is Some {
                step_error(save, reason)
            } else {
                save.failure
            },
            None => save.failure,
        },
        ..save
    }
}

impl View for AtomicSave {
    type V = SaveModel;

    closed spec fn view(&self) -> SaveModel {
        SaveModel {
            path: self.path@,
            parent: self.parent.deep_view(),
            temp_path: self.temp_path@,
            step: self.step,
            failure: self.failure.deep_view(),
        }
    }
}

/// `what`, then what it was done to, then why it failed.
fn failure_text(what: &str, object: &str, reason: &str) -> (r: String)
    ensures
        r@ == what@ + object@ + ": "@ + reason@,
{
    let mut r = concat3(what, object, ": ");
    r.append(reason);
    r
}

impl SessionRegistry {
    /// Begins to save a registry to `path`, with the temporary file
    /// `temp_path`: both as they are shown. `parent` is the directory that the
    /// path names, empty where the path is a bare name.
    pub fn save_atomic(path: String, parent: Option<String>, temp_path: String) -> (r: AtomicSave)
        ensures
            r@ == begun(
                path@,
                match parent {
                    Some(parent) if parent@.len() > 0 => Some(parent@),
                    _ => None,
                },
                temp_path@,
            ),
    {
        let parent: Option<String> = match parent {
            Some(parent) => match non_empty_parent(Some(&parent)) {
                Some(_) => Some(parent),
                None => None,
            },
            None => None,
        };
        let step = match parent {
            Some(_) => SaveStep::CreateParent,
            None => SaveStep::Serialize,
        };
        AtomicSave { path, parent, temp_path, step, failure: None }
    }
}

impl AtomicSave {
    /// What is to be done.
    pub fn step(&self) -> (r: SaveStep)
        ensures
            r == self@.step,
    {
        self.step
    }

    /// Goes on after the step was done: `Err` with the reason where it failed.
    pub fn advance(&mut self, outcome: Result<(), String>)
        ensures
            final(self)@ == save_after(
                old(self)@,
                match outcome {
                    Ok(()) => None,
                    Err(reason) => Some(reason@),
                },
            ),
    {
        let went_well = outcome.is_ok();
        if let Err(reason) = outcome {
            let none = "".to_string();
            match self.step {
                SaveStep::CreateParent => {
                    let parent = match &self.parent {
                        Some(parent) => parent,
                        None => &none,
                    };
                    let text = failure_text(
                        "failed to create session registry directory ",
                        parent,
                        &reason,
                    );
                    self.failure = Some(text);
                },
                SaveStep::Serialize => {
                    let text = concat3("failed to serialize session registry", ": ", &reason);
                    self.failure = Some(text);
                },
                SaveStep::CreateTemp => {
                    let text = failure_text(
                        "failed to create session registry temp ",
                        &self.temp_path,
                        &reason,
                    );
                    self.failure = Some(text);
                },
                SaveStep::WriteTemp => {
                    let text = failure_text(
                        "failed to write session registry temp ",
                        &self.temp_path,
                        &reason,
                    );
                    self.failure = Some(text);
                },
                SaveStep::SyncTemp => {
                    let text = failure_text(
                        "failed to sync session registry temp ",
                        &self.temp_path,
                        &reason,
                    );
                    self.failure = Some(text);
                },
                SaveStep::Replace => {
                    let text = failure_text(
                        "failed to replace session registry ",
                        &self.path,
                        &reason,
                    );
                    self.failure = Some(text);
                },
                _ => {},
            }
        }
        let has_parent = self.parent.is_some();
        self.step = match self.step {
            SaveStep::Replace => if !went_well {
                SaveStep::RemoveTemp
            } else if has_parent {
                SaveStep::SyncParent
            } else {
                SaveStep::Finished
            },
            SaveStep::RemoveTemp => SaveStep::Finished,
            SaveStep::SyncParent => SaveStep::Finished,
            SaveStep::Finished => SaveStep::Finished,
            SaveStep::CreateParent => if went_well {
                SaveStep::Serialize
            } else {
                SaveStep::Finished
            },
            SaveStep::Serialize => if went_well {
                SaveStep::CreateTemp
            } else {
                SaveStep::Finished
            },
            SaveStep::CreateTemp => if went_well {
                SaveStep::WriteTemp
            } else {
                SaveStep::Finished
            },
            SaveStep::WriteTemp => if went_well {
                SaveStep::SyncTemp
            } else {
                SaveStep::Finished
            },
            SaveStep::SyncTemp => if went_well {
                SaveStep::Replace
            } else {
                SaveStep::Finished
            },
        };
    }

    /// What the save came to, or `None` while there is more to do.
    pub fn result(&self) -> (r: Option<Result<(), String>>)
        ensures
            r is Some <==> self@.step == SaveStep::Finished,
            r matches Some(Ok(_)) ==> self@.failure is None,
            r matches Some(Err(text)) ==> self@.failure == Some(text@),
    {
        match self.step {
            SaveStep::Finished => match &self.failure {
                Some(text) => Some(Err(text.clone())),
                None => Some(Ok(())),
            },
            _ => None,
        }
    }
}

// ==================== Laws ====================

/// How far a step is from the end.
pub open spec fn steps_left(step: SaveStep) -> nat {
    match step {
        SaveStep::CreateParent => 7,
        SaveStep::Serialize => 6,
        SaveStep::CreateTemp => 5,
        SaveStep::WriteTemp => 4,
        SaveStep::SyncTemp => 3,
        SaveStep::Replace => 2,
        SaveStep::RemoveTemp => 1,
        SaveStep::SyncParent => 1,
        SaveStep::Finished => 0,
    }
}

/// The save at its end, where `failed` says of each step whether, and why, it
/// fails.
pub open spec fn ended(save: SaveModel, failed: spec_fn(SaveStep) -> Option<Seq<char>>) -> SaveModel
    decreases steps_left(save.step),
{
    if save.step == SaveStep::Finished {
        save
    } else {
        ended(save_after(save, failed(save.step)), failed)
    }
}

/// The steps that a save does, where `failed` says of each whether, and why, it
/// fails.
pub open spec fn steps_done(
    save: SaveModel,
    failed: spec_fn(SaveStep) -> Option<Seq<char>>,
) -> Seq<SaveStep>
    decreases steps_left(save.step),
{
    if save.step == SaveStep::Finished {
        Seq::empty()
    } else {
        seq![save.step] + steps_done(save_after(save, failed(save.step)), failed)
    }
}

/// Whether the steps up to and with the sync of the temporary file go well.
pub open spec fn temp_is_whole(
    has_parent: bool,
    failed: spec_fn(SaveStep) -> Option<Seq<char>>,
) -> bool {
    &&& has_parent ==> failed(SaveStep::CreateParent) is None
    &&& failed(SaveStep::Serialize) is None
    &&& failed(SaveStep::CreateTemp) is None
    &&& failed(SaveStep::WriteTemp) is None
    &&& failed(SaveStep::SyncTemp) is None
}

/// The registry on disk is touched only once the temporary file holds all of
/// the new one, synced: the replacement is tried just where every step before
/// it went well.
pub proof fn law_registry_is_replaced_only_by_a_whole_file(
    path: Seq<char>,
    parent: Option<Seq<char>>,
    temp_path: Seq<char>,
    failed: spec_fn(SaveStep) -> Option<Seq<char>>,
)
    ensures
        steps_done(begun(path, parent, temp_path), failed).contains(SaveStep::Replace)
            <==> temp_is_whole(parent is Some, failed),
        ({
            let steps = steps_done(begun(path, parent, temp_path), failed);
            forall|i: int|
                0 <= i < steps.len() && #[trigger] steps[i] == SaveStep::Replace ==> i > 0
                    && steps[i - 1] == SaveStep::SyncTemp
        }),
{
    let save = begun(path, parent, temp_path);
    let steps = steps_done(save, failed);
    reveal_with_fuel(steps_done, 9);
    if temp_is_whole(parent is Some, failed) {
        let at: int = if parent is Some {
            5
        } else {
            4
        };
        assert(steps[at] == SaveStep::Replace);
    }
}

/// A save succeeds just where the whole temporary file took the place of the
/// registry; syncing the directory afterwards may fail.
pub proof fn law_save_succeeds_when_replaced(
    path: Seq<char>,
    parent: Option<Seq<char>>,
    temp_path: Seq<char>,
    failed: spec_fn(SaveStep) -> Option<Seq<char>>,
)
    ensures
        ended(begun(path, parent, temp_path), failed).step == SaveStep::Finished,
        ended(begun(path, parent, temp_path), failed).failure is None <==> temp_is_whole(
            parent is Some,
            failed,
        ) && failed(SaveStep::Replace) is None,
{
    reveal_with_fuel(ended, 9);
}

/// A temporary file that could not take the place of the registry is removed,
/// and removed in no other case.
pub proof fn law_failed_replacement_cleans_up(
    path: Seq<char>,
    parent: Option<Seq<char>>,
    temp_path: Seq<char>,
    failed: spec_fn(SaveStep) -> Option<Seq<char>>,
)
    ensures
        steps_done(begun(path, parent, temp_path), failed).contains(SaveStep::RemoveTemp)
            <==> temp_is_whole(parent is Some, failed) && failed(SaveStep::Replace) is Some,
{
    let steps = steps_done(begun(path, parent, temp_path), failed);
    reveal_with_fuel(steps_done, 9);
    if temp_is_whole(parent is Some, failed) && failed(SaveStep::Replace) is Some {
        let at: int = if parent is Some {
            6
        } else {
            5
        };
        assert(steps[at] == SaveStep::RemoveTemp);
    }
}

/// The name of a temporary file is a dot, the name of the file that it is for, a
/// dot, the id and `.tmp`: it is hidden, never the name of that file, and differs
/// where the ids do.
pub proof fn law_temp_name_is_its_own(name: Seq<char>, id: Seq<char>, other: Seq<char>)
    ensures
        ({
            let temp = temp_name(Some(name), id);
            let n = name.len() as int;
            let m = id.len() as int;
            &&& temp.len() == n + m + 6
            &&& temp[0] == '.'
            &&& temp.subrange(1, n + 1) == name
            &&& temp[n + 1] == '.'
            &&& temp.subrange(n + 2, n + m + 2) == id
            &&& temp.skip(n + m + 2) == seq!['.', 't', 'm', 'p']
            &&& temp != name
        }),
        temp_name(Some(name), id) == temp_name(Some(name), other) ==> id == other,
        temp_name(None, id) == temp_name(Some("sessions.json"@), id),
{
    reveal_strlit(".");
    reveal_strlit(".tmp");
    let temp = temp_name(Some(name), id);
    let n = name.len() as int;
    let m = id.len() as int;
    assert(temp.subrange(1, n + 1) =~= name);
    assert(temp.subrange(n + 2, n + m + 2) =~= id);
    assert(temp.skip(n + m + 2) =~= seq!['.', 't', 'm', 'p']);
    let second = temp_name(Some(name), other);
    assert(second.subrange(n + 2, n + other.len() + 2) =~= other);
    if temp == second {
        assert(temp.len() == second.len());
    }
}

/// A save in which nothing fails does these steps, in this order: the directory
/// is made and synced where the path names one.
pub proof fn law_save_does_its_steps_in_order(
    path: Seq<char>,
    parent: Option<Seq<char>>,
    temp_path: Seq<char>,
    failed: spec_fn(SaveStep) -> Option<Seq<char>>,
)
    requires
        forall|step: SaveStep| #[trigger] failed(step) is None,
    ensures
        parent is None ==> steps_done(begun(path, parent, temp_path), failed) == seq![
            SaveStep::Serialize,
            SaveStep::CreateTemp,
            SaveStep::WriteTemp,
            SaveStep::SyncTemp,
            SaveStep::Replace,
        ],
        parent is Some ==> steps_done(begun(path, parent, temp_path), failed) == seq![
            SaveStep::CreateParent,
            SaveStep::Serialize,
            SaveStep::CreateTemp,
            SaveStep::WriteTemp,
            SaveStep::SyncTemp,
            SaveStep::Replace,
            SaveStep::SyncParent,
        ],
{
    reveal_with_fuel(steps_done, 9);
    let steps = steps_done(begun(path, parent, temp_path), failed);
    if parent is None {
        assert(steps =~= seq![
            SaveStep::Serialize,
            SaveStep::CreateTemp,
            SaveStep::WriteTemp,
            SaveStep::SyncTemp,
            SaveStep::Replace,
        ]);
    } else {
        assert(steps =~= seq![
            SaveStep::CreateParent,
            SaveStep::Serialize,
            SaveStep::CreateTemp,
            SaveStep::WriteTemp,
            SaveStep::SyncTemp,
            SaveStep::Replace,
            SaveStep::SyncParent,
        ]);
    }
}

/// A save that fails says at which step, on which path, and why: the first step
/// that failed counts.
pub proof fn law_failed_save_says_where_and_why(
    path: Seq<char>,
    parent: Option<Seq<char>>,
    temp_path: Seq<char>,
    failed: spec_fn(SaveStep) -> Option<Seq<char>>,
)
    ensures
        ({
            let told = ended(begun(path, parent, temp_path), failed).failure;
            if parent is Some && failed(SaveStep::CreateParent) is Some {
                told == Some(
                    "failed to create session registry directory "@ + parent->0 + ": "@ + failed(
                        SaveStep::CreateParent,
                    )->0,
                )
            } else if failed(SaveStep::Serialize) is Some {
                told == Some(
                    "failed to serialize session registry"@ + ": "@ + failed(
                        SaveStep::Serialize,
                    )->0,
                )
            } else if failed(SaveStep::CreateTemp) is Some {
                told == Some(
                    "failed to create session registry temp "@ + temp_path + ": "@ + failed(
                        SaveStep::CreateTemp,
                    )->0,
                )
            } else if failed(SaveStep::WriteTemp) is Some {
                told == Some(
                    "failed to write session registry temp "@ + temp_path + ": "@ + failed(
                        SaveStep::WriteTemp,
                    )->0,
                )
            } else if failed(SaveStep::SyncTemp) is Some {
                told == Some(
                    "failed to sync session registry temp "@ + temp_path + ": "@ + failed(
                        SaveStep::SyncTemp,
                    )->0,
                )
            } else if failed(SaveStep::Replace) is Some {
                told == Some(
                    "failed to replace session registry "@ + path + ": "@ + failed(
                        SaveStep::Replace,
                    )->0,
                )
            } else {
                told is None
            }
        }),
{
    reveal_with_fuel(ended, 9);
}

impl AtomicSave {
    /// A save as a value has its paths, its step and its failure.
    proof fn law_save_model_has_every_field(self)
        ensures
            self@.path == self.path@,
            self@.parent == self.parent.deep_view(),
            self@.temp_path == self.temp_path@,
            self@.step == self.step,
            self@.failure == self.failure.deep_view(),
    {
    }
}

/// A save begins with the paths that it is given, and without a failure.
pub proof fn law_save_begins_with_its_paths(
    path: Seq<char>,
    parent: Option<Seq<char>>,
    temp_path: Seq<char>,
)
    ensures
        begun(path, parent, temp_path).path == path,
        begun(path, parent, temp_path).parent == parent,
        begun(path, parent, temp_path).temp_path == temp_path,
        begun(path, parent, temp_path).failure is None,
        begun(path, parent, temp_path).step == (if parent is Some {
            SaveStep::CreateParent
        } else {
            SaveStep::Serialize
        }),
{
}

} // verus!
