//! Path texts.

use crate::text::{concat2, to_chars};
use vstd::prelude::*;
use vstd::string::StrSliceExecFns;

verus! {

/// Whether `path` is in the verbatim form that Windows gives canonical paths:
/// whether it starts with two backslashes, a question mark and a backslash.
pub open spec fn is_verbatim(path: Seq<char>) -> bool {
    path.len() >= 4 && path[0] == '\\' && path[1] == '\\' && path[2] == '?' && path[3] == '\\'
}

/// Whether `path` is the verbatim form of a path on a network share: without its
/// prefix it would be no absolute path.
pub open spec fn is_verbatim_unc(path: Seq<char>) -> bool {
    is_verbatim(path) && path.len() >= 8 && path[4] == 'U' && path[5] == 'N' && path[6] == 'C'
        && path[7] == '\\'
}

/// `path` without its verbatim prefix, where it has one that can go.
pub open spec fn without_verbatim_prefix(path: Seq<char>) -> Seq<char> {
    if is_verbatim(path) && !is_verbatim_unc(path) {
        path.skip(4)
    } else {
        path
    }
}

/// `path` without its verbatim prefix, which tools such as git do not take. A
/// path on a network share stays as it is.
pub fn strip_verbatim_prefix(path: &str) -> (r: &str)
    ensures
        r@ == without_verbatim_prefix(path@),
{
    let chars = to_chars(path);
    let verbatim = chars.len() >= 4 && chars[0] == '\\' && chars[1] == '\\' && chars[2] == '?'
        && chars[3] == '\\';
    let unc = chars.len() >= 8 && chars[4] == 'U' && chars[5] == 'N' && chars[6] == 'C' && chars[7]
        == '\\';
    if verbatim && !unc {
        let rest = path.substring_char(4, chars.len());
        assert(rest@ == path@.skip(4));
        rest
    } else {
        path
    }
}

/// The parent directory `parent` of a path, unless its text is empty.
pub fn non_empty_parent(parent: Option<&str>) -> (r: Option<&str>)
    ensures
        r == (match parent {
            Some(text) if text@.len() > 0 => Some(text),
            _ => None,
        }),
{
    match parent {
        Some(text) => if text.is_empty() {
            None
        } else {
            Some(text)
        },
        None => None,
    }
}

/// A path or an error text, as characters.
pub open spec fn outcome_view(r: Result<String, String>) -> Result<Seq<char>, Seq<char>> {
    match r {
        Ok(path) => Ok(path@),
        Err(text) => Err(text@),
    }
}

/// The path to work with, by what looking for the canonical path gave.
pub open spec fn validated(canonical: Result<Seq<char>, Seq<char>>) -> Result<
    Seq<char>,
    Seq<char>,
> {
    match canonical {
        Ok(path) => Ok(without_verbatim_prefix(path)),
        Err(reason) => Err("Invalid or inaccessible path: "@ + reason),
    }
}

/// The path to work with for a directory that the window names: its canonical
/// path without a verbatim prefix, or why it has none.
pub fn validate_project_path(canonical: Result<String, String>) -> (r: Result<String, String>)
    ensures
        outcome_view(r) == validated(outcome_view(canonical)),
{
    match canonical {
        Ok(path) => Ok(strip_verbatim_prefix(&path).to_string()),
        Err(reason) => Err(concat2("Invalid or inaccessible path: ", &reason)),
    }
}

// ==================== Laws ====================

/// A path without the verbatim prefix is worked with as it is, and so is a path
/// on a network share; no path loses more than that prefix.
pub proof fn law_only_the_verbatim_prefix_is_lost(path: Seq<char>)
    ensures
        !is_verbatim(path) ==> without_verbatim_prefix(path) == path,
        is_verbatim_unc(path) ==> without_verbatim_prefix(path) == path,
        is_verbatim(path) && !is_verbatim_unc(path) ==> path.take(4) + without_verbatim_prefix(path)
            == path,
{
    if is_verbatim(path) && !is_verbatim_unc(path) {
        assert(path.take(4) + without_verbatim_prefix(path) =~= path);
    }
}

/// A path that was validated validates to itself, where `canonical_of`, which
/// looks for the canonical path, gives for it the canonical path that it was
/// made of.
pub proof fn law_validated_path_is_validated_again(
    path: Seq<char>,
    canonical_of: spec_fn(Seq<char>) -> Result<Seq<char>, Seq<char>>,
)
    requires
        canonical_of(path) is Ok,
        canonical_of(without_verbatim_prefix(canonical_of(path)->Ok_0)) == canonical_of(path),
    ensures
        validated(canonical_of(path)) is Ok,
        validated(canonical_of(validated(canonical_of(path))->Ok_0)) == validated(
            canonical_of(path),
        ),
{
}

/// A path loses its first four characters just where they are two backslashes, a
/// question mark and a backslash, and no `UNC` and a backslash follow; every
/// other path, and every other character, stays.
pub proof fn law_path_keeps_its_characters(path: Seq<char>)
    ensures
        ({
            let cut = path.len() >= 4 && path[0] == '\\' && path[1] == '\\' && path[2] == '?'
                && path[3] == '\\' && !(path.len() >= 8 && path[4] == 'U' && path[5] == 'N'
                && path[6] == 'C' && path[7] == '\\');
            let left = without_verbatim_prefix(path);
            &&& cut ==> left.len() == path.len() - 4
            &&& cut ==> forall|i: int| 0 <= i < left.len() ==> #[trigger] left[i] == path[i + 4]
            &&& !cut ==> left == path
        }),
{
}

/// A directory with a canonical path is worked with under that path, and one
/// without is refused with the reason.
pub proof fn law_only_canonical_paths_are_worked_with(
    canonical: Result<Seq<char>, Seq<char>>,
)
    ensures
        canonical is Ok <==> validated(canonical) is Ok,
        canonical is Ok && !is_verbatim(canonical->Ok_0) ==> validated(canonical) == canonical,
        canonical is Err ==> validated(canonical)->Err_0 == "Invalid or inaccessible path: "@
            + canonical->Err_0,
{
}

/// A result as characters keeps whether it is a path or an error, and its text.
pub proof fn law_outcome_keeps_its_text(r: Result<String, String>)
    ensures
        r matches Ok(path) ==> outcome_view(r) == Ok::<Seq<char>, Seq<char>>(path@),
        r matches Err(text) ==> outcome_view(r) == Err::<Seq<char>, Seq<char>>(text@),
{
}

} // verus!
