//! The calls into `serde_json` and `uuid`, and what is taken on trust of them.

use vstd::prelude::*;

verus! {

/// The text that `serde_json` finds at `pointer` in the JSON document
/// `document`: `None` where the document does not parse, where nothing stands
/// at the pointer, or where what stands there is not a string.
pub uninterp spec fn json_text(document: Seq<char>, pointer: Seq<char>) -> Option<Seq<char>>;

/// Parses `document` with `serde_json::from_str`, follows `pointer` with
/// `Value::pointer` and takes the string there with `Value::as_str`. Claimed is
/// only that the result depends on the two texts alone, as `json_text`.
#[verifier::external_body]
pub(crate) fn json_text_at(document: &str, pointer: &str) -> (r: Option<String>)
    ensures
        r.deep_view() == json_text(document@, pointer@),
{
    let value = serde_json::from_str::<serde_json::Value>(document).ok()?;
    value.pointer(pointer)?.as_str().map(str::to_string)
}

/// The number that `serde_json` finds at `pointer` in the JSON document
/// `document`: `None` where the document does not parse, where nothing stands
/// at the pointer, or where what stands there is no integer in the range of `u64`.
pub uninterp spec fn json_number(document: Seq<char>, pointer: Seq<char>) -> Option<u64>;

/// Parses `document` with `serde_json::from_str`, follows `pointer` with
/// `Value::pointer` and takes the number there with `Value::as_u64`. Claimed is
/// only that the result depends on the two texts alone, as `json_number`.
#[verifier::external_body]
pub(crate) fn json_number_at(document: &str, pointer: &str) -> (r: Option<u64>)
    ensures
        r == json_number(document@, pointer@),
{
    let value = serde_json::from_str::<serde_json::Value>(document).ok()?;
    value.pointer(pointer)?.as_u64()
}

/// The list of strings that `serde_json` reads `document` as, or the text of
/// its error.
pub uninterp spec fn json_strings(document: Seq<char>) -> Result<Seq<Seq<char>>, Seq<char>>;

/// A list of strings, or an error text, as characters.
pub open spec fn strings_view(r: Result<Vec<String>, String>) -> Result<Seq<Seq<char>>, Seq<char>> {
    match r {
        Ok(list) => Ok(list.deep_view()),
        Err(text) => Err(text@),
    }
}

/// Parses `document` with `serde_json::from_str` as a list of strings; an error
/// becomes its text. Claimed is only that the result depends on the document
/// alone, as `json_strings`.
#[verifier::external_body]
pub(crate) fn json_string_list(document: &str) -> (r: Result<Vec<String>, String>)
    ensures
        strings_view(r) == json_strings(document@),
{
    serde_json::from_str::<Vec<String>>(document).map_err(|e| e.to_string())
}

/// Whether `c` is a lower-case hexadecimal digit.
pub open spec fn is_lower_hex(c: char) -> bool {
    '0' as int <= c as int <= '9' as int || 'a' as int <= c as int <= 'f' as int
}

/// Whether `s` is the hyphenated text of a random UUID: groups of eight, four,
/// four, four and twelve hexadecimal digits, the third group starting with the
/// version `4` and the fourth with one of the variant digits `8`, `9`, `a`, `b`.
pub open spec fn is_random_uuid(s: Seq<char>) -> bool {
    &&& s.len() == 36
    &&& forall|i: int|
        0 <= i < 36 ==> if i == 8 || i == 13 || i == 18 || i == 23 {
            #[trigger] s[i] == '-'
        } else {
            is_lower_hex(s[i])
        }
    &&& s[14] == '4'
    &&& (s[19] == '8' || s[19] == '9' || s[19] == 'a' || s[19] == 'b')
}

/// A random identifier from `uuid::Uuid::new_v4`, in the hyphenated lower-case
/// form in which `Uuid` displays. Which one comes out is chance: claimed is the
/// form that every one has. The call panics where the system gives no random
/// bytes, which no condition on its arguments can rule out.
#[verifier::external_body]
pub(crate) fn random_uuid() -> (r: String)
    ensures
        is_random_uuid(r@),
{
    uuid::Uuid::new_v4().to_string()
}

/// A random identifier is thirty-two lower-case hexadecimal digits in five groups
/// with hyphens between them, and says of itself that it is random.
pub proof fn law_random_identifier_has_its_form(s: Seq<char>)
    requires
        is_random_uuid(s),
    ensures
        s.len() == 36,
        s[8] == '-' && s[13] == '-' && s[18] == '-' && s[23] == '-',
        s[14] == '4',
        forall|i: int|
            0 <= i < 36 && i != 8 && i != 13 && i != 18 && i != 23 ==> ('0' as int
                <= #[trigger] s[i] as int && s[i] as int <= '9' as int) || ('a' as int
                <= s[i] as int && s[i] as int <= 'f' as int),
{
    assert forall|i: int| 0 <= i < 36 && i != 8 && i != 13 && i != 18 && i != 23 implies ('0' as int
        <= #[trigger] s[i] as int && s[i] as int <= '9' as int) || ('a' as int <= s[i] as int
        && s[i] as int <= 'f' as int) by {
        assert(is_lower_hex(s[i]));
    }
}

/// A list of strings, or an error, as characters keeps every string and the text.
pub proof fn law_strings_keep_their_text(r: Result<Vec<String>, String>)
    ensures
        r is Ok <==> strings_view(r) is Ok,
        r matches Ok(list) ==> strings_view(r)->Ok_0.len() == list@.len() && forall|i: int|
            0 <= i < list@.len() ==> #[trigger] strings_view(r)->Ok_0[i] == list@[i]@,
        r matches Err(text) ==> strings_view(r)->Err_0 == text@,
{
}

} // verus!
