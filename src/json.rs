use vstd::prelude::*;

verus! {

#[verifier::external_type_specification]
#[verifier::external_body]
pub struct ExJsonError(serde_json::Error);

/// The text serde_json writes for a JSON object with the single entry
/// `key: value`.
pub uninterp spec fn json_flag_object(key: Seq<char>, value: bool) -> Seq<char>;

/// A key that JSON writes as it stands: no quote, no backslash and no
/// control character.
pub open spec fn plain_key(key: Seq<char>) -> bool {
    forall|i: int| 0 <= i < key.len() ==> #[trigger] key[i] != '"' && key[i] != '\\' && key[i] as u32 >= 0x20
}

/// The compact JSON text of the object `{key: value}`, for a plain key.
pub open spec fn flag_text(key: Seq<char>, value: bool) -> Seq<char> {
    "{\""@ + key + "\":"@ + (if value { "true"@ } else { "false"@ }) + "}"@
}

/// Relies on `serde_json::to_string` on a one-entry map from a string to a
/// boolean. It cannot fail there: string keys and booleans always serialize,
/// and writing into a `Vec` does not fail. The compact form quotes the key,
/// escaping only quotes, backslashes and control characters.
#[verifier::external_body]
pub(crate) fn flag_object(key: &str, value: bool) -> (r: Result<String, serde_json::Error>)
    ensures
        r is Ok,
        r matches Ok(s) ==> s@ == json_flag_object(key@, value),
        r matches Ok(s) ==> (plain_key(key@) ==> s@ == flag_text(key@, value)),
{
    let mut m = std::collections::HashMap::new();
    m.insert(key, value);
    serde_json::to_string(&m)
}

} // verus!
