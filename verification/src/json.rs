//! The JSON texts that travel in the payloads of requests and responses.

use vstd::prelude::*;

verus! {

/// The JSON text (a string literal) that `serde_json` writes for `text`.
pub uninterp spec fn json_string_literal(text: Seq<char>) -> Seq<char>;

/// What `serde_json` reads from the JSON text `text` as a string: the string,
/// or the message of the error.
pub uninterp spec fn json_string_reading(text: Seq<char>) -> Result<Seq<char>, Seq<char>>;

/// The texts of `parts`, separated by commas.
pub open spec fn comma_joined(parts: Seq<Seq<char>>) -> Seq<char>
    decreases parts.len(),
{
    if parts.len() == 0 {
        Seq::empty()
    } else if parts.len() == 1 {
        parts[0]
    } else {
        comma_joined(parts.drop_last()) + seq![','] + parts.last()
    }
}

/// A JSON array (compact, as `serde_json` writes it) of the given element
/// texts.
pub open spec fn json_array(elements: Seq<Seq<char>>) -> Seq<char> {
    seq!['['] + comma_joined(elements) + seq![']']
}

/// The JSON array of string literals that `serde_json` writes for a list of
/// strings.
pub open spec fn json_string_list(items: Seq<Seq<char>>) -> Seq<char> {
    json_array(items.map_values(|item: Seq<char>| json_string_literal(item)))
}

/// Writes `text` as a JSON string literal.
///
/// Calls `serde_json::to_string` on a string. Trusted: the text is the named
/// one, and reading it back as a string gives `text`. Serialising a string
/// into memory cannot fail (the serializer writes into a `Vec`), so the crate's
/// error is never returned.
#[verifier::external_body]
pub(crate) fn json_string_text(text: &str) -> (res: String)
    ensures
        res@ == json_string_literal(text@),
        json_string_reading(res@) is Ok,
        json_string_reading(res@)->Ok_0 == text@,
{
    serde_json::to_string(text).expect("serialising a string into memory cannot fail")
}

/// Reads the JSON text `text` as a string.
///
/// Calls `serde_json::from_str::<String>`, and turns its error into its
/// message. Trusted: the outcome is the named one.
#[verifier::external_body]
pub(crate) fn read_json_string(text: &str) -> (res: Result<String, String>)
    ensures
        match json_string_reading(text@) {
            Ok(s) => res matches Ok(r) && r@ == s,
            Err(m) => res matches Err(e) && e@ == m,
        },
{
    match serde_json::from_str::<String>(text) {
        Ok(s) => Ok(s),
        Err(e) => Err(e.to_string()),
    }
}

/// Writes a list of strings as a JSON array.
///
/// Calls `serde_json::to_string` on a `Vec<String>`. Trusted: the text is
/// `[`, the string literals of the items separated by `,`, then `]` (the
/// compact serializer's `begin_array`, `begin_array_value` and `end_array`).
/// Serialising strings into memory cannot fail, so the crate's error is never
/// returned.
#[verifier::external_body]
pub(crate) fn json_string_list_text(items: &Vec<String>) -> (res: String)
    ensures
        res@ == json_string_list(items.deep_view()),
{
    serde_json::to_string(items).expect("serialising strings into memory cannot fail")
}

/// Writes the unit value as JSON.
///
/// Calls `serde_json::to_string` on `()`. Trusted: the text is `null`, which
/// is what the crate's serializer writes for a unit value.
#[verifier::external_body]
pub(crate) fn json_unit_text() -> (res: String)
    ensures
        res@ == "null"@,
{
    serde_json::to_string(&()).expect("serialising the unit value into memory cannot fail")
}

/// Appends to `out` the elements of a JSON array, separated by commas, where
/// `out` already holds the first `done` of them.
pub(crate) fn push_array_element(out: &mut String, element: &str, done: usize)
    ensures
        done == 0 ==> final(out)@ == old(out)@ + element@,
        done > 0 ==> final(out)@ == old(out)@ + seq![','] + element@,
{
    if done > 0 {
        proof {
            reveal_strlit(",");
        }
        out.append(",");
    }
    out.append(element);
}

/// Joining one more part appends a comma, then the part.
pub(crate) proof fn comma_joined_push(parts: Seq<Seq<char>>, part: Seq<char>)
    ensures
        comma_joined(parts.push(part)) == if parts.len() == 0 {
            part
        } else {
            comma_joined(parts) + seq![','] + part
        },
{
    assert(parts.push(part).drop_last() =~= parts);
}

} // verus!
