//! Reading the JSON arrays that the external tool prints.
//!
//! The external tool answers its listing subcommands with a JSON array
//! of objects. The adapter only ever reads two string fields of each
//! element, so the parse is stated as a function from the output bytes
//! and the two field keys to a sequence of records of those fields.

use vstd::prelude::*;

verus! {

/// The view of an optional string.
pub open spec fn opt_text(o: Option<String>) -> Option<Seq<char>> {
    match o {
        Some(s) => Some(s@),
        None => None,
    }
}

/// The view of one parsed record: the two optional string fields.
pub open spec fn record_view(r: (Option<String>, Option<String>)) -> (
    Option<Seq<char>>,
    Option<Seq<char>>,
) {
    (opt_text(r.0), opt_text(r.1))
}

/// The view of a parsed record list.
pub open spec fn records_view(s: Seq<(Option<String>, Option<String>)>) -> Seq<
    (Option<Seq<char>>, Option<Seq<char>>),
> {
    s.map_values(|r: (Option<String>, Option<String>)| record_view(r))
}

/// What parsing the external tool's output as a JSON array yields for
/// given bytes and field keys: `Ok` with one record per array element
/// where the bytes are such an array — each record holding the two
/// requested fields where the element carries them as strings — and
/// `Err` with the parser's message otherwise.
pub uninterp spec fn json_string_records(bytes: Seq<u8>, key: Seq<char>, name_key: Seq<char>) -> Result<
    Seq<(Option<Seq<char>>, Option<Seq<char>>)>,
    Seq<char>,
>;

/// Relies on `serde_json::from_slice` and `serde_json::Value::get` /
/// `as_str`: whether the bytes parse as a JSON array, and which string
/// fields each element carries, depend on the bytes alone.
#[verifier::external_body]
pub(crate) fn parse_string_records(bytes: &[u8], key: &str, name_key: &str) -> (r: Result<
    Vec<(Option<String>, Option<String>)>,
    String,
>)
    ensures
        r is Ok <==> json_string_records(bytes@, key@, name_key@) is Ok,
        r is Ok ==> records_view(r->Ok_0@) == json_string_records(bytes@, key@, name_key@)->Ok_0,
        r is Err ==> r->Err_0@ == json_string_records(bytes@, key@, name_key@)->Err_0,
{
    let values: Vec<serde_json::Value> = match serde_json::from_slice(bytes) {
        Ok(v) => v,
        Err(e) => return Err(e.to_string()),
    };
    Ok(values
        .iter()
        .map(|v| {
            (
                v.get(key).and_then(serde_json::Value::as_str).map(str::to_string),
                v.get(name_key).and_then(serde_json::Value::as_str).map(str::to_string),
            )
        })
        .collect())
}

} // verus!
