use vstd::prelude::*;

verus! {

/// Whether the text parses as a JSON document.
pub uninterp spec fn json_ok(s: Seq<char>) -> bool;

/// The canonical re-serialization of a JSON text: the text produced by
/// parsing `s` and emitting the parsed value again.
pub uninterp spec fn json_canon_of(s: Seq<char>) -> Seq<char>;

/// The description of the parse error produced for a non-JSON text.
pub uninterp spec fn json_err_of(s: Seq<char>) -> Seq<char>;

/// The JSON array encoding of a sequence of strings.
pub uninterp spec fn json_array_of(keys: Seq<Seq<char>>) -> Seq<u8>;

/// Relies on `serde_json::from_str::<Value>` and `serde_json::to_string`:
/// whether a text parses, the re-serialization of the parsed value, and the
/// parse error's description each depend on the text alone, and the
/// re-serialized text is itself valid JSON.
#[verifier::external_body]
pub(crate) fn json_canonicalize(s: &str) -> (r: Result<String, String>)
    ensures
        r is Ok <==> json_ok(s@),
        r matches Ok(c) ==> c@ == json_canon_of(s@) && json_ok(json_canon_of(s@)),
        r matches Err(e) ==> e@ == json_err_of(s@),
{
    match serde_json::from_str::<serde_json::Value>(s) {
        Ok(v) => Ok(serde_json::to_string(&v).unwrap_or_default()),
        Err(e) => Err(e.to_string()),
    }
}

/// Relies on `serde_json::to_vec` on a `Vec<String>`: the encoding depends
/// on the strings alone, and an empty vector encodes as the two bytes `[]`.
#[verifier::external_body]
pub(crate) fn keys_to_json(keys: &Vec<String>) -> (r: Vec<u8>)
    ensures
        r@ == json_array_of(keys.deep_view()),
        keys@.len() == 0 ==> r@ == seq!['[' as u8, ']' as u8],
{
    serde_json::to_vec(keys).unwrap_or_default()
}

} // verus!
