pub mod json;
pub mod laws;
pub mod router;
pub mod store;
pub mod text;
pub mod urlq;

use vstd::prelude::*;

use crate::json::json_canon_of;
use crate::json::json_canonicalize;
use crate::json::json_err_of;
use crate::json::json_ok;
use crate::store::store_json_inv;
use crate::store::store_inv;
use crate::store::store_key_order;
use crate::store::store_map;
use crate::store::ConfigStore;
use crate::text::trim;
use crate::text::trim_of;
use vstd::string::StringExecFns;

verus! {

/// The write entry point: trims the version label, validates the document as
/// JSON, and stores its canonical re-serialization under the trimmed label.
/// Both outcomes are reported as a descriptive message; a rejected document
/// leaves the store untouched.
pub fn add(store: &mut ConfigStore, version: String, config: String) -> (r: String)
    ensures
        json_ok(config@) ==> store_map(*final(store)) == store_map(*old(store)).insert(
            trim_of(version@),
            json_canon_of(config@),
        ),
        json_ok(config@) ==> store_inv(*final(store)),
        json_ok(config@) ==> r@ == "Added config for version "@ + trim_of(version@),
        !json_ok(config@) ==> store_map(*final(store)) == store_map(*old(store)),
        !json_ok(config@) ==> store_key_order(*final(store)) == store_key_order(*old(store)),
        !json_ok(config@) ==> r@ == "Invalid JSON: "@ + json_err_of(config@),
        store_json_inv(*old(store)) ==> store_json_inv(*final(store)),
{
    let trimmed = trim(version.as_str());
    match json_canonicalize(config.as_str()) {
        Ok(canon) => {
            let msg = String::from_str("Added config for version ").concat(trimmed.as_str());
            store.put_config(trimmed, canon);
            msg
        },
        Err(e) => String::from_str("Invalid JSON: ").concat(e.as_str()),
    }
}

} // verus!
