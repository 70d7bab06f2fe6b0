use vstd::prelude::*;
use vstd::utf8::encode_utf8;

use crate::json::json_array_of;
use crate::json::json_canon_of;
use crate::json::json_ok;
use crate::router::error_response;
use crate::router::json_header;
use crate::router::last_param;
use crate::router::ok_outcome;
use crate::router::render_outcome;
use crate::router::spec_dispatch;
use crate::router::spec_http;
use crate::router::RespSpec;
use crate::text::trim_of;

verus! {

/// Law: for every store contents, adding a valid JSON document under a
/// version label and then dispatching a `/config` read whose `version`
/// parameter equals the trimmed label yields status 200 with the document's
/// canonical re-serialization as body.
pub proof fn lemma_add_then_read_config(
    m: Map<Seq<char>, Seq<char>>,
    keys: Seq<Seq<char>>,
    v: Seq<char>,
    d: Seq<char>,
)
    ensures
        json_ok(d) ==> spec_dispatch(
            "/config"@,
            seq![("version"@, trim_of(v))],
            keys,
            m.insert(trim_of(v), json_canon_of(d)),
        ) == ok_outcome(
            (RespSpec {
                status: 200,
                headers: json_header(),
                body: encode_utf8(json_canon_of(d)),
            }),
        ),
{
    if json_ok(d) {
        reveal_strlit("/config");
        reveal_strlit("/versions");
        assert("/config"@.len() == 7);
        assert("/versions"@.len() == 9);
        let pairs = seq![("version"@, trim_of(v))];
        assert(pairs.last() == ("version"@, trim_of(v)));
        assert(last_param(pairs, "version"@) == Some(trim_of(v)));
        let m2 = m.insert(trim_of(v), json_canon_of(d));
        assert(m2.dom().contains(trim_of(v)));
        assert(m2[trim_of(v)] == json_canon_of(d));
    }
}

/// Law: a `/config` read without a `version` parameter is turned away with
/// the uniform 404 failure response, whatever the store holds.
pub proof fn lemma_config_missing_param_404(
    pairs: Seq<(Seq<char>, Seq<char>)>,
    keys: Seq<Seq<char>>,
    m: Map<Seq<char>, Seq<char>>,
)
    ensures
        last_param(pairs, "version"@) is None ==> render_outcome(
            spec_dispatch("/config"@, pairs, keys, m),
        ) == error_response("Required parameter is missing: version"@),
{
    reveal_strlit("/config");
    reveal_strlit("/versions");
    assert("/config"@.len() == 7);
    assert("/versions"@.len() == 9);
}

/// Law: a `/config` read whose `version` parameter names a label absent from
/// the store is turned away with the uniform 404 failure response.
pub proof fn lemma_config_unknown_version_404(
    pairs: Seq<(Seq<char>, Seq<char>)>,
    keys: Seq<Seq<char>>,
    m: Map<Seq<char>, Seq<char>>,
    ver: Seq<char>,
)
    ensures
        (last_param(pairs, "version"@) == Some(ver) && !m.dom().contains(ver)) ==> render_outcome(
            spec_dispatch("/config"@, pairs, keys, m),
        ) == error_response("Config not found for version: "@ + ver),
{
    reveal_strlit("/config");
    reveal_strlit("/versions");
    assert("/config"@.len() == 7);
    assert("/versions"@.len() == 9);
}

/// Law: a read of any path other than `/versions` and `/config` is turned
/// away with the uniform 404 failure response, whatever the store holds.
pub proof fn lemma_unsupported_path_404(
    path: Seq<char>,
    pairs: Seq<(Seq<char>, Seq<char>)>,
    keys: Seq<Seq<char>>,
    m: Map<Seq<char>, Seq<char>>,
)
    ensures
        (path != "/versions"@ && path != "/config"@) ==> render_outcome(
            spec_dispatch(path, pairs, keys, m),
        ) == error_response("Unsupported path: "@ + path),
{
}

/// Law: a `/versions` read always succeeds, with status 200, the JSON
/// header, and the JSON array encoding of the store's key list as body.
pub proof fn lemma_versions_200(
    pairs: Seq<(Seq<char>, Seq<char>)>,
    keys: Seq<Seq<char>>,
    m: Map<Seq<char>, Seq<char>>,
)
    ensures
        render_outcome(spec_dispatch("/versions"@, pairs, keys, m)) == (RespSpec {
            status: 200,
            headers: json_header(),
            body: json_array_of(keys),
        }),
{
}

/// Law: the response to a read is a function of the request text and the
/// store's contents alone, so repeating a read against an unchanged store
/// yields an identical response.
pub proof fn lemma_read_idempotent(
    url: Seq<char>,
    keys: Seq<Seq<char>>,
    m: Map<Seq<char>, Seq<char>>,
    r1: RespSpec,
    r2: RespSpec,
)
    ensures
        (r1 == spec_http(url, keys, m) && r2 == spec_http(url, keys, m)) ==> r1 == r2,
{
}

} // verus!

