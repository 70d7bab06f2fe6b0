use vstd::prelude::*;
use vstd::string::*;
use vstd::utf8::encode_utf8;

use crate::json::json_array_of;
use crate::json::keys_to_json;
use crate::store::store_key_order;
use crate::store::store_map;
use crate::store::ConfigStore;
use crate::text::str_bytes;
use crate::urlq::parse_request_url;
use crate::urlq::url_ok;
use crate::urlq::url_path_of;
use crate::urlq::url_query_pairs_of;

verus! {

/// An inbound request: HTTP GET semantics modelled as plain values. Method,
/// headers and body play no part in routing.
pub struct HttpRequest {
    pub method: String,
    pub url: String,
    pub headers: Vec<(String, String)>,
    pub body: Vec<u8>,
}

/// An outbound response: status code, headers and body bytes.
pub struct HttpResponse {
    pub status_code: u16,
    pub headers: Vec<(String, String)>,
    pub body: Vec<u8>,
}

/// The mathematical shape of a response.
pub struct RespSpec {
    pub status: int,
    pub headers: Seq<(Seq<char>, Seq<char>)>,
    pub body: Seq<u8>,
}

/// What a response holds, as a `RespSpec`.
pub open spec fn resp_view(r: HttpResponse) -> RespSpec {
    RespSpec { status: r.status_code as int, headers: r.headers.deep_view(), body: r.body@ }
}

/// The reason a read request was turned away.
pub enum RouteError {
    UrlParse,
    MissingVersionParam,
    VersionNotFound { version: String },
    UnsupportedPath { path: String },
}

/// The description carried by each routing error.
pub open spec fn spec_message(e: RouteError) -> Seq<char> {
    match e {
        RouteError::UrlParse => "Failed to parse URL"@,
        RouteError::MissingVersionParam => "Required parameter is missing: version"@,
        RouteError::VersionNotFound { version } => "Config not found for version: "@ + version@,
        RouteError::UnsupportedPath { path } => "Unsupported path: "@ + path@,
    }
}

impl RouteError {
    /// Renders the error as its description.
    pub fn message(&self) -> (r: String)
        ensures
            r@ == spec_message(*self),
    {
        match self {
            RouteError::UrlParse => String::from_str("Failed to parse URL"),
            RouteError::MissingVersionParam => String::from_str(
                "Required parameter is missing: version",
            ),
            RouteError::VersionNotFound { version } => String::from_str(
                "Config not found for version: ",
            ).concat(version.as_str()),
            RouteError::UnsupportedPath { path } => String::from_str("Unsupported path: ").concat(
                path.as_str(),
            ),
        }
    }
}

/// The single header of a successful response.
pub open spec fn json_header() -> Seq<(Seq<char>, Seq<char>)> {
    seq![("Content-Type"@, "application/json"@)]
}

/// The single header of a failure response.
pub open spec fn html_header() -> Seq<(Seq<char>, Seq<char>)> {
    seq![("Content-Type"@, "text/html"@)]
}

/// Builds a `Content-Type` header field carrying the given MIME type.
pub fn content_type(value: &str) -> (r: (String, String))
    ensures
        r.0@ == "Content-Type"@,
        r.1@ == value@,
{
    (String::from_str("Content-Type"), String::from_str(value))
}

fn make_json_headers() -> (r: Vec<(String, String)>)
    ensures
        r.deep_view() == json_header(),
{
    let mut v: Vec<(String, String)> = Vec::new();
    v.push(content_type("application/json"));
    proof {
        assert(v.deep_view() =~= json_header());
    }
    v
}

fn make_html_headers() -> (r: Vec<(String, String)>)
    ensures
        r.deep_view() == html_header(),
{
    let mut v: Vec<(String, String)> = Vec::new();
    v.push(content_type("text/html"));
    proof {
        assert(v.deep_view() =~= html_header());
    }
    v
}

/// The value of the last query pair named `name`, if any: on duplicate
/// parameter names the last occurrence wins.
pub open spec fn last_param(pairs: Seq<(Seq<char>, Seq<char>)>, name: Seq<char>) -> Option<
    Seq<char>,
>
    decreases pairs.len(),
{
    if pairs.len() == 0 {
        None
    } else if pairs.last().0 == name {
        Some(pairs.last().1)
    } else {
        last_param(pairs.drop_last(), name)
    }
}

/// Looks a parameter up among the decoded query pairs; the last occurrence
/// of the name wins.
pub fn lookup_param(pairs: &Vec<(String, String)>, name: &String) -> (r: Option<String>)
    ensures
        r is Some <==> last_param(pairs.deep_view(), name@) is Some,
        r matches Some(v) ==> last_param(pairs.deep_view(), name@) == Some(v@),
{
    let ghost all = pairs.deep_view();
    proof {
        assert(all.take(pairs@.len() as int) =~= all);
    }
    let mut i: usize = pairs.len();
    while i > 0
        invariant
            i <= pairs@.len(),
            all == pairs.deep_view(),
            last_param(all, name@) == last_param(all.take(i as int), name@),
        decreases i,
    {
        i = i - 1;
        proof {
            assert(all.take(i as int + 1).last() == all[i as int]);
            assert(all.take(i as int + 1).drop_last() =~= all.take(i as int));
        }
        if pairs[i].0 == *name {
            proof {
                assert(all.take(i as int + 1).last().0 == name@);
                assert(last_param(all.take(i as int + 1), name@) == Some(all[i as int].1));
            }
            return Some(pairs[i].1.clone());
        }
    }
    None
}

/// The outcome of dispatching a parsed request against the store's contents:
/// a response, or the description of a failure.
pub open spec fn spec_dispatch(
    path: Seq<char>,
    pairs: Seq<(Seq<char>, Seq<char>)>,
    keys: Seq<Seq<char>>,
    m: Map<Seq<char>, Seq<char>>,
) -> Result<RespSpec, Seq<char>> {
    if path == "/versions"@ {
        Ok(RespSpec { status: 200, headers: json_header(), body: json_array_of(keys) })
    } else if path == "/config"@ {
        match last_param(pairs, "version"@) {
            None => Err("Required parameter is missing: version"@),
            Some(v) => if m.dom().contains(v) {
                Ok(RespSpec { status: 200, headers: json_header(), body: encode_utf8(m[v]) })
            } else {
                Err("Config not found for version: "@ + v)
            },
        }
    } else {
        Err("Unsupported path: "@ + path)
    }
}

/// The outcome of a whole read request: URL parsing, then dispatch.
pub open spec fn spec_outcome(
    url: Seq<char>,
    keys: Seq<Seq<char>>,
    m: Map<Seq<char>, Seq<char>>,
) -> Result<RespSpec, Seq<char>> {
    if url_ok(url) {
        spec_dispatch(url_path_of(url), url_query_pairs_of(url), keys, m)
    } else {
        Err("Failed to parse URL"@)
    }
}

/// A successful outcome.
pub open spec fn ok_outcome(r: RespSpec) -> Result<RespSpec, Seq<char>> {
    Ok(r)
}

/// A failed outcome carrying its description.
pub open spec fn err_outcome(msg: Seq<char>) -> Result<RespSpec, Seq<char>> {
    Err(msg)
}

/// A failure description shaped as the uniform 404 response.
pub open spec fn error_response(msg: Seq<char>) -> RespSpec {
    RespSpec { status: 404, headers: html_header(), body: encode_utf8("Error: "@ + msg) }
}

/// The response that a read request receives: the successful outcome, or the
/// failure shaped as a 404.
pub open spec fn render_outcome(out: Result<RespSpec, Seq<char>>) -> RespSpec {
    match out {
        Ok(t) => t,
        Err(msg) => error_response(msg),
    }
}

/// The response of a whole read request, as a function of the request text
/// and the store's contents.
pub open spec fn spec_http(url: Seq<char>, keys: Seq<Seq<char>>, m: Map<Seq<char>, Seq<char>>) -> RespSpec {
    render_outcome(spec_outcome(url, keys, m))
}

/// Dispatches a parsed path and query against the store.
pub fn dispatch(path: &String, pairs: &Vec<(String, String)>, store: &ConfigStore) -> (r: Result<
    HttpResponse,
    RouteError,
>)
    ensures
        r matches Ok(resp) ==> spec_dispatch(
            path@,
            pairs.deep_view(),
            store_key_order(*store),
            store_map(*store),
        ) == ok_outcome(resp_view(resp)),
        r matches Err(e) ==> spec_dispatch(
            path@,
            pairs.deep_view(),
            store_key_order(*store),
            store_map(*store),
        ) == err_outcome(spec_message(e)),
{
    if *path == String::from_str("/versions") {
        let keys = store.get_keys();
        let body = keys_to_json(&keys);
        Ok(HttpResponse { status_code: 200, headers: make_json_headers(), body })
    } else if *path == String::from_str("/config") {
        match lookup_param(pairs, &String::from_str("version")) {
            Some(ver) => match store.get_config(ver.clone()) {
                Some(cfg) => {
                    let body = str_bytes(cfg.as_str());
                    Ok(HttpResponse { status_code: 200, headers: make_json_headers(), body })
                },
                None => Err(RouteError::VersionNotFound { version: ver }),
            },
            None => Err(RouteError::MissingVersionParam),
        }
    } else {
        Err(RouteError::UnsupportedPath { path: path.clone() })
    }
}

/// Routes a read request: parses the URL, then dispatches.
pub fn http_request_impl(req: &HttpRequest, store: &ConfigStore) -> (r: Result<
    HttpResponse,
    RouteError,
>)
    ensures
        r matches Ok(resp) ==> spec_outcome(
            req.url@,
            store_key_order(*store),
            store_map(*store),
        ) == ok_outcome(resp_view(resp)),
        r matches Err(e) ==> spec_outcome(
            req.url@,
            store_key_order(*store),
            store_map(*store),
        ) == err_outcome(spec_message(e)),
{
    match parse_request_url(req.url.as_str()) {
        Some(pq) => dispatch(&pq.0, &pq.1, store),
        None => Err(RouteError::UrlParse),
    }
}

/// The read entry point: always returns a response, a 404 carrying the
/// failure's description where routing failed.
pub fn http_request(req: &HttpRequest, store: &ConfigStore) -> (r: HttpResponse)
    ensures
        resp_view(r) == spec_http(req.url@, store_key_order(*store), store_map(*store)),
{
    match http_request_impl(req, store) {
        Ok(resp) => resp,
        Err(e) => {
            let msg = String::from_str("Error: ").concat(e.message().as_str());
            let body = str_bytes(msg.as_str());
            HttpResponse { status_code: 404, headers: make_html_headers(), body }
        },
    }
}

} // verus!
