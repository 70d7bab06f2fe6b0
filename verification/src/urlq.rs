use vstd::prelude::*;

verus! {

/// Whether the request text, placed after the fixed base `https://localhost`,
/// parses as a URL.
pub uninterp spec fn url_ok(s: Seq<char>) -> bool;

/// The path component of the parsed request URL.
pub uninterp spec fn url_path_of(s: Seq<char>) -> Seq<char>;

/// The percent-decoded query pairs of the parsed request URL, in order of
/// appearance.
pub uninterp spec fn url_query_pairs_of(s: Seq<char>) -> Seq<(Seq<char>, Seq<char>)>;

/// Relies on `url::Url::parse` with the fixed base `https://localhost`, and
/// on `Url::path` and `Url::query_pairs`: success, the parsed path, and the
/// decoded query pairs in order of appearance all depend on the request text
/// alone.
#[verifier::external_body]
pub(crate) fn parse_request_url(raw: &str) -> (r: Option<(String, Vec<(String, String)>)>)
    ensures
        r is Some <==> url_ok(raw@),
        r matches Some(pq) ==> pq.0@ == url_path_of(raw@) && pq.1.deep_view()
            == url_query_pairs_of(raw@),
{
    match url::Url::parse(&format!("https://localhost{}", raw)) {
        Ok(u) => {
            let path = u.path().to_string();
            let pairs: Vec<(String, String)> = u.query_pairs().into_owned().collect();
            Some((path, pairs))
        },
        Err(_) => None,
    }
}

} // verus!
