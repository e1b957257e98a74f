use vstd::prelude::*;
use vstd::utf8::{decode_utf8, valid_utf8};

use crate::json::{hits_json, hits_text, stats_json, stats_text, SearchHit};
use crate::reply::{
    as_api_reply, bad_request_text, is_api_error, is_json, is_plain, is_typed, serve_400, serve_404, serve_500, serve_bytes,
    serve_json, Reply,
};
use crate::route::{
    is_known_route, lemma_page_alias, lemma_unknown_routes_not_found, route_of, Method, Route,
};

verus! {

/// The most matches a search reply carries.
pub const MAX_RESULTS: usize = 20;

/// The message of the reply to a body that is not UTF-8.
pub const NOT_UTF8_MESSAGE: &'static str = "Body must be a valid UTF-8 string";

/// The content type of the page served at `/` and `/index.html`.
pub const PAGE_CONTENT_TYPE: &'static str = "text/html; charset=utf-8";

/// The content type of the script served at `/index.js`.
pub const SCRIPT_CONTENT_TYPE: &'static str = "text/javascript; charset=utf-8";

/// What came of reading a request body.
pub enum BodyRead {
    Failed,
    Received(Vec<u8>),
}

/// What the search handler does next: answer at once, or query the index.
pub enum SearchStep {
    Respond(Reply),
    Query(String),
}

/// The first `MAX_RESULTS` entries of `s` (all of them if there are fewer).
pub open spec fn shown<T>(s: Seq<T>) -> Seq<T> {
    if s.len() <= MAX_RESULTS {
        s
    } else {
        s.take(MAX_RESULTS as int)
    }
}

/// Relies on `std::str::from_utf8`: the bytes are accepted exactly when they
/// are valid UTF-8, and then read as the characters they encode.
#[verifier::external_body]
fn utf8_text(bytes: &[u8]) -> (r: Option<&str>)
    ensures
        r is Some == valid_utf8(bytes@),
        r is Some ==> r.unwrap()@ == decode_utf8(bytes@),
{
    std::str::from_utf8(bytes).ok()
}

/// Decides the first part of a search: a failed read is a 500, a body that is
/// not UTF-8 a 400, and any other body is the query, decoded whole.
pub fn plan_search(body: BodyRead) -> (r: SearchStep)
    ensures
        match body {
            BodyRead::Failed => (r matches SearchStep::Respond(rep) && is_api_error(
                rep,
                500,
                "500"@,
            )),
            BodyRead::Received(b) => if valid_utf8(b@) {
                (r matches SearchStep::Query(q) && q@ == decode_utf8(b@))
            } else {
                (r matches SearchStep::Respond(rep) && is_api_error(
                    rep,
                    400,
                    bad_request_text(NOT_UTF8_MESSAGE@),
                ))
            },
        },
{
    match body {
        BodyRead::Failed => SearchStep::Respond(as_api_reply(serve_500())),
        BodyRead::Received(bytes) => match utf8_text(bytes.as_slice()) {
            Some(text) => SearchStep::Query(text.to_owned()),
            None => SearchStep::Respond(as_api_reply(serve_400(NOT_UTF8_MESSAGE))),
        },
    }
}

/// Keeps the first `MAX_RESULTS` results, in the order given.
pub fn top_results<T>(results: Vec<T>) -> (r: Vec<T>)
    ensures
        r@ == shown(results@),
{
    let mut kept = results;
    kept.truncate(MAX_RESULTS);
    kept
}

/// Answers a search with the index's ranked matches: the first
/// `MAX_RESULTS` of them, in order, as a JSON array.
pub fn search_reply(hits: Vec<SearchHit>) -> (r: Reply)
    ensures
        is_json(r, hits_text(shown(hits@))),
{
    let top = top_results(hits);
    match hits_json(&top) {
        Some(json) => serve_json(json.as_str()),
        None => as_api_reply(serve_500()),
    }
}

/// Handles a search request from its body to its reply. `search` asks the
/// index. It need accept nothing but the whole decoded text of a body that was
/// read and is UTF-8, so it is never called on a failed read (a 500) or on a
/// body that is not UTF-8 (a 400).
pub fn serve_api_search<F: FnOnce(String) -> Vec<SearchHit>>(body: BodyRead, search: F) -> (r:
    Reply)
    requires
        forall|q: String|
            (body matches BodyRead::Received(b) && valid_utf8(b@) && q@ == decode_utf8(b@))
                ==> #[trigger] search.requires((q,)),
    ensures
        match body {
            BodyRead::Failed => is_api_error(r, 500, "500"@),
            BodyRead::Received(b) => if valid_utf8(b@) {
                exists|q: String, hits: Vec<SearchHit>|
                    q@ == decode_utf8(b@) && #[trigger] search.ensures((q,), hits) && is_json(
                        r,
                        hits_text(shown(hits@)),
                    )
            } else {
                is_api_error(r, 400, bad_request_text(NOT_UTF8_MESSAGE@))
            },
        },
{
    match plan_search(body) {
        SearchStep::Respond(reply) => reply,
        SearchStep::Query(query) => {
            let ghost asked = query;
            let hits = search(query);
            let ghost found = hits;
            let r = search_reply(hits);
            assert(search.ensures((asked,), found));
            r
        },
    }
}

/// Answers a stats request with the index's document and term counts, read
/// together, as a JSON object.
pub fn serve_api_stats(docs_count: usize, terms_count: usize) -> (r: Reply)
    ensures
        is_json(r, stats_text(docs_count as nat, terms_count as nat)),
{
    match stats_json(docs_count, terms_count) {
        Some(json) => serve_json(json.as_str()),
        None => as_api_reply(serve_500()),
    }
}

/// Serves the page's bytes verbatim as HTML.
pub fn serve_page(page: &[u8]) -> (r: Reply)
    ensures
        is_typed(r, PAGE_CONTENT_TYPE@, page@),
{
    serve_bytes(page, PAGE_CONTENT_TYPE)
}

/// Serves the script's bytes verbatim as JavaScript.
pub fn serve_script(script: &[u8]) -> (r: Reply)
    ensures
        is_typed(r, SCRIPT_CONTENT_TYPE@, script@),
{
    serve_bytes(script, SCRIPT_CONTENT_TYPE)
}

/// What `serve_without_index` answers on a route: nothing for the two API
/// routes, the files verbatim for the static routes, and the fixed 404 reply
/// for everything else.
pub open spec fn without_index_reply(route: Route, page: Seq<u8>, script: Seq<u8>, r: Option<Reply>) -> bool {
    match route {
        Route::ApiSearch => r is None,
        Route::ApiStats => r is None,
        Route::Script => (r matches Some(rep) && is_typed(rep, SCRIPT_CONTENT_TYPE@, script)),
        Route::Page => (r matches Some(rep) && is_typed(rep, PAGE_CONTENT_TYPE@, page)),
        Route::NotFound => (r matches Some(rep) && is_plain(rep, 404, "404"@)),
    }
}

/// Answers the routes that need no index; the API routes get `None`.
pub fn serve_without_index(route: Route, page: &[u8], script: &[u8]) -> (r: Option<Reply>)
    ensures
        without_index_reply(route, page@, script@, r),
{
    match route {
        Route::ApiSearch => None,
        Route::ApiStats => None,
        Route::Script => Some(serve_script(script)),
        Route::Page => Some(serve_page(page)),
        Route::NotFound => Some(serve_404()),
    }
}

/// A request outside the five known routes is answered with status 404 and
/// the body `404`, and never reaches the index.
pub proof fn lemma_unknown_requests_get_404(
    method: Method,
    path: Seq<char>,
    page: Seq<u8>,
    script: Seq<u8>,
    r: Option<Reply>,
)
    requires
        !is_known_route(method, path),
        without_index_reply(route_of(method, path), page, script, r),
    ensures
        r matches Some(rep) && is_plain(rep, 404, "404"@),
{
    lemma_unknown_routes_not_found(method, path);
}

/// `GET /` and `GET /index.html` are answered with the same status, the same
/// `Content-Type` and byte-identical bodies.
pub proof fn lemma_page_alias_replies_match(
    page: Seq<u8>,
    script: Seq<u8>,
    root: Option<Reply>,
    alias: Option<Reply>,
)
    requires
        without_index_reply(route_of(Method::Get, "/"@), page, script, root),
        without_index_reply(route_of(Method::Get, "/index.html"@), page, script, alias),
    ensures
        root is Some && alias is Some,
        root.unwrap().status == alias.unwrap().status,
        root.unwrap().content_type.unwrap()@ == alias.unwrap().content_type.unwrap()@,
        root.unwrap().body@ == alias.unwrap().body@,
{
    lemma_page_alias();
}

/// What a search reply shows is a prefix of the index's ranking: at most
/// `MAX_RESULTS` entries, no more than the index returned, each at the rank
/// the index gave it, so a ranking best-first stays best-first.
pub proof fn lemma_shown_is_ranked_prefix<T>(results: Seq<T>)
    ensures
        shown(results).len() <= MAX_RESULTS,
        shown(results).len() <= results.len(),
        results.len() <= MAX_RESULTS ==> shown(results).len() == results.len(),
        forall|i: int| 0 <= i < shown(results).len() ==> #[trigger] shown(results)[i] == results[i],
{
}

} // verus!
