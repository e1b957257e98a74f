use vstd::prelude::*;

verus! {

/// The request methods the router tells apart.
#[derive(Clone, Copy, Debug, PartialEq, Eq, Structural)]
pub enum Method {
    Get,
    Post,
    Other,
}

/// The handler a request is sent to.
#[derive(Clone, Copy, Debug, PartialEq, Eq, Structural)]
pub enum Route {
    ApiSearch,
    ApiStats,
    Script,
    Page,
    NotFound,
}

/// The route of a (method, path) pair: exact match on both, no prefixes.
pub open spec fn route_of(method: Method, path: Seq<char>) -> Route {
    if method == Method::Post && path == "/api/search"@ {
        Route::ApiSearch
    } else if method == Method::Get && path == "/api/stats"@ {
        Route::ApiStats
    } else if method == Method::Get && path == "/index.js"@ {
        Route::Script
    } else if method == Method::Get && (path == "/"@ || path == "/index.html"@) {
        Route::Page
    } else {
        Route::NotFound
    }
}

/// Whether a (method, path) pair is one of the five known routes.
pub open spec fn is_known_route(method: Method, path: Seq<char>) -> bool {
    ||| (method == Method::Post && path == "/api/search"@)
    ||| (method == Method::Get && path == "/api/stats"@)
    ||| (method == Method::Get && path == "/index.js"@)
    ||| (method == Method::Get && path == "/"@)
    ||| (method == Method::Get && path == "/index.html"@)
}

/// Character-by-character equality of two strings.
pub fn same_text(a: &str, b: &str) -> (r: bool)
    ensures
        r == (a@ == b@),
{
    let n = a.unicode_len();
    if n != b.unicode_len() {
        return false;
    }
    let mut i: usize = 0;
    while i < n
        invariant
            n == a@.len(),
            n == b@.len(),
            i <= n,
            forall|j: int| 0 <= j < i ==> a@[j] == b@[j],
        decreases n - i,
    {
        if a.get_char(i) != b.get_char(i) {
            return false;
        }
        i = i + 1;
    }
    assert(a@ =~= b@);
    true
}

/// Picks the handler for a request.
pub fn route(method: Method, path: &str) -> (r: Route)
    ensures
        r == route_of(method, path@),
{
    match method {
        Method::Post => {
            if same_text(path, "/api/search") {
                Route::ApiSearch
            } else {
                Route::NotFound
            }
        },
        Method::Get => {
            if same_text(path, "/api/stats") {
                Route::ApiStats
            } else if same_text(path, "/index.js") {
                Route::Script
            } else if same_text(path, "/") || same_text(path, "/index.html") {
                Route::Page
            } else {
                Route::NotFound
            }
        },
        Method::Other => Route::NotFound,
    }
}

/// A pair outside the five known routes goes to the not-found handler, and a
/// known one never does.
pub proof fn lemma_unknown_routes_not_found(method: Method, path: Seq<char>)
    ensures
        (route_of(method, path) == Route::NotFound) == !is_known_route(method, path),
{
    reveal_strlit("/api/search");
    reveal_strlit("/api/stats");
    reveal_strlit("/index.js");
    reveal_strlit("/");
    reveal_strlit("/index.html");
}

/// The root path and its `/index.html` alias reach the same handler.
pub proof fn lemma_page_alias()
    ensures
        route_of(Method::Get, "/"@) == route_of(Method::Get, "/index.html"@),
        route_of(Method::Get, "/"@) == Route::Page,
{
    reveal_strlit("/api/stats");
    reveal_strlit("/index.js");
    reveal_strlit("/");
    reveal_strlit("/index.html");
    assert("/"@.len() == 1 && "/index.html"@.len() == 11);
    assert("/api/stats"@.len() == 10 && "/index.js"@.len() == 9);
}

} // verus!
