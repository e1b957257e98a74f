use seroost_server::handlers::{
    plan_search, search_reply, serve_api_search, serve_api_stats, serve_page, serve_script,
    serve_without_index, top_results, BodyRead, SearchStep, MAX_RESULTS, PAGE_CONTENT_TYPE, SCRIPT_CONTENT_TYPE,
};
use seroost_server::json::{hit_json, hits_json, stats_json, SearchHit};
use seroost_server::reply::{
    as_api_reply, serve_400, serve_404, serve_500, serve_bytes, serve_json, Reply,
};
use seroost_server::route::{route, same_text, Method, Route};
use seroost_server::server::{next_step, ServerAction, ServerEvent, ServerState};

fn hit(location: &str, score: &str) -> SearchHit {
    SearchHit { location: location.to_string(), score: score.to_string() }
}

fn body_text(r: &Reply) -> String {
    String::from_utf8(r.body.clone()).unwrap()
}

#[test]
fn routes_known_pairs() {
    assert_eq!(route(Method::Post, "/api/search"), Route::ApiSearch);
    assert_eq!(route(Method::Get, "/api/stats"), Route::ApiStats);
    assert_eq!(route(Method::Get, "/index.js"), Route::Script);
    assert_eq!(route(Method::Get, "/"), Route::Page);
    assert_eq!(route(Method::Get, "/index.html"), Route::Page);
}

#[test]
fn routes_unknown_pairs_to_not_found() {
    assert_eq!(route(Method::Get, "/api/search"), Route::NotFound);
    assert_eq!(route(Method::Post, "/api/stats"), Route::NotFound);
    assert_eq!(route(Method::Post, "/"), Route::NotFound);
    assert_eq!(route(Method::Other, "/index.js"), Route::NotFound);
    assert_eq!(route(Method::Get, "/index.htm"), Route::NotFound);
    assert_eq!(route(Method::Get, "/api/stats/"), Route::NotFound);
    assert_eq!(route(Method::Get, ""), Route::NotFound);
    let r = serve_404();
    assert_eq!(r.status, 404);
    assert_eq!(r.content_type.as_deref(), Some("text/plain; charset=UTF-8"));
    assert_eq!(body_text(&r), "404");
}

#[test]
fn same_text_compares_characters() {
    assert!(same_text("/é", "/é"));
    assert!(!same_text("/é", "/e"));
    assert!(!same_text("/a", "/ab"));
    assert!(same_text("", ""));
}

#[test]
fn failure_replies() {
    let r = serve_500();
    assert_eq!((r.status, body_text(&r)), (500, "500".to_string()));
    assert_eq!(r.content_type.as_deref(), Some("text/plain; charset=UTF-8"));
    let r = serve_400("bad input");
    assert_eq!(r.status, 400);
    assert_eq!(r.content_type.as_deref(), Some("text/plain; charset=UTF-8"));
    assert_eq!(body_text(&r), "400: bad input");
}

#[test]
fn byte_and_json_replies() {
    let r = serve_bytes(&[0, 255, 7], "application/octet-stream");
    assert_eq!(r.status, 200);
    assert_eq!(r.content_type.as_deref(), Some("application/octet-stream"));
    assert_eq!(r.body, vec![0, 255, 7]);
    let r = serve_json("[]");
    assert_eq!(r.content_type.as_deref(), Some("application/json"));
    assert_eq!(body_text(&r), "[]");
}

#[test]
fn page_and_alias_replies_are_identical() {
    let page = b"<html>hi</html>";
    assert_eq!(route(Method::Get, "/"), route(Method::Get, "/index.html"));
    let a = serve_page(page);
    let b = serve_page(page);
    assert_eq!(a.status, b.status);
    assert_eq!(a.content_type, b.content_type);
    assert_eq!(a.body, b.body);
    assert_eq!(a.content_type.as_deref(), Some("text/html; charset=utf-8"));
    assert_eq!(PAGE_CONTENT_TYPE, "text/html; charset=utf-8");
    assert_eq!(a.body, page.to_vec());
}

#[test]
fn script_reply() {
    let r = serve_script(b"let x = 1;");
    assert_eq!(r.status, 200);
    assert_eq!(r.content_type.as_deref(), Some(SCRIPT_CONTENT_TYPE));
    assert_eq!(r.body, b"let x = 1;".to_vec());
}

#[test]
fn stats_reply_carries_counts() {
    assert_eq!(stats_json(3, 12).unwrap(), "{\"docs_count\":3,\"terms_count\":12}");
    let r = serve_api_stats(0, 0);
    assert_eq!(r.status, 200);
    assert_eq!(r.content_type.as_deref(), Some("application/json"));
    assert_eq!(body_text(&r), "{\"docs_count\":0,\"terms_count\":0}");
    let r = serve_api_stats(usize::MAX, 1057);
    assert_eq!(body_text(&r), format!("{{\"docs_count\":{},\"terms_count\":1057}}", usize::MAX));
}

#[test]
fn hit_json_escapes_location() {
    let s = hit_json(&hit("dir/a\"b\\c.txt", "0.5")).unwrap();
    assert_eq!(s, "{\"location\":\"dir/a\\\"b\\\\c.txt\",\"score\":0.5}");
}

#[test]
fn hits_json_keeps_order() {
    assert_eq!(hits_json(&vec![]).unwrap(), "[]");
    let hits = vec![hit("a.txt", "2.0"), hit("b.txt", "1.5"), hit("c.txt", "0.25")];
    assert_eq!(
        hits_json(&hits).unwrap(),
        "[{\"location\":\"a.txt\",\"score\":2.0},{\"location\":\"b.txt\",\"score\":1.5},\
         {\"location\":\"c.txt\",\"score\":0.25}]"
    );
}

#[test]
fn top_results_truncates_to_twenty() {
    let v: Vec<u32> = (0..35).collect();
    let t = top_results(v);
    assert_eq!(t.len(), MAX_RESULTS);
    assert_eq!(t, (0..20).collect::<Vec<u32>>());
    assert_eq!(top_results(vec![5u32, 4, 3]), vec![5, 4, 3]);
    let exact: Vec<u32> = (0..20).collect();
    assert_eq!(top_results(exact.clone()), exact);
    assert_eq!(top_results(Vec::<u32>::new()), Vec::<u32>::new());
}

#[test]
fn search_reply_shows_at_most_twenty_in_rank_order() {
    let hits: Vec<SearchHit> = (0..25).map(|i| hit(&format!("doc{i}"), &format!("{}", 100 - i))).collect();
    let r = search_reply(hits);
    assert_eq!(r.status, 200);
    assert_eq!(r.content_type.as_deref(), Some("application/json"));
    let text = body_text(&r);
    assert_eq!(text.matches("\"location\"").count(), 20);
    assert!(text.starts_with("[{\"location\":\"doc0\",\"score\":100}"));
    assert!(text.ends_with("{\"location\":\"doc19\",\"score\":81}]"));
    assert!(!text.contains("doc20"));
}

#[test]
fn search_reply_with_no_hits_is_empty_array() {
    let r = search_reply(vec![]);
    assert_eq!(r.status, 200);
    assert_eq!(body_text(&r), "[]");
}

#[test]
fn plan_search_decodes_whole_body() {
    match plan_search(BodyRead::Received("two words\nline é".as_bytes().to_vec())) {
        SearchStep::Query(q) => assert_eq!(q, "two words\nline é"),
        SearchStep::Respond(_) => panic!("expected a query"),
    }
}

#[test]
fn plan_search_empty_body_is_empty_query() {
    match plan_search(BodyRead::Received(vec![])) {
        SearchStep::Query(q) => assert_eq!(q, ""),
        SearchStep::Respond(_) => panic!("expected a query"),
    }
}

#[test]
fn plan_search_rejects_invalid_utf8() {
    for bytes in [vec![0xff], vec![b'a', 0xc3], vec![0xed, 0xa0, 0x80], vec![0xc0, 0x80]] {
        match plan_search(BodyRead::Received(bytes)) {
            SearchStep::Respond(r) => {
                assert_eq!(r.status, 400);
                assert_eq!(r.content_type.as_deref(), Some("application/json"));
                assert_eq!(body_text(&r), "400: Body must be a valid UTF-8 string");
            }
            SearchStep::Query(_) => panic!("expected a 400"),
        }
    }
}

#[test]
fn plan_search_read_failure_is_500() {
    match plan_search(BodyRead::Failed) {
        SearchStep::Respond(r) => {
            assert_eq!(r.status, 500);
            assert_eq!(r.content_type.as_deref(), Some("application/json"));
            assert_eq!(body_text(&r), "500");
        }
        SearchStep::Query(_) => panic!("expected a 500"),
    }
}

#[test]
fn loop_survives_failed_request() {
    let (s, a) = next_step(ServerState::Binding, ServerEvent::Bound);
    assert_eq!((s, a), (ServerState::Listening, ServerAction::Announce));
    let (s, a) = next_step(s, ServerEvent::RequestFailed);
    assert_eq!((s, a), (ServerState::Listening, ServerAction::LogFailureAndAccept));
    let (s, a) = next_step(s, ServerEvent::RequestServed);
    assert_eq!((s, a), (ServerState::Listening, ServerAction::Accept));
    let (s, a) = next_step(s, ServerEvent::ListenerClosed);
    assert_eq!((s, a), (ServerState::Stopped, ServerAction::ReportShutdown));
    assert_eq!(next_step(s, ServerEvent::RequestServed), (ServerState::Stopped, ServerAction::Halt));
}

#[test]
fn loop_stops_when_bind_fails() {
    assert_eq!(
        next_step(ServerState::Binding, ServerEvent::BindFailed),
        (ServerState::Stopped, ServerAction::ReportBindFailure)
    );
}

#[test]
fn without_index_answers_static_and_missing_routes() {
    let page: &[u8] = b"<p>page</p>";
    let script: &[u8] = b"run();";
    assert!(serve_without_index(Route::ApiSearch, page, script).is_none());
    assert!(serve_without_index(Route::ApiStats, page, script).is_none());
    let r = serve_without_index(route(Method::Get, "/index.js"), page, script).unwrap();
    assert_eq!((r.status, r.content_type.as_deref()), (200, Some("text/javascript; charset=utf-8")));
    assert_eq!(r.body, script.to_vec());
    let root = serve_without_index(route(Method::Get, "/"), page, script).unwrap();
    let alias = serve_without_index(route(Method::Get, "/index.html"), page, script).unwrap();
    assert_eq!((root.status, &root.content_type, &root.body), (alias.status, &alias.content_type, &alias.body));
    assert_eq!(root.body, page.to_vec());
    let missing = serve_without_index(route(Method::Other, "/api/search"), page, script).unwrap();
    assert_eq!(missing.status, 404);
    assert_eq!(missing.content_type.as_deref(), Some("text/plain; charset=UTF-8"));
    assert_eq!(body_text(&missing), "404");
}

#[test]
fn hit_json_escapes_control_characters() {
    let s = hit_json(&hit("a\u{1}b\x08\t\n\x0c\r\u{1f}é\u{7f}", "1")).unwrap();
    assert_eq!(s, "{\"location\":\"a\\u0001b\\b\\t\\n\\f\\r\\u001fé\u{7f}\",\"score\":1}");
}

#[test]
fn api_errors_are_marked_json() {
    let r = as_api_reply(serve_500());
    assert_eq!((r.status, r.content_type.as_deref()), (500, Some("application/json")));
    assert_eq!(body_text(&r), "500");
}

#[test]
fn search_handler_rejects_invalid_utf8_without_query() {
    let mut asked = false;
    let r = serve_api_search(BodyRead::Received(vec![b'q', 0xff]), |_q: String| {
        asked = true;
        vec![hit("x", "1")]
    });
    assert!(!asked);
    assert_eq!(r.status, 400);
    assert_eq!(r.content_type.as_deref(), Some("application/json"));
    assert_eq!(body_text(&r), "400: Body must be a valid UTF-8 string");
}

#[test]
fn search_handler_failed_read_is_500_without_query() {
    let mut asked = false;
    let r = serve_api_search(BodyRead::Failed, |_q: String| {
        asked = true;
        vec![]
    });
    assert!(!asked);
    assert_eq!((r.status, r.content_type.as_deref()), (500, Some("application/json")));
    assert_eq!(body_text(&r), "500");
}

#[test]
fn search_handler_passes_empty_query_to_index() {
    let mut seen: Option<String> = None;
    let r = serve_api_search(BodyRead::Received(vec![]), |q: String| {
        seen = Some(q);
        vec![]
    });
    assert_eq!(seen.as_deref(), Some(""));
    assert_eq!((r.status, r.content_type.as_deref()), (200, Some("application/json")));
    assert_eq!(body_text(&r), "[]");
}

#[test]
fn search_handler_answers_with_top_matches() {
    let mut seen: Option<String> = None;
    let r = serve_api_search(BodyRead::Received("rust verus".as_bytes().to_vec()), |q: String| {
        seen = Some(q);
        (0..30).map(|i| hit(&format!("f{i}"), &format!("{}", 30 - i))).collect()
    });
    assert_eq!(seen.as_deref(), Some("rust verus"));
    assert_eq!(r.status, 200);
    let text = body_text(&r);
    assert_eq!(text.matches("\"location\"").count(), 20);
    assert!(text.starts_with("[{\"location\":\"f0\",\"score\":30},"));
}
