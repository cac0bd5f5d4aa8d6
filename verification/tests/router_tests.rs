use edge_router::dispatch::{default_router, plan_request, Plan};
use edge_router::response::{Body, Response};
use edge_router::router::{Handler, Router};

fn body_text(r: &Response) -> &str {
    match &r.body {
        Body::Text(t) => t.as_str(),
        Body::Bytes(_) => panic!("expected a text body"),
    }
}

fn header(r: &Response, name: &str) -> Option<String> {
    r.headers
        .iter()
        .rev()
        .find(|(n, _)| n == name)
        .map(|(_, v)| v.clone())
}

#[test]
fn root_matches_home() {
    let router = default_router();
    match plan_request(&router, "GET", "/") {
        Plan::Respond(r) => {
            assert_eq!(r.status, 200);
            assert!(body_text(&r).contains("Hello from Workers!"));
        }
        _ => panic!("GET / must finish without outside work"),
    }
}

#[test]
fn empty_path_is_the_root() {
    let router = default_router();
    match plan_request(&router, "GET", "") {
        Plan::Respond(r) => assert_eq!(r.status, 200),
        _ => panic!("the empty path is the root"),
    }
}

#[test]
fn favicon_needs_an_asset_fetch() {
    let router = default_router();
    match plan_request(&router, "GET", "/favicon.ico") {
        Plan::FetchAsset { name } => assert_eq!(name, "favicon.ico"),
        _ => panic!("GET /favicon.ico must ask for an asset fetch"),
    }
}

#[test]
fn form_route_captures_the_field_name() {
    let router = default_router();
    match plan_request(&router, "POST", "/form/name") {
        Plan::ReadForm { field } => assert_eq!(field, "name"),
        _ => panic!("POST /form/name must ask for form data"),
    }
}

#[test]
fn version_route_asks_for_the_variable() {
    let router = default_router();
    match plan_request(&router, "GET", "/worker-version") {
        Plan::ReadVersion => {}
        _ => panic!("GET /worker-version must ask for the configured version"),
    }
}

#[test]
fn unknown_path_is_not_found() {
    let router = default_router();
    match plan_request(&router, "GET", "/no/such/route") {
        Plan::Respond(r) => {
            assert_eq!(r.status, 404);
            assert_eq!(body_text(&r), "Not Found");
        }
        _ => panic!("a routing miss is the fixed 404"),
    }
}

#[test]
fn method_comparison_is_exact() {
    let router = default_router();
    match plan_request(&router, "get", "/") {
        Plan::Respond(r) => assert_eq!(r.status, 404),
        _ => panic!("a lower-case method must not match GET"),
    }
    match plan_request(&router, "GET", "/form/name") {
        Plan::Respond(r) => assert_eq!(r.status, 404),
        _ => panic!("GET must not match the POST form route"),
    }
}

#[test]
fn registration_order_decides_overlap() {
    let mut router = Router::new();
    assert!(router.register("GET", "/overlap/:x", Handler::Home));
    assert!(router.register("GET", "/overlap/special", Handler::WorkerVersion));
    let m = router
        .find_route("GET", "/overlap/special")
        .expect("both routes match");
    assert_eq!(m.index, 0);
    assert_eq!(m.handler, Handler::Home);
    assert_eq!(m.params, vec![("x".to_string(), "special".to_string())]);
}

#[test]
fn wildcard_captures_the_joined_remainder() {
    let mut router = Router::new();
    assert!(router.register("GET", "/files/*rest", Handler::Home));
    let m = router.find_route("GET", "/files/a/b/c").expect("must match");
    assert_eq!(m.params, vec![("rest".to_string(), "a/b/c".to_string())]);
}

#[test]
fn wildcard_accepts_an_empty_remainder() {
    let mut router = Router::new();
    assert!(router.register("GET", "/files/*rest", Handler::Home));
    let m = router.find_route("GET", "/files").expect("must match");
    assert_eq!(m.params, vec![("rest".to_string(), "".to_string())]);
}

#[test]
fn wildcard_must_be_final() {
    let mut router = Router::new();
    assert!(!router.register("GET", "/files/*rest/tail", Handler::Home));
    assert!(router.find_route("GET", "/files/a/tail").is_none());
}

#[test]
fn trailing_segments_disqualify_without_wildcard() {
    let mut router = Router::new();
    assert!(router.register("GET", "/a/:b", Handler::Home));
    assert!(router.find_route("GET", "/a/x/y").is_none());
    assert!(router.find_route("GET", "/a").is_none());
}

#[test]
fn literals_are_case_sensitive() {
    let mut router = Router::new();
    assert!(router.register("GET", "/Exact", Handler::Home));
    assert!(router.find_route("GET", "/exact").is_none());
    assert!(router.find_route("GET", "/Exact").is_some());
}

#[test]
fn home_is_idempotent() {
    let router = default_router();
    let mut bodies: Vec<String> = Vec::new();
    let mut statuses: Vec<u16> = Vec::new();
    for _ in 0..3 {
        match plan_request(&router, "GET", "/") {
            Plan::Respond(r) => {
                statuses.push(r.status);
                bodies.push(body_text(&r).to_string());
            }
            _ => panic!("GET / must finish without outside work"),
        }
    }
    assert_eq!(bodies[0], bodies[1]);
    assert_eq!(bodies[1], bodies[2]);
    assert_eq!(statuses, vec![200, 200, 200]);
}

#[test]
fn home_sets_html_content_type() {
    let router = default_router();
    match plan_request(&router, "GET", "/") {
        Plan::Respond(r) => {
            assert_eq!(
                header(&r, "content-type").as_deref(),
                Some("text/html; charset=utf-8")
            );
        }
        _ => panic!("GET / must finish without outside work"),
    }
}
