use edge_router::handlers::{
    bad_request_response, favicon_response, form_field_response, home_response,
    internal_error_response, not_found_response, version_response, AssetOutcome, ConfigError,
    FormEntry,
};
use edge_router::response::{Body, Response};

fn body_text(r: &Response) -> &str {
    match &r.body {
        Body::Text(t) => t.as_str(),
        Body::Bytes(_) => panic!("expected a text body"),
    }
}

fn body_bytes(r: &Response) -> &[u8] {
    match &r.body {
        Body::Bytes(b) => b.as_slice(),
        Body::Text(_) => panic!("expected a byte body"),
    }
}

fn header(r: &Response, name: &str) -> Option<String> {
    r.headers
        .iter()
        .rev()
        .find(|(n, _)| n == name)
        .map(|(_, v)| v.clone())
}

#[test]
fn home_page_greets() {
    let r = home_response();
    assert_eq!(r.status, 200);
    assert!(body_text(&r).contains("Hello from Workers!"));
}

#[test]
fn favicon_without_a_store_is_a_client_error() {
    let r = favicon_response(AssetOutcome::StoreMissing("kv binding missing".to_string()));
    assert_eq!(r.status, 400);
    assert_eq!(body_text(&r), "No site was configured: kv binding missing");
}

#[test]
fn favicon_without_a_key_is_a_server_error() {
    let r = favicon_response(AssetOutcome::KeyMissing("no mapping".to_string()));
    assert_eq!(r.status, 500);
    assert_eq!(body_text(&r), "Asset key not found: no mapping");
}

#[test]
fn favicon_lookup_failure_is_a_miss() {
    let r = favicon_response(AssetOutcome::FetchFailed("expired".to_string()));
    assert_eq!(r.status, 404);
    assert_eq!(body_text(&r), "Asset not found in KV: expired");
}

#[test]
fn favicon_bytes_come_back_verbatim() {
    let stored = vec![0u8, 1, 2, 3, 255];
    let r = favicon_response(AssetOutcome::Fetched(Some(stored.clone())));
    assert_eq!(r.status, 200);
    assert_eq!(body_bytes(&r), stored.as_slice());
    assert_eq!(header(&r, "content-type").as_deref(), Some("image/x-icon"));
}

#[test]
fn favicon_absent_value_is_empty_not_an_error() {
    let r = favicon_response(AssetOutcome::Fetched(None));
    assert_eq!(r.status, 200);
    assert_eq!(body_bytes(&r), &[] as &[u8]);
    assert_eq!(header(&r, "content-type").as_deref(), Some("image/x-icon"));
}

#[test]
fn form_text_field_becomes_json() {
    let r = form_field_response("name", Some(FormEntry::Field("Alice".to_string())));
    assert_eq!(r.status, 200);
    assert_eq!(body_text(&r), "{\"name\":\"Alice\"}");
    assert_eq!(header(&r, "content-type").as_deref(), Some("application/json"));
}

#[test]
fn form_json_escapes_the_value() {
    let r = form_field_response("name", Some(FormEntry::Field("say \"hi\"".to_string())));
    assert_eq!(r.status, 200);
    assert_eq!(body_text(&r), "{\"name\":\"say \\\"hi\\\"\"}");
}

#[test]
fn form_file_where_text_expected_is_unprocessable() {
    let r = form_field_response("name", Some(FormEntry::File("avatar.png".to_string())));
    assert_eq!(r.status, 422);
    assert_eq!(body_text(&r), "`field` param in form shouldn't be a File");
}

#[test]
fn form_absent_field_is_a_bad_request() {
    let r = form_field_response("name", None);
    assert_eq!(r.status, 400);
    assert_eq!(body_text(&r), "Bad Request");
}

#[test]
fn version_comes_back_verbatim() {
    let r = version_response(Some("0.1.0".to_string())).expect("a bound variable answers");
    assert_eq!(r.status, 200);
    assert_eq!(body_text(&r), "0.1.0");
}

#[test]
fn unbound_version_fails_the_dispatch() {
    let e = version_response(None).expect_err("an unbound variable must fail");
    assert_eq!(e, ConfigError::MissingVariable);
}

#[test]
fn fixed_fallback_responses() {
    let nf = not_found_response();
    assert_eq!(nf.status, 404);
    assert_eq!(body_text(&nf), "Not Found");
    let br = bad_request_response();
    assert_eq!(br.status, 400);
    assert_eq!(body_text(&br), "Bad Request");
    let ie = internal_error_response();
    assert_eq!(ie.status, 500);
}
