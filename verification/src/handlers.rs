//! The handler-support logic: each function turns the plain outcome of
//! the surrounding runtime's work (an asset fetch, a parsed form, a
//! configuration lookup) into the one response the route owes.

use vstd::prelude::*;

use crate::json::json_one_of;
use crate::json::json_single;
use crate::response::BodyView;
use crate::response::Response;
use crate::response::ResponseView;
use crate::response::header_value;

verus! {

/// The fixed HTML page served at the root.
pub open spec fn home_html() -> Seq<char> {
    "<html><body><h2>Hello from Workers!</h2><img src='favicon.ico' /></body></html>"@
}

/// The one response the root route produces.
pub open spec fn home_response_view() -> ResponseView {
    ResponseView {
        status: 200,
        headers: seq![("content-type"@, "text/html; charset=utf-8"@)],
        body: BodyView::Text(home_html()),
    }
}

/// Serves the root: a fixed small HTML page. The response depends on
/// nothing — not the request, not its headers.
pub fn home_response() -> (r: Response)
    ensures
        r@ == home_response_view(),
        r@.status == 200,
        header_value(r@.headers, "content-type"@) == Some("text/html; charset=utf-8"@),
{
    let r = Response::from_html(
        "<html><body><h2>Hello from Workers!</h2><img src='favicon.ico' /></body></html>",
    );
    proof {
        assert(r@ =~= home_response_view());
    }
    r
}

/// Whether `needle` occurs contiguously inside `hay`.
pub open spec fn text_contains(hay: Seq<char>, needle: Seq<char>) -> bool {
    exists|k: int|
        0 <= k && k + needle.len() <= hay.len() && #[trigger] hay.subrange(k, k + needle.len())
            == needle
}

/// The root page always carries the greeting, whatever the request
/// looked like.
pub proof fn lemma_home_contains_greeting()
    ensures
        text_contains(home_html(), "Hello from Workers!"@),
{
    reveal_strlit("<html><body><h2>Hello from Workers!</h2><img src='favicon.ico' /></body></html>");
    reveal_strlit("Hello from Workers!");
    let needle = "Hello from Workers!"@;
    assert(needle.len() == 19);
    assert(home_html().subrange(16, 16 + needle.len() as int) =~= needle);
    assert(text_contains(home_html(), needle));
}

/// Serving the root is idempotent: any two responses it produces, in
/// any order and for any two requests, are identical byte for byte.
pub proof fn lemma_home_idempotent(r1: &Response, r2: &Response)
    requires
        r1@ == home_response_view(),
        r2@ == home_response_view(),
    ensures
        r1@ == r2@,
{
}

/// What the surrounding runtime's asset fetch came to, as the static
/// asset resolver sees it; each failure carries its detail text.
pub enum AssetOutcome {
    /// No key-value store is configured.
    StoreMissing(String),
    /// The asset name resolves to no store key.
    KeyMissing(String),
    /// The store lookup for the resolved key failed outright.
    FetchFailed(String),
    /// The store answered; an absent value counts as empty bytes, not
    /// as an error.
    Fetched(Option<Vec<u8>>),
}

/// Resolves a static asset fetch into a response: a missing store is a
/// configuration error (400), an unresolvable asset name a server error
/// (500), a failed lookup a miss (404); stored bytes come back verbatim
/// under `content-type: image/x-icon`.
pub fn favicon_response(outcome: AssetOutcome) -> (r: Response)
    ensures
        match outcome {
            AssetOutcome::StoreMissing(d) => r@.status == 400 && r@.body == BodyView::Text(
                "No site was configured: "@ + d@,
            ) && r@.headers.len() == 0,
            AssetOutcome::KeyMissing(d) => r@.status == 500 && r@.body == BodyView::Text(
                "Asset key not found: "@ + d@,
            ) && r@.headers.len() == 0,
            AssetOutcome::FetchFailed(d) => r@.status == 404 && r@.body == BodyView::Text(
                "Asset not found in KV: "@ + d@,
            ) && r@.headers.len() == 0,
            AssetOutcome::Fetched(b) => r@.status == 200 && r@.body == BodyView::Bytes(
                match b {
                    Some(bytes) => bytes@,
                    None => Seq::<u8>::empty(),
                },
            ) && header_value(r@.headers, "content-type"@) == Some("image/x-icon"@),
        },
{
    match outcome {
        AssetOutcome::StoreMissing(d) => Response::error(
            String::from_str("No site was configured: ").concat(d.as_str()),
            400,
        ),
        AssetOutcome::KeyMissing(d) => Response::error(
            String::from_str("Asset key not found: ").concat(d.as_str()),
            500,
        ),
        AssetOutcome::FetchFailed(d) => Response::error(
            String::from_str("Asset not found in KV: ").concat(d.as_str()),
            404,
        ),
        AssetOutcome::Fetched(b) => {
            let bytes = match b {
                Some(bytes) => bytes,
                None => Vec::new(),
            };
            let mut r = Response::from_bytes(bytes);
            r.set_header("content-type", "image/x-icon");
            r
        },
    }
}

/// A parsed form value: a plain text field, or a file upload carried
/// opaquely under its file name.
pub enum FormEntry {
    Field(String),
    File(String),
}

/// Resolves a form-field lookup into a response: a text value comes
/// back as the JSON object `{ name: value }`; a file where text was
/// required is a 422; an absent field is a 400.
pub fn form_field_response(name: &str, entry: Option<FormEntry>) -> (r: Response)
    ensures
        match entry {
            Some(FormEntry::Field(v)) => r@.status == 200 && r@.body == BodyView::Text(
                json_one_of(name@, v@),
            ) && header_value(r@.headers, "content-type"@) == Some("application/json"@),
            Some(FormEntry::File(_)) => r@.status == 422 && r@.body == BodyView::Text(
                "`field` param in form shouldn't be a File"@,
            ) && r@.headers.len() == 0,
            None => r@.status == 400 && r@.body == BodyView::Text("Bad Request"@)
                && r@.headers.len() == 0,
        },
{
    match entry {
        Some(FormEntry::Field(v)) => Response::from_json_text(json_single(name, v.as_str())),
        Some(FormEntry::File(_)) => Response::error(
            String::from_str("`field` param in form shouldn't be a File"),
            422,
        ),
        None => Response::error(String::from_str("Bad Request"), 400),
    }
}

/// Why a handler could not produce a response at all.
#[derive(Clone, Copy, PartialEq, Eq, Structural, Debug)]
pub enum ConfigError {
    /// A required configuration variable is not bound.
    MissingVariable,
}

/// Serves the configured version string verbatim; an unbound variable
/// fails the dispatch instead of answering with an empty body.
pub fn version_response(version: Option<String>) -> (r: Result<Response, ConfigError>)
    ensures
        match version {
            Some(v) => r matches Ok(resp) && resp@.status == 200 && resp@.body == BodyView::Text(
                v@,
            ) && header_value(resp@.headers, "content-type"@) == Some(
                "text/plain; charset=utf-8"@,
            ),
            None => r matches Err(e) && e == ConfigError::MissingVariable,
        },
{
    match version {
        Some(v) => Ok(Response::ok(v)),
        None => Err(ConfigError::MissingVariable),
    }
}

/// The router's terminal default when no route matches.
pub fn not_found_response() -> (r: Response)
    ensures
        r@.status == 404,
        r@.body == BodyView::Text("Not Found"@),
        r@.headers.len() == 0,
{
    Response::error(String::from_str("Not Found"), 404)
}

/// The generic rejection for a request whose shape the handler cannot
/// use.
pub fn bad_request_response() -> (r: Response)
    ensures
        r@.status == 400,
        r@.body == BodyView::Text("Bad Request"@),
        r@.headers.len() == 0,
{
    Response::error(String::from_str("Bad Request"), 400)
}

/// The outermost boundary's translation of an unexpected fault: a
/// generic 500, exercised once per request lifecycle.
pub fn internal_error_response() -> (r: Response)
    ensures
        r@.status == 500,
        r@.body == BodyView::Text("internal error"@),
        r@.headers.len() == 0,
{
    Response::error(String::from_str("internal error"), 500)
}

} // verus!
