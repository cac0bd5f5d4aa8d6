//! The dispatcher's decision step: given the inbound method and path it
//! either finishes the request (a fixed page, a routing miss, a missing
//! parameter) or names the one outside effect the matched handler needs
//! before the handler-support functions can finish it.

use vstd::prelude::*;

use crate::handlers::bad_request_response;
use crate::handlers::home_response;
use crate::handlers::home_response_view;
use crate::handlers::not_found_response;
use crate::pattern::captures_of;
use crate::pattern::pairs_view;
use crate::pattern::path_parts;
use crate::response::BodyView;
use crate::response::Response;
use crate::router::Handler;
use crate::router::Route;
use crate::router::Router;
use crate::router::matched_index;

verus! {

/// The value a parameter name resolved to: captured parameter names are
/// unique, so the first entry under a name decides.
pub open spec fn param_lookup(pairs: Seq<(Seq<char>, Seq<char>)>, name: Seq<char>) -> Option<
    Seq<char>,
>
    decreases pairs.len(),
{
    if pairs.len() == 0 {
        None::<Seq<char>>
    } else if pairs[0].0 == name {
        Some(pairs[0].1)
    } else {
        param_lookup(pairs.skip(1), name)
    }
}

/// Looks a captured parameter up by name.
pub fn lookup_param(params: &Vec<(String, String)>, name: &str) -> (r: Option<String>)
    ensures
        match r {
            Some(v) => param_lookup(pairs_view(params@), name@) == Some(v@),
            None => param_lookup(pairs_view(params@), name@) is None,
        },
{
    let ghost pv = pairs_view(params@);
    proof {
        assert(pv.skip(0) =~= pv);
    }
    let n = params.len();
    let mut i: usize = 0;
    while i < n
        invariant
            n == params.len(),
            i <= n,
            pv == pairs_view(params@),
            pv.len() == n,
            param_lookup(pv, name@) == param_lookup(pv.skip(i as int), name@),
        decreases n - i,
    {
        proof {
            assert(pv.skip(i as int)[0] == (params@[i as int].0@, params@[i as int].1@));
            assert(pv.skip(i as int).skip(1) =~= pv.skip(i + 1));
        }
        if crate::strutil::str_eq(params[i].0.as_str(), name) {
            return Some(params[i].1.clone());
        }
        i += 1;
    }
    proof {
        assert(pv.skip(n as int) =~= Seq::<(Seq<char>, Seq<char>)>::empty());
    }
    None
}

/// What the dispatcher decided for one inbound request: a finished
/// response, or the single outside effect the matched handler needs.
pub enum Plan {
    /// The response is already decided.
    Respond(Response),
    /// Fetch the named asset from the key-value store.
    FetchAsset { name: String },
    /// Parse the request body as form data and extract the named field.
    ReadForm { field: String },
    /// Look the configured version string up.
    ReadVersion,
}

/// What a correct plan for the given table, method and split path is.
pub open spec fn plan_ok(routes: Seq<Route>, method: Seq<char>, path: Seq<Seq<char>>, r: Plan) -> bool {
    match matched_index(routes, method, path) {
        None => r matches Plan::Respond(resp) && resp@.status == 404 && resp@.body
            == BodyView::Text("Not Found"@),
        Some(i) => {
            let caps = captures_of(routes[i].segments.deep_view(), path);
            match routes[i].handler {
                Handler::Home => r matches Plan::Respond(resp) && resp@ == home_response_view(),
                Handler::Favicon => r matches Plan::FetchAsset { name } && name@
                    == "favicon.ico"@,
                Handler::FormField => match param_lookup(caps, "field"@) {
                    Some(v) => r matches Plan::ReadForm { field } && field@ == v,
                    None => r matches Plan::Respond(resp) && resp@.status == 400 && resp@.body
                        == BodyView::Text("Bad Request"@),
                },
                Handler::WorkerVersion => r matches Plan::ReadVersion,
            }
        },
    }
}

/// Decides one inbound request against the table: the first matching
/// route's handler runs, and a routing miss is the fixed 404. Exactly
/// one plan is produced per request.
pub fn plan_request(router: &Router, method: &str, path: &str) -> (r: Plan)
    ensures
        plan_ok(router.routes@, method@, path_parts(path@), r),
{
    match router.find_route(method, path) {
        None => Plan::Respond(not_found_response()),
        Some(m) => match m.handler {
            Handler::Home => Plan::Respond(home_response()),
            Handler::Favicon => Plan::FetchAsset { name: String::from_str("favicon.ico") },
            Handler::FormField => match lookup_param(&m.params, "field") {
                Some(v) => Plan::ReadForm { field: v },
                None => Plan::Respond(bad_request_response()),
            },
            Handler::WorkerVersion => Plan::ReadVersion,
        },
    }
}

/// The route table this worker serves, in priority order: the root page,
/// the favicon asset, the form extractor, the version string.
pub fn default_router() -> (r: Router)
    ensures
        r.routes@.len() == 4,
        r.routes@[0].method@ == "GET"@ && r.routes@[0].handler == Handler::Home,
        r.routes@[1].method@ == "GET"@ && r.routes@[1].handler == Handler::Favicon,
        r.routes@[2].method@ == "POST"@ && r.routes@[2].handler == Handler::FormField,
        r.routes@[3].method@ == "GET"@ && r.routes@[3].handler == Handler::WorkerVersion,
        r.routes@[0].segments.deep_view() =~= seq![
            crate::pattern::SegmentView::Literal(""@),
        ],
        r.routes@[1].segments.deep_view() =~= seq![
            crate::pattern::SegmentView::Literal("favicon.ico"@),
        ],
        r.routes@[2].segments.deep_view() =~= seq![
            crate::pattern::SegmentView::Literal("form"@),
            crate::pattern::SegmentView::Param("field"@),
        ],
        r.routes@[3].segments.deep_view() =~= seq![
            crate::pattern::SegmentView::Literal("worker-version"@),
        ],
{
    let mut routes: Vec<Route> = Vec::new();

    let mut home_segs: Vec<crate::pattern::Segment> = Vec::new();
    home_segs.push(crate::pattern::Segment::Literal(String::new()));
    routes.push(
        Route { method: String::from_str("GET"), segments: home_segs, handler: Handler::Home },
    );

    let mut icon_segs: Vec<crate::pattern::Segment> = Vec::new();
    icon_segs.push(crate::pattern::Segment::Literal(String::from_str("favicon.ico")));
    routes.push(
        Route {
            method: String::from_str("GET"),
            segments: icon_segs,
            handler: Handler::Favicon,
        },
    );

    let mut form_segs: Vec<crate::pattern::Segment> = Vec::new();
    form_segs.push(crate::pattern::Segment::Literal(String::from_str("form")));
    form_segs.push(crate::pattern::Segment::Param(String::from_str("field")));
    routes.push(
        Route {
            method: String::from_str("POST"),
            segments: form_segs,
            handler: Handler::FormField,
        },
    );

    let mut version_segs: Vec<crate::pattern::Segment> = Vec::new();
    version_segs.push(crate::pattern::Segment::Literal(String::from_str("worker-version")));
    routes.push(
        Route {
            method: String::from_str("GET"),
            segments: version_segs,
            handler: Handler::WorkerVersion,
        },
    );

    proof {
        reveal_strlit("");
        assert(Seq::<char>::empty() =~= ""@);
        assert(routes@[0].segments.deep_view() =~= seq![
            crate::pattern::SegmentView::Literal(""@),
        ]);
        assert(routes@[1].segments.deep_view() =~= seq![
            crate::pattern::SegmentView::Literal("favicon.ico"@),
        ]);
        assert(routes@[2].segments.deep_view() =~= seq![
            crate::pattern::SegmentView::Literal("form"@),
            crate::pattern::SegmentView::Param("field"@),
        ]);
        assert(routes@[3].segments.deep_view() =~= seq![
            crate::pattern::SegmentView::Literal("worker-version"@),
        ]);
    }
    Router { routes }
}

} // verus!
