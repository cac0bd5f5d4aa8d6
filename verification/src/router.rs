//! The handler registry and dispatcher's matching half: an ordered list
//! of (method, pattern, handler) bindings, matched against an inbound
//! request in registration order — the first match wins.

use vstd::prelude::*;

use crate::pattern::Segment;
use crate::pattern::captures_of;
use crate::pattern::compile_pattern;
use crate::pattern::compile_view;
use crate::pattern::match_segments;
use crate::pattern::pairs_view;
use crate::pattern::path_parts;
use crate::pattern::pattern_wf;
use crate::pattern::request_parts;
use crate::pattern::segs_match;
use crate::strutil::str_eq;

verus! {

/// The handler a route binds: the fixed set this edge worker serves.
#[derive(Clone, Copy, PartialEq, Eq, Structural, Debug)]
pub enum Handler {
    /// The fixed HTML page at the root.
    Home,
    /// The static asset resolver flow.
    Favicon,
    /// The form field extractor flow.
    FormField,
    /// The configured version string.
    WorkerVersion,
}

/// One registered binding. Immutable once registered; its position in
/// the table defines its match priority.
pub struct Route {
    pub method: String,
    pub segments: Vec<Segment>,
    pub handler: Handler,
}

/// Whether `route` matches the request method (exact, case-sensitive)
/// and the split request path.
pub open spec fn route_matches(route: Route, method: Seq<char>, path: Seq<Seq<char>>) -> bool {
    route.method@ == method && segs_match(route.segments.deep_view(), path)
}

/// The index of the first registered route that matches, if any:
/// registration order defines match priority.
pub open spec fn matched_index(routes: Seq<Route>, method: Seq<char>, path: Seq<Seq<char>>) -> Option<
    int,
>
    decreases routes.len(),
{
    if routes.len() == 0 {
        None::<int>
    } else if route_matches(routes[0], method, path) {
        Some(0 as int)
    } else {
        match matched_index(routes.skip(1), method, path) {
            None => None::<int>,
            Some(k) => Some(k + 1),
        }
    }
}

/// When no route matches, neither does the table.
pub proof fn lemma_matched_index_none(routes: Seq<Route>, method: Seq<char>, path: Seq<Seq<char>>)
    requires
        forall|k: int| 0 <= k < routes.len() ==> !route_matches(#[trigger] routes[k], method, path),
    ensures
        matched_index(routes, method, path) is None,
    decreases routes.len(),
{
    if routes.len() > 0 {
        assert(forall|k: int|
            0 <= k < routes.skip(1).len() ==> routes.skip(1)[k] == routes[k + 1]);
        lemma_matched_index_none(routes.skip(1), method, path);
    }
}

/// A route that matches, with none matching before it, is the winner.
pub proof fn lemma_matched_index_some(
    routes: Seq<Route>,
    method: Seq<char>,
    path: Seq<Seq<char>>,
    i: int,
)
    requires
        0 <= i < routes.len(),
        route_matches(routes[i], method, path),
        forall|k: int| 0 <= k < i ==> !route_matches(#[trigger] routes[k], method, path),
    ensures
        matched_index(routes, method, path) == Some(i),
    decreases routes.len(),
{
    if i > 0 {
        assert(forall|k: int|
            0 <= k < routes.skip(1).len() ==> routes.skip(1)[k] == routes[k + 1]);
        lemma_matched_index_some(routes.skip(1), method, path, i - 1);
    }
}

/// The winner is never later than any matching route.
pub proof fn lemma_matched_index_le(
    routes: Seq<Route>,
    method: Seq<char>,
    path: Seq<Seq<char>>,
    i: int,
)
    requires
        0 <= i < routes.len(),
        route_matches(routes[i], method, path),
    ensures
        matched_index(routes, method, path) matches Some(k) && 0 <= k <= i && route_matches(
            routes[k],
            method,
            path,
        ),
    decreases routes.len(),
{
    if !route_matches(routes[0], method, path) {
        assert(forall|k: int|
            0 <= k < routes.skip(1).len() ==> routes.skip(1)[k] == routes[k + 1]);
        lemma_matched_index_le(routes.skip(1), method, path, i - 1);
    }
}

/// Registration-order priority: of two overlapping routes, a request
/// matching both dispatches no later than the earlier one — in
/// particular, never to the later one.
pub proof fn lemma_first_match_priority(
    routes: Seq<Route>,
    method: Seq<char>,
    path: Seq<Seq<char>>,
    i: int,
    j: int,
)
    requires
        0 <= i < j < routes.len(),
        route_matches(routes[i], method, path),
        route_matches(routes[j], method, path),
    ensures
        matched_index(routes, method, path) matches Some(k) && k <= i && k != j && route_matches(
            routes[k],
            method,
            path,
        ),
{
    lemma_matched_index_le(routes, method, path, i);
}

/// The winning route's handler and captured parameters.
pub struct RouteMatch {
    pub index: usize,
    pub handler: Handler,
    pub params: Vec<(String, String)>,
}

/// The ordered route table.
pub struct Router {
    pub routes: Vec<Route>,
}

impl Router {
    /// An empty table: nothing matches yet.
    pub fn new() -> (r: Router)
        ensures
            r.routes@.len() == 0,
    {
        Router { routes: Vec::new() }
    }

    /// Compiles `pattern` and appends the binding; refuses (and leaves
    /// the table unchanged for) a template whose wildcard is not the
    /// final segment.
    pub fn register(&mut self, method: &str, pattern: &str, handler: Handler) -> (ok: bool)
        ensures
            ok <==> pattern_wf(compile_view(path_parts(pattern@))),
            ok ==> final(self).routes@.len() == old(self).routes@.len() + 1,
            ok ==> final(self).routes@.take(old(self).routes@.len() as int) == old(self).routes@,
            ok ==> final(self).routes@.last().method@ == method@,
            ok ==> final(self).routes@.last().segments.deep_view() == compile_view(
                path_parts(pattern@),
            ),
            ok ==> final(self).routes@.last().handler == handler,
            !ok ==> *final(self) == *old(self),
    {
        match compile_pattern(pattern) {
            None => false,
            Some(segments) => {
                self.routes.push(Route { method: method.to_owned(), segments, handler });
                proof {
                    assert(self.routes@.take(old(self).routes@.len() as int) =~= old(
                        self,
                    ).routes@);
                }
                true
            },
        }
    }

    /// Runs the pattern matcher over the table in registration order and
    /// returns the first route whose method and pattern both match, with
    /// the parameters it captured; `None` if no route qualifies.
    pub fn find_route(&self, method: &str, path: &str) -> (r: Option<RouteMatch>)
        ensures
            match r {
                None => matched_index(self.routes@, method@, path_parts(path@)) is None,
                Some(m) => {
                    &&& matched_index(self.routes@, method@, path_parts(path@)) == Some(
                        m.index as int,
                    )
                    &&& m.index < self.routes@.len()
                    &&& m.handler == self.routes@[m.index as int].handler
                    &&& pairs_view(m.params@) == captures_of(
                        self.routes@[m.index as int].segments.deep_view(),
                        path_parts(path@),
                    )
                },
            },
    {
        let parts = request_parts(path);
        let n = self.routes.len();
        let mut k: usize = 0;
        while k < n
            invariant
                n == self.routes.len(),
                k <= n,
                parts.deep_view() == path_parts(path@),
                forall|k2: int|
                    0 <= k2 < k ==> !route_matches(
                        #[trigger] self.routes@[k2],
                        method@,
                        path_parts(path@),
                    ),
            decreases n - k,
        {
            let route = &self.routes[k];
            let method_ok = str_eq(route.method.as_str(), method);
            if method_ok {
                match match_segments(&route.segments, &parts) {
                    Some(params) => {
                        proof {
                            lemma_matched_index_some(
                                self.routes@,
                                method@,
                                path_parts(path@),
                                k as int,
                            );
                        }
                        return Some(
                            RouteMatch { index: k, handler: route.handler, params },
                        );
                    },
                    None => {},
                }
            }
            k += 1;
        }
        proof {
            lemma_matched_index_none(self.routes@, method@, path_parts(path@));
        }
        None
    }
}

} // verus!
