//! Path patterns: a pattern is an ordered list of segment specifiers
//! (literal, named parameter, wildcard), compiled from a template string
//! such as `/form/:field` or `/static/*rest` and matched pairwise against
//! the segments of a request path.

use vstd::prelude::*;

use crate::strutil::join_path;
use crate::strutil::join_slash;
use crate::strutil::split_path;
use crate::strutil::split_slash;
use crate::strutil::str_eq;

verus! {

/// One compiled component of a path pattern.
pub enum Segment {
    /// Must equal the corresponding path segment exactly (case-sensitive).
    Literal(String),
    /// Consumes exactly one path segment and binds it under the given name.
    Param(String),
    /// Consumes all remaining path segments (joined with `/`) under the
    /// given name; only legal as the final segment.
    Wildcard(String),
}

/// The mathematical model of a [`Segment`].
pub ghost enum SegmentView {
    Literal(Seq<char>),
    Param(Seq<char>),
    Wildcard(Seq<char>),
}

impl View for Segment {
    type V = SegmentView;

    open spec fn view(&self) -> SegmentView {
        match self {
            Segment::Literal(s) => SegmentView::Literal(s@),
            Segment::Param(s) => SegmentView::Param(s@),
            Segment::Wildcard(s) => SegmentView::Wildcard(s@),
        }
    }
}

impl DeepView for Segment {
    type V = SegmentView;

    open spec fn deep_view(&self) -> SegmentView {
        self.view()
    }
}

/// How one template segment compiles: a leading `:` names a parameter,
/// a leading `*` names a wildcard, anything else is a literal.
pub open spec fn compile_seg(s: Seq<char>) -> SegmentView {
    if s.len() > 0 && s[0] == ':' {
        SegmentView::Param(s.skip(1))
    } else if s.len() > 0 && s[0] == '*' {
        SegmentView::Wildcard(s.skip(1))
    } else {
        SegmentView::Literal(s)
    }
}

pub open spec fn compile_view(parts: Seq<Seq<char>>) -> Seq<SegmentView> {
    parts.map_values(|p: Seq<char>| compile_seg(p))
}

/// The segments of a path or template string: a leading `/` is stripped,
/// then the remainder splits on `/`. The empty path and `/` both yield a
/// single empty segment (the root).
pub open spec fn path_parts(s: Seq<char>) -> Seq<Seq<char>> {
    if s.len() > 0 && s[0] == '/' {
        split_slash(s.skip(1))
    } else {
        split_slash(s)
    }
}

/// A well-formed pattern has a wildcard only as its final segment.
pub open spec fn pattern_wf(pat: Seq<SegmentView>) -> bool {
    forall|i: int| 0 <= i < pat.len() - 1 ==> !(#[trigger] pat[i] is Wildcard)
}

/// Whether a pattern matches a split path: literals must coincide, a
/// parameter consumes one segment, a final wildcard consumes the rest
/// (possibly none), and segment counts must otherwise agree exactly.
pub open spec fn segs_match(pat: Seq<SegmentView>, path: Seq<Seq<char>>) -> bool
    decreases pat.len(),
{
    if pat.len() == 0 {
        path.len() == 0
    } else {
        match pat[0] {
            SegmentView::Wildcard(_) => pat.len() == 1,
            SegmentView::Literal(text) => path.len() > 0 && text == path[0] && segs_match(
                pat.skip(1),
                path.skip(1),
            ),
            SegmentView::Param(_) => path.len() > 0 && segs_match(pat.skip(1), path.skip(1)),
        }
    }
}

/// The parameters a matching pattern captures, in pattern order: each
/// parameter binds its path segment, a wildcard binds the remaining
/// segments joined with `/`.
pub open spec fn captures_of(pat: Seq<SegmentView>, path: Seq<Seq<char>>) -> Seq<
    (Seq<char>, Seq<char>),
>
    decreases pat.len(),
{
    if pat.len() == 0 {
        Seq::<(Seq<char>, Seq<char>)>::empty()
    } else {
        match pat[0] {
            SegmentView::Wildcard(name) => seq![(name, join_slash(path))],
            SegmentView::Literal(_) => captures_of(pat.skip(1), path.skip(1)),
            SegmentView::Param(name) => seq![(name, path[0])] + captures_of(
                pat.skip(1),
                path.skip(1),
            ),
        }
    }
}

/// The views of a captured-parameter list.
pub open spec fn pairs_view(pairs: Seq<(String, String)>) -> Seq<(Seq<char>, Seq<char>)> {
    pairs.map_values(|p: (String, String)| (p.0@, p.1@))
}

/// Compiles one template segment.
fn compile_one(part: &String) -> (seg: Segment)
    ensures
        seg@ == compile_seg(part@),
{
    let n = part.as_str().unicode_len();
    if n > 0 && part.as_str().get_char(0) == ':' {
        Segment::Param(part.as_str().substring_char(1, n).to_owned())
    } else if n > 0 && part.as_str().get_char(0) == '*' {
        Segment::Wildcard(part.as_str().substring_char(1, n).to_owned())
    } else {
        Segment::Literal(part.clone())
    }
}

/// Compiles a template string into a pattern; refuses a template whose
/// wildcard is not the final segment.
pub fn compile_pattern(pattern: &str) -> (r: Option<Vec<Segment>>)
    ensures
        r is Some <==> pattern_wf(compile_view(path_parts(pattern@))),
        r matches Some(v) ==> v.deep_view() == compile_view(path_parts(pattern@)),
{
    let n = pattern.unicode_len();
    let stripped = if n > 0 && pattern.get_char(0) == '/' {
        pattern.substring_char(1, n)
    } else {
        pattern.substring_char(0, n)
    };
    proof {
        assert(stripped@ == pattern@ || stripped@ == pattern@.skip(1));
        if !(pattern@.len() > 0 && pattern@[0] == '/') {
            assert(stripped@ =~= pattern@);
        }
    }
    let parts = split_path(stripped);
    let ghost pdv = parts.deep_view();
    let ghost cv = compile_view(path_parts(pattern@));
    proof {
        assert(cv =~= pdv.map_values(|p: Seq<char>| compile_seg(p)));
    }
    let m = parts.len();
    let mut segs: Vec<Segment> = Vec::new();
    let mut idx: usize = 0;
    while idx < m
        invariant
            m == parts.len(),
            idx <= m,
            pdv == parts.deep_view(),
            cv == compile_view(pdv),
            cv == compile_view(path_parts(pattern@)),
            cv.len() == m,
            segs.deep_view() == cv.take(idx as int),
            forall|i: int| 0 <= i < idx && i < m - 1 ==> !(#[trigger] cv[i] is Wildcard),
        decreases m - idx,
    {
        let seg = compile_one(&parts[idx]);
        let is_wild = match &seg {
            Segment::Wildcard(_) => true,
            _ => false,
        };
        if is_wild && idx + 1 != m {
            proof {
                assert(cv[idx as int] is Wildcard);
                assert(!pattern_wf(cv));
            }
            return None;
        }
        let ghost old_dv = segs.deep_view();
        segs.push(seg);
        proof {
            assert(segs.deep_view() =~= old_dv + seq![cv[idx as int]]);
            assert(segs.deep_view() =~= cv.take(idx + 1));
        }
        idx += 1;
    }
    proof {
        assert(segs.deep_view() =~= cv);
        assert(pattern_wf(cv));
    }
    Some(segs)
}

/// Matches `pat[i..]` against `path[j..]`, returning the captures of the
/// remainder on success.
fn match_from(pat: &Vec<Segment>, path: &Vec<String>, i: usize, j: usize) -> (r: Option<
    Vec<(String, String)>,
>)
    requires
        i <= pat.len(),
        j <= path.len(),
    ensures
        r is Some <==> segs_match(
            pat.deep_view().skip(i as int),
            path.deep_view().skip(j as int),
        ),
        r matches Some(c) ==> pairs_view(c@) == captures_of(
            pat.deep_view().skip(i as int),
            path.deep_view().skip(j as int),
        ),
    decreases pat.len() - i,
{
    let ghost pv = pat.deep_view().skip(i as int);
    let ghost sv = path.deep_view().skip(j as int);
    if i == pat.len() {
        proof {
            assert(pv =~= Seq::<SegmentView>::empty());
        }
        if j == path.len() {
            let r: Vec<(String, String)> = Vec::new();
            proof {
                assert(sv =~= Seq::<Seq<char>>::empty());
                assert(pairs_view(r@) =~= captures_of(pv, sv));
            }
            Some(r)
        } else {
            None
        }
    } else {
        proof {
            assert(pv[0] == pat@[i as int]@);
            assert(pv.skip(1) =~= pat.deep_view().skip(i + 1));
            assert(sv.len() > 0 ==> sv[0] == path@[j as int]@);
            assert(sv.len() > 0 ==> sv.skip(1) =~= path.deep_view().skip(j + 1));
        }
        match &pat[i] {
            Segment::Wildcard(name) => {
                if i + 1 == pat.len() {
                    let mut r: Vec<(String, String)> = Vec::new();
                    r.push((name.clone(), join_path(path, j)));
                    proof {
                        assert(pairs_view(r@) =~= captures_of(pv, sv));
                    }
                    Some(r)
                } else {
                    None
                }
            },
            Segment::Literal(text) => {
                if j < path.len() && str_eq(text.as_str(), path[j].as_str()) {
                    match_from(pat, path, i + 1, j + 1)
                } else {
                    None
                }
            },
            Segment::Param(name) => {
                if j < path.len() {
                    match match_from(pat, path, i + 1, j + 1) {
                        None => None,
                        Some(mut rest) => {
                            let ghost rest_old = rest@;
                            rest.insert(0, (name.clone(), path[j].clone()));
                            proof {
                                assert(pairs_view(rest@) =~= seq![
                                    (name@, sv[0]),
                                ] + pairs_view(rest_old));
                            }
                            Some(rest)
                        },
                    }
                } else {
                    None
                }
            },
        }
    }
}

/// Splits a request path into the segments that patterns match against.
pub fn request_parts(path: &str) -> (r: Vec<String>)
    ensures
        r.deep_view() == path_parts(path@),
        r.len() >= 1,
{
    let n = path.unicode_len();
    if n > 0 && path.get_char(0) == '/' {
        let rest = path.substring_char(1, n);
        proof {
            assert(rest@ =~= path@.skip(1));
        }
        split_path(rest)
    } else {
        split_path(path)
    }
}

/// Matches a compiled pattern against the split segments of a request
/// path; on success returns the captured parameters in pattern order.
pub fn match_segments(pat: &Vec<Segment>, path: &Vec<String>) -> (r: Option<Vec<(String, String)>>)
    ensures
        r is Some <==> segs_match(pat.deep_view(), path.deep_view()),
        r matches Some(c) ==> pairs_view(c@) == captures_of(pat.deep_view(), path.deep_view()),
{
    let r = match_from(pat, path, 0, 0);
    proof {
        assert(pat.deep_view().skip(0) =~= pat.deep_view());
        assert(path.deep_view().skip(0) =~= path.deep_view());
    }
    r
}

} // verus!
