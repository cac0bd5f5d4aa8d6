//! Character-level string utilities: equality, splitting a path on `/`,
//! and joining segments back with `/` (used for wildcard captures).

use vstd::prelude::*;

verus! {

/// Equality of two string slices, decided character by character.
pub fn str_eq(a: &str, b: &str) -> (r: bool)
    ensures
        r == (a@ == b@),
{
    let alen = a.unicode_len();
    let blen = b.unicode_len();
    if alen != blen {
        return false;
    }
    let mut i: usize = 0;
    while i < alen
        invariant
            alen == a@.len(),
            blen == b@.len(),
            alen == blen,
            i <= alen,
            forall|j: int| 0 <= j < i ==> a@[j] == b@[j],
        decreases alen - i,
    {
        if a.get_char(i) != b.get_char(i) {
            return false;
        }
        i += 1;
    }
    proof {
        assert(a@ =~= b@);
    }
    true
}

/// The segments of `s` split on `'/'`: every string has at least one segment,
/// and each `'/'` separates two (possibly empty) segments.
pub open spec fn split_slash(s: Seq<char>) -> Seq<Seq<char>>
    decreases s.len(),
{
    if s.len() == 0 {
        seq![Seq::<char>::empty()]
    } else if s[0] == '/' {
        seq![Seq::<char>::empty()] + split_slash(s.skip(1))
    } else {
        let rest = split_slash(s.skip(1));
        seq![seq![s[0]] + rest[0]] + rest.skip(1)
    }
}

pub proof fn lemma_split_slash_len(s: Seq<char>)
    ensures
        split_slash(s).len() >= 1,
    decreases s.len(),
{
    if s.len() == 0 {
    } else {
        lemma_split_slash_len(s.skip(1));
    }
}

/// A string without any `'/'` is a single segment.
pub proof fn lemma_split_whole(s: Seq<char>)
    requires
        forall|j: int| 0 <= j < s.len() ==> s[j] != '/',
    ensures
        split_slash(s) == seq![s],
    decreases s.len(),
{
    if s.len() == 0 {
        assert(s =~= Seq::<char>::empty());
        assert(split_slash(s) =~= seq![s]);
    } else {
        assert(forall|j: int| 0 <= j < s.skip(1).len() ==> s.skip(1)[j] != '/');
        lemma_split_whole(s.skip(1));
        lemma_split_slash_len(s.skip(1));
        let rest = split_slash(s.skip(1));
        assert(rest == seq![s.skip(1)]);
        assert(rest[0] == s.skip(1));
        assert(rest.skip(1) =~= Seq::<Seq<char>>::empty());
        assert(seq![s[0]] + rest[0] =~= s);
        assert(split_slash(s) =~= seq![s]);
    }
}

/// Splitting at the first `'/'` peels off one segment.
pub proof fn lemma_split_peel(s: Seq<char>, i: int)
    requires
        0 <= i < s.len(),
        s[i] == '/',
        forall|j: int| 0 <= j < i ==> s[j] != '/',
    ensures
        split_slash(s) == seq![s.take(i)] + split_slash(s.skip(i + 1)),
    decreases i,
{
    if i == 0 {
        assert(s.take(0) =~= Seq::<char>::empty());
        assert(split_slash(s) =~= seq![s.take(0)] + split_slash(s.skip(1)));
    } else {
        let t = s.skip(1);
        assert(t[i - 1] == '/');
        assert(forall|j: int| 0 <= j < i - 1 ==> t[j] == s[j + 1] && t[j] != '/');
        lemma_split_peel(t, i - 1);
        lemma_split_slash_len(t.skip(i));
        assert(t.take(i - 1) =~= s.take(i).skip(1));
        assert(t.skip(i) =~= s.skip(i + 1));
        let rest = split_slash(t);
        assert(rest == seq![t.take(i - 1)] + split_slash(t.skip(i)));
        assert(rest[0] == t.take(i - 1));
        assert(seq![s[0]] + rest[0] =~= s.take(i));
        assert(rest.skip(1) =~= split_slash(s.skip(i + 1)));
        assert(split_slash(s) =~= seq![s.take(i)] + split_slash(s.skip(i + 1)));
    }
}

/// The index of the first `'/'` in `s`, if any.
pub fn find_slash(s: &str) -> (r: Option<usize>)
    ensures
        match r {
            Some(i) => i < s@.len() && s@[i as int] == '/' && forall|j: int|
                0 <= j < i ==> s@[j] != '/',
            None => forall|j: int| 0 <= j < s@.len() ==> s@[j] != '/',
        },
{
    let n = s.unicode_len();
    let mut i: usize = 0;
    while i < n
        invariant
            n == s@.len(),
            i <= n,
            forall|j: int| 0 <= j < i ==> s@[j] != '/',
        decreases n - i,
    {
        if s.get_char(i) == '/' {
            return Some(i);
        }
        i += 1;
    }
    None
}

/// Splits a path string into its `/`-separated segments.
pub fn split_path(s: &str) -> (r: Vec<String>)
    ensures
        r.deep_view() == split_slash(s@),
        r.len() >= 1,
    decreases s@.len(),
{
    match find_slash(s) {
        None => {
            proof {
                lemma_split_whole(s@);
            }
            let mut v: Vec<String> = Vec::new();
            v.push(s.to_owned());
            proof {
                assert(v.deep_view() =~= seq![s@]);
            }
            v
        },
        Some(i) => {
            let n = s.unicode_len();
            let head = s.substring_char(0, i);
            let tail = s.substring_char(i + 1, n);
            let mut rest = split_path(tail);
            let ghost rest_dv = rest.deep_view();
            rest.insert(0, head.to_owned());
            proof {
                lemma_split_peel(s@, i as int);
                assert(head@ =~= s@.take(i as int));
                assert(rest.deep_view() =~= seq![head@] + rest_dv);
            }
            rest
        },
    }
}

/// The segments of `parts` joined with `'/'` between neighbours.
pub open spec fn join_slash(parts: Seq<Seq<char>>) -> Seq<char>
    decreases parts.len(),
{
    if parts.len() == 0 {
        Seq::<char>::empty()
    } else if parts.len() == 1 {
        parts[0]
    } else {
        parts[0] + seq!['/'] + join_slash(parts.skip(1))
    }
}

/// Joins `parts[from..]` with `'/'`.
pub fn join_path(parts: &Vec<String>, from: usize) -> (r: String)
    requires
        from <= parts.len(),
    ensures
        r@ == join_slash(parts.deep_view().skip(from as int)),
    decreases parts.len() - from,
{
    let ghost tail = parts.deep_view().skip(from as int);
    if from == parts.len() {
        proof {
            assert(tail =~= Seq::<Seq<char>>::empty());
        }
        String::new()
    } else if from + 1 == parts.len() {
        proof {
            assert(tail.len() == 1);
            assert(tail[0] == parts@[from as int]@);
        }
        parts[from].clone()
    } else {
        let mut r = parts[from].clone();
        r.append("/");
        let rest = join_path(parts, from + 1);
        r.append(rest.as_str());
        proof {
            reveal_strlit("/");
            assert(tail[0] == parts@[from as int]@);
            assert(tail.skip(1) =~= parts.deep_view().skip(from + 1));
            assert("/"@ =~= seq!['/']);
            assert(r@ =~= join_slash(tail));
        }
        r
    }
}

} // verus!
