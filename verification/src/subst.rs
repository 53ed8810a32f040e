//! The reference substitution engine: every literal occurrence of every
//! path in the map becomes a span, the pooled spans are ordered by
//! descending start offset, and replacements run strictly right to
//! left, so that no replacement invalidates an offset not yet consumed.

use vstd::prelude::*;
use crate::strutil::{chars_to_string, slice_chars, str_to_chars};

verus! {

/// One planned replacement: the span `[start, end)` of the original
/// text and the URL that replaces it.
#[derive(Debug, Clone)]
pub struct Span {
    pub start: usize,
    pub end: usize,
    pub url: String,
}

/// The spans of every occurrence of `path` in `t` at or after position
/// `i`, in ascending order. Occurrences may overlap: the search resumes
/// one character after each hit.
pub open spec fn spec_pair_spans(t: Seq<char>, path: String, url: String, i: int) -> Seq<Span>
    decreases t.len() + 1 - i,
{
    if i < 0 || i + path@.len() > t.len() {
        Seq::empty()
    } else if t.subrange(i, i + path@.len() as int) == path@ {
        seq![
            Span { start: i as usize, end: (i + path@.len()) as usize, url },
        ] + spec_pair_spans(t, path, url, i + 1)
    } else {
        spec_pair_spans(t, path, url, i + 1)
    }
}

/// The spans of the first `k` pairs pooled together, in pair order.
pub open spec fn spec_all_spans(t: Seq<char>, pairs: Seq<(String, String)>, k: int) -> Seq<Span>
    decreases k,
{
    if k <= 0 {
        Seq::empty()
    } else {
        spec_all_spans(t, pairs, k - 1) + spec_pair_spans(t, pairs[k - 1].0, pairs[k - 1].1, 0)
    }
}

/// Stable insertion into a sequence sorted by descending start offset:
/// the new span goes after every span that starts at or after it.
pub open spec fn spec_insert_desc(s: Seq<Span>, x: Span) -> Seq<Span>
    decreases s.len(),
{
    if s.len() > 0 && s.last().start < x.start {
        spec_insert_desc(s.drop_last(), x).push(s.last())
    } else {
        s.push(x)
    }
}

/// Stable sort by descending start offset.
pub open spec fn spec_sort_desc(s: Seq<Span>) -> Seq<Span>
    decreases s.len(),
{
    if s.len() == 0 {
        s
    } else {
        spec_insert_desc(spec_sort_desc(s.drop_last()), s.last())
    }
}

/// One replacement applied to the current text, with both offsets
/// clamped to the text's length so that a stale span never reaches
/// outside it.
pub open spec fn spec_replace(t: Seq<char>, sp: Span) -> Seq<char> {
    let a = if sp.start as int <= t.len() {
        sp.start as int
    } else {
        t.len() as int
    };
    let b0 = if sp.end as int <= t.len() {
        sp.end as int
    } else {
        t.len() as int
    };
    let b = if b0 >= a {
        b0
    } else {
        a
    };
    t.subrange(0, a) + sp.url@ + t.subrange(b, t.len() as int)
}

/// The spans from index `i` on, applied in order to `t`.
pub open spec fn spec_apply_spans(t: Seq<char>, spans: Seq<Span>, i: int) -> Seq<char>
    decreases spans.len() - i,
{
    if i < 0 || i >= spans.len() {
        t
    } else {
        spec_apply_spans(spec_replace(t, spans[i]), spans, i + 1)
    }
}

/// What substitution produces: pool every occurrence of every path,
/// sort the spans by descending start, and replace right to left.
pub open spec fn spec_substitute(t: Seq<char>, pairs: Seq<(String, String)>) -> Seq<char> {
    spec_apply_spans(t, spec_sort_desc(spec_all_spans(t, pairs, pairs.len() as int)), 0)
}

fn match_at(t: &Vec<char>, p: &Vec<char>, i: usize) -> (r: bool)
    requires
        i + p@.len() <= t@.len(),
    ensures
        r == (t@.subrange(i as int, i + p@.len()) == p@),
{
    let n: usize = t.len();
    let mut j: usize = 0;
    while j < p.len()
        invariant
            j <= p@.len(),
            n == t@.len(),
            i + p@.len() <= n,
            forall|l: int| 0 <= l < j ==> t@[i + l] == p@[l],
        decreases p.len() - j,
    {
        if t[i + j] != p[j] {
            proof {
                assert(t@.subrange(i as int, i + p@.len())[j as int] != p@[j as int]);
            }
            return false;
        }
        j = j + 1;
    }
    proof {
        assert(t@.subrange(i as int, i + p@.len()) =~= p@);
    }
    true
}

fn pair_spans(t: &Vec<char>, pchars: &Vec<char>, path: &String, url: &String, i: usize) -> (out:
    Vec<Span>)
    requires
        pchars@ == path@,
        i <= t@.len(),
    ensures
        out@ == spec_pair_spans(t@, *path, *url, i as int),
    decreases t@.len() + 1 - i,
{
    if pchars.len() > t.len() - i {
        return Vec::new();
    }
    let hit = match_at(t, pchars, i);
    let mut rest: Vec<Span> = if i < t.len() {
        pair_spans(t, pchars, path, url, i + 1)
    } else {
        proof {
            assert(spec_pair_spans(t@, *path, *url, i + 1) =~= Seq::<Span>::empty());
        }
        Vec::new()
    };
    if hit {
        let ghost before = rest@;
        rest.insert(0, Span { start: i, end: i + pchars.len(), url: url.clone() });
        proof {
            assert(rest@ =~= seq![
                Span { start: i, end: (i + path@.len()) as usize, url: *url },
            ] + before);
        }
    }
    rest
}

fn insert_desc(s: Vec<Span>, x: Span) -> (out: Vec<Span>)
    ensures
        out@ == spec_insert_desc(s@, x),
    decreases s@.len(),
{
    let n = s.len();
    if n > 0 && s[n - 1].start < x.start {
        let mut s2 = s;
        let last = s2.pop().unwrap();
        let mut r = insert_desc(s2, x);
        r.push(last);
        r
    } else {
        let mut s2 = s;
        s2.push(x);
        s2
    }
}

fn sort_desc(s: Vec<Span>) -> (out: Vec<Span>)
    ensures
        out@ == spec_sort_desc(s@),
    decreases s@.len(),
{
    if s.len() == 0 {
        s
    } else {
        let mut s2 = s;
        let last = s2.pop().unwrap();
        let sorted = sort_desc(s2);
        insert_desc(sorted, last)
    }
}

fn replace_span(t: &Vec<char>, sp: &Span) -> (out: Vec<char>)
    ensures
        out@ == spec_replace(t@, *sp),
{
    let a = if sp.start <= t.len() {
        sp.start
    } else {
        t.len()
    };
    let b0 = if sp.end <= t.len() {
        sp.end
    } else {
        t.len()
    };
    let b = if b0 >= a {
        b0
    } else {
        a
    };
    let mut out = slice_chars(t, 0, a);
    let mut mid = str_to_chars(sp.url.as_str());
    out.append(&mut mid);
    let mut suf = slice_chars(t, b, t.len());
    out.append(&mut suf);
    proof {
        assert(out@ =~= spec_replace(t@, *sp));
    }
    out
}

/// Rewrites `input` so that every literal occurrence of every path in
/// `path_url_map` becomes the URL assigned to that path. Every
/// occurrence of every pair is replaced, and replacements run right to
/// left against offsets computed on the unmodified input. When one
/// path's text is a substring of another's the spans overlap, and both
/// replacements are still applied, clamped to the current text.
pub fn substitute_file_paths_with_urls(input: &str, path_url_map: &Vec<(String, String)>) -> (r:
    String)
    ensures
        r@ == spec_substitute(input@, path_url_map@),
{
    let t = str_to_chars(input);
    let mut spans: Vec<Span> = Vec::new();
    let mut k: usize = 0;
    while k < path_url_map.len()
        invariant
            k <= path_url_map@.len(),
            t@ == input@,
            spans@ == spec_all_spans(t@, path_url_map@, k as int),
        decreases path_url_map.len() - k,
    {
        let pc = str_to_chars(path_url_map[k].0.as_str());
        let mut ps = pair_spans(&t, &pc, &path_url_map[k].0, &path_url_map[k].1, 0);
        spans.append(&mut ps);
        k = k + 1;
    }
    let sorted = sort_desc(spans);
    let ghost sorted0 = sorted@;
    let mut cur = t;
    let mut i: usize = 0;
    while i < sorted.len()
        invariant
            i <= sorted@.len(),
            sorted@ == sorted0,
            spec_apply_spans(input@, sorted0, 0) == spec_apply_spans(cur@, sorted0, i as int),
        decreases sorted.len() - i,
    {
        cur = replace_span(&cur, &sorted[i]);
        i = i + 1;
    }
    chars_to_string(&cur)
}

/// The substitution law: when a path occurs exactly twice in the text,
/// at `i` and at `j`, and the two occurrences do not overlap, one
/// substitution pair for it replaces both occurrences and leaves every
/// other character of the text unchanged, whatever the text's length.
pub proof fn lemma_substitute_two_occurrences(t: Seq<char>, p: String, u: String, i: int, j: int)
    requires
        p@.len() > 0,
        0 <= i,
        i + p@.len() <= j,
        j + p@.len() <= t.len(),
        t.len() <= usize::MAX,
        spec_pair_spans(t, p, u, 0) == seq![
            Span { start: i as usize, end: (i + p@.len()) as usize, url: u },
            Span { start: j as usize, end: (j + p@.len()) as usize, url: u },
        ],
    ensures
        spec_substitute(t, seq![(p, u)]) == t.subrange(0, i) + u@ + t.subrange(
            i + p@.len(),
            j,
        ) + u@ + t.subrange(j + p@.len(), t.len() as int),
{
    let plen = p@.len() as int;
    let a = Span { start: i as usize, end: (i + plen) as usize, url: u };
    let b = Span { start: j as usize, end: (j + plen) as usize, url: u };
    let pairs: Seq<(String, String)> = seq![(p, u)];
    let pool = spec_all_spans(t, pairs, 1);
    assert(spec_all_spans(t, pairs, 0) =~= Seq::<Span>::empty());
    assert(pool =~= seq![a, b]);
    // the stable descending sort swaps the two spans
    let sorted = spec_sort_desc(pool);
    assert(pool.drop_last() =~= seq![a]);
    assert(seq![a].drop_last() =~= Seq::<Span>::empty());
    assert(spec_sort_desc(Seq::<Span>::empty()) =~= Seq::<Span>::empty());
    assert(spec_insert_desc(Seq::<Span>::empty(), a) =~= seq![a]);
    assert(spec_sort_desc(seq![a]) =~= seq![a]);
    assert(a.start < b.start);
    assert(spec_insert_desc(seq![a], b) =~= spec_insert_desc(Seq::<Span>::empty(), b).push(a));
    assert(sorted =~= seq![b, a]);
    // the right occurrence is replaced first
    let t1 = spec_replace(t, b);
    assert(t1 =~= t.subrange(0, j) + u@ + t.subrange(j + plen, t.len() as int));
    let ulen = u@.len() as int;
    assert(t1.len() == t.len() - plen + ulen);
    // then the left one, whose offsets the first replacement left intact
    let t2 = spec_replace(t1, a);
    assert(i + plen <= t1.len());
    assert(t2 =~= t1.subrange(0, i) + u@ + t1.subrange(i + plen, t1.len() as int));
    assert(t1.subrange(0, i) =~= t.subrange(0, i));
    assert(t1.subrange(i + plen, t1.len() as int) =~= t.subrange(i + plen, j) + u@ + t.subrange(
        j + plen,
        t.len() as int,
    ));
    assert(spec_apply_spans(t, sorted, 0) == spec_apply_spans(t1, sorted, 1));
    assert(spec_apply_spans(t1, sorted, 1) == spec_apply_spans(t2, sorted, 2));
    assert(spec_apply_spans(t2, sorted, 2) == t2);
    assert(spec_substitute(t, pairs) == t2);
    assert(t2 =~= t.subrange(0, i) + u@ + t.subrange(i + plen, j) + u@ + t.subrange(
        j + plen,
        t.len() as int,
    ));
}

} // verus!
