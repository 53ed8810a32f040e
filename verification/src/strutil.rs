//! Character-level string helpers shared by the scanner, the codec and
//! the substitution engine.

use vstd::prelude::*;
use vstd::string::StrSliceExecFns;
use vstd::string::StringExecFns;

verus! {

/// Relies on String::push: appends the given character to the end of
/// the string.
#[verifier::external_body]
pub(crate) fn push_char(s: &mut String, c: char)
    ensures
        final(s)@ == old(s)@.push(c),
{
    s.push(c);
}

/// Copies the characters of `s` into a vector, in order.
pub fn str_to_chars(s: &str) -> (v: Vec<char>)
    ensures
        v@ == s@,
{
    let n: usize = s.unicode_len();
    let mut v: Vec<char> = Vec::new();
    let mut i: usize = 0;
    while i < n
        invariant
            i <= n,
            n == s@.len(),
            v@ == s@.subrange(0, i as int),
        decreases n - i,
    {
        let c = s.get_char(i);
        v.push(c);
        i = i + 1;
        proof {
            assert(v@ =~= s@.subrange(0, i as int));
        }
    }
    proof {
        assert(v@ =~= s@);
    }
    v
}

/// Builds a string out of the characters of `v`, in order.
pub fn chars_to_string(v: &Vec<char>) -> (s: String)
    ensures
        s@ == v@,
{
    let mut s = String::new();
    let mut i: usize = 0;
    while i < v.len()
        invariant
            i <= v.len(),
            s@ == v@.subrange(0, i as int),
        decreases v.len() - i,
    {
        push_char(&mut s, v[i]);
        i = i + 1;
        proof {
            assert(s@ =~= v@.subrange(0, i as int));
        }
    }
    proof {
        assert(s@ =~= v@);
    }
    s
}

/// True exactly when the two strings hold the same characters.
pub fn str_eq(a: &str, b: &str) -> (r: bool)
    ensures
        r == (a@ == b@),
{
    let sa = a.to_owned();
    let sb = b.to_owned();
    sa == sb
}

pub open spec fn spec_starts_with(s: Seq<char>, prefix: Seq<char>) -> bool {
    s.len() >= prefix.len() && s.subrange(0, prefix.len() as int) == prefix
}

/// True exactly when `prefix` is a prefix of `s`.
pub fn str_starts_with(s: &str, prefix: &str) -> (r: bool)
    ensures
        r == spec_starts_with(s@, prefix@),
{
    let n: usize = s.unicode_len();
    let p: usize = prefix.unicode_len();
    if p > n {
        proof {
            assert(!spec_starts_with(s@, prefix@));
        }
        return false;
    }
    let mut i: usize = 0;
    while i < p
        invariant
            i <= p,
            p <= n,
            n == s@.len(),
            p == prefix@.len(),
            forall|j: int| 0 <= j < i ==> s@[j] == prefix@[j],
        decreases p - i,
    {
        if s.get_char(i) != prefix.get_char(i) {
            proof {
                assert(s@.subrange(0, p as int)[i as int] != prefix@[i as int]);
            }
            return false;
        }
        i = i + 1;
    }
    proof {
        assert(s@.subrange(0, p as int) =~= prefix@);
    }
    true
}

/// First index of `c` in `s` at or after `i` and before `end`, if any.
pub open spec fn spec_find_in(s: Seq<char>, c: char, i: int, end: int) -> Option<int>
    decreases end - i,
{
    if i >= end || i >= s.len() || i < 0 {
        None
    } else if s[i] == c {
        Some(i)
    } else {
        spec_find_in(s, c, i + 1, end)
    }
}

/// Finds the first occurrence of `c` in `t[from..to]`.
pub fn find_in(t: &Vec<char>, c: char, from: usize, to: usize) -> (r: Option<usize>)
    requires
        to <= t.len(),
    ensures
        match r {
            Some(k) => spec_find_in(t@, c, from as int, to as int) == Some(k as int) && from <= k
                < to,
            None => spec_find_in(t@, c, from as int, to as int) is None,
        },
{
    let mut i: usize = from;
    while i < to
        invariant
            from <= i || i == from,
            to <= t.len(),
            spec_find_in(t@, c, from as int, to as int) == spec_find_in(t@, c, i as int, to as int),
        decreases to - i,
    {
        if t[i] == c {
            return Some(i);
        }
        i = i + 1;
    }
    None
}

/// Copies `t[from..to]` into a fresh vector.
pub fn slice_chars(t: &Vec<char>, from: usize, to: usize) -> (r: Vec<char>)
    requires
        from <= to,
        to <= t.len(),
    ensures
        r@ == t@.subrange(from as int, to as int),
{
    let mut r: Vec<char> = Vec::new();
    let mut i: usize = from;
    while i < to
        invariant
            from <= i <= to,
            to <= t.len(),
            r@ == t@.subrange(from as int, i as int),
        decreases to - i,
    {
        r.push(t[i]);
        i = i + 1;
        proof {
            assert(r@ =~= t@.subrange(from as int, i as int));
        }
    }
    r
}

/// The view of an optional string.
pub open spec fn opt_str_view(s: Option<String>) -> Option<Seq<char>> {
    match s {
        Some(h) => Some(h@),
        None => None,
    }
}

/// Duplicates an optional string.
pub fn clone_opt_string(s: &Option<String>) -> (r: Option<String>)
    ensures
        r == *s,
{
    match s {
        Some(v) => Some(v.clone()),
        None => None,
    }
}

/// A Unicode whitespace character, as `trim` understands whitespace:
/// the White_Space code points.
pub open spec fn is_space_char(c: char) -> bool {
    let u = c as u32;
    (9 <= u && u <= 13) || u == 32 || u == 0x85 || u == 0xA0 || u == 0x1680 || (0x2000 <= u && u
        <= 0x200A) || u == 0x2028 || u == 0x2029 || u == 0x202F || u == 0x205F || u == 0x3000
}

/// True exactly when every character of `s` is whitespace, which is
/// when trimming `s` leaves nothing.
pub fn all_whitespace(s: &str) -> (r: bool)
    ensures
        r == (forall|i: int| 0 <= i < s@.len() ==> is_space_char(#[trigger] s@[i])),
{
    let n: usize = s.unicode_len();
    let mut i: usize = 0;
    while i < n
        invariant
            i <= n,
            n == s@.len(),
            forall|j: int| 0 <= j < i ==> is_space_char(#[trigger] s@[j]),
        decreases n - i,
    {
        let c = s.get_char(i);
        let u = c as u32;
        let ws = (9 <= u && u <= 13) || u == 32 || u == 0x85 || u == 0xA0 || u == 0x1680 || (0x2000
            <= u && u <= 0x200A) || u == 0x2028 || u == 0x2029 || u == 0x202F || u == 0x205F || u
            == 0x3000;
        if !ws {
            return false;
        }
        i = i + 1;
    }
    true
}

/// The characters trimmed from both ends of a raw path match: space,
/// single quote, double quote and the two parentheses.
pub open spec fn is_trim_char(c: char) -> bool {
    c == ' ' || c == '\'' || c == '"' || c == '(' || c == ')'
}

pub(crate) fn trim_char(c: char) -> (r: bool)
    ensures
        r == is_trim_char(c),
{
    c == ' ' || c == '\'' || c == '"' || c == '(' || c == ')'
}

pub open spec fn spec_trim_front(s: Seq<char>) -> Seq<char>
    decreases s.len(),
{
    if s.len() > 0 && is_trim_char(s[0]) {
        spec_trim_front(s.drop_first())
    } else {
        s
    }
}

pub open spec fn spec_trim_back(s: Seq<char>) -> Seq<char>
    decreases s.len(),
{
    if s.len() > 0 && is_trim_char(s.last()) {
        spec_trim_back(s.drop_last())
    } else {
        s
    }
}

/// Both ends of `s` stripped of quote, parenthesis and space characters.
pub open spec fn spec_trim(s: Seq<char>) -> Seq<char> {
    spec_trim_back(spec_trim_front(s))
}

fn trim_front(v: Vec<char>) -> (r: Vec<char>)
    ensures
        r@ == spec_trim_front(v@),
    decreases v@.len(),
{
    if v.len() > 0 && trim_char(v[0]) {
        let mut v2 = v;
        v2.remove(0);
        proof {
            assert(v2@ =~= v@.drop_first());
        }
        trim_front(v2)
    } else {
        v
    }
}

fn trim_back(v: Vec<char>) -> (r: Vec<char>)
    ensures
        r@ == spec_trim_back(v@),
    decreases v@.len(),
{
    if v.len() > 0 && trim_char(v[v.len() - 1]) {
        let mut v2 = v;
        v2.pop();
        proof {
            assert(v2@ =~= v@.drop_last());
        }
        trim_back(v2)
    } else {
        v
    }
}

/// Trims enclosing quote, parenthesis and space characters from both
/// ends of a candidate match.
pub fn trim_delimiters(v: Vec<char>) -> (r: Vec<char>)
    ensures
        r@ == spec_trim(v@),
{
    trim_back(trim_front(v))
}

/// `rest` appended to directory `base`, with exactly one `/` between
/// them.
pub open spec fn spec_join_path(base: Seq<char>, rest: Seq<char>) -> Seq<char> {
    if base.len() > 0 && base.last() == '/' {
        base + rest
    } else {
        base + seq!['/'] + rest
    }
}

/// Joins a directory and a relative component, inserting a separator
/// unless the directory already ends with one.
pub fn join_path(base: &str, rest: &str) -> (r: String)
    ensures
        r@ == spec_join_path(base@, rest@),
{
    let bn: usize = base.unicode_len();
    let mut out = base.to_owned();
    if bn == 0 || base.get_char(bn - 1) != '/' {
        push_char(&mut out, '/');
        proof {
            assert(out@ =~= base@ + seq!['/']);
        }
    }
    let rn: usize = rest.unicode_len();
    let mut i: usize = 0;
    let ghost mid: Seq<char> = out@;
    while i < rn
        invariant
            i <= rn,
            rn == rest@.len(),
            out@ == mid + rest@.subrange(0, i as int),
        decreases rn - i,
    {
        push_char(&mut out, rest.get_char(i));
        i = i + 1;
        proof {
            assert(out@ =~= mid + rest@.subrange(0, i as int));
        }
    }
    proof {
        assert(out@ =~= mid + rest@);
        assert(spec_join_path(base@, rest@) =~= out@);
    }
    out
}

} // verus!
