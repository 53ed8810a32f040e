//! The path scanner: URL-grammar substrings are stripped first, then
//! four independent path grammars run in fixed order over the stripped
//! text. Candidates are trimmed, home-relative matches are expanded
//! against the home directory, and only candidates the filesystem
//! confirms as regular files are kept.

use vstd::prelude::*;
use crate::strutil::{
    chars_to_string, slice_chars, spec_trim, str_to_chars, trim_delimiters,
};
use crate::strutil::spec_join_path;
use crate::strutil::join_path;
use crate::strutil::opt_str_view;
use crate::store::home_dir_string;

verus! {

/// Which of the four path grammars produced a match.
#[derive(Debug, Clone, Copy, PartialEq, Eq, Structural)]
pub enum GrammarKind {
    UnixAbsolute,
    Relative,
    HomeRelative,
    WindowsDrive,
}

/// The character classes the grammars are built from.
#[derive(Debug, Clone, Copy, PartialEq, Eq, Structural)]
pub enum CharClass {
    Path,
    Win,
    Url,
}

/// Membership in a grammar's character class. `Path` is the body of the
/// Unix, relative and home grammars: ASCII letters, digits, `_`, `.`
/// and `/`. `Win` is the body of the drive grammar: lower-case letters,
/// `_`, and the contiguous code-point range from `.` through `\` (which
/// contains the digits, the upper-case letters and `:`). `Url` is the
/// body of a URL: ASCII word characters and `. / ? - _ % & =`.
pub open spec fn is_class_char(c: char, cls: CharClass) -> bool {
    let u = c as u32;
    match cls {
        CharClass::Path => (97 <= u && u <= 122) || (65 <= u && u <= 90) || (48 <= u && u <= 57)
            || u == 95 || u == 46 || u == 47,
        CharClass::Win => (97 <= u && u <= 122) || u == 95 || (46 <= u && u <= 92),
        CharClass::Url => (97 <= u && u <= 122) || (65 <= u && u <= 90) || (48 <= u && u <= 57)
            || u == 95 || u == 46 || u == 47 || u == 63 || u == 45 || u == 37 || u == 38 || u
            == 61,
    }
}

fn class_char(c: char, cls: CharClass) -> (r: bool)
    ensures
        r == is_class_char(c, cls),
{
    let u = c as u32;
    match cls {
        CharClass::Path => (97 <= u && u <= 122) || (65 <= u && u <= 90) || (48 <= u && u <= 57)
            || u == 95 || u == 46 || u == 47,
        CharClass::Win => (97 <= u && u <= 122) || u == 95 || (46 <= u && u <= 92),
        CharClass::Url => (97 <= u && u <= 122) || (65 <= u && u <= 90) || (48 <= u && u <= 57)
            || u == 95 || u == 46 || u == 47 || u == 63 || u == 45 || u == 37 || u == 38 || u
            == 61,
    }
}

/// The end of the maximal run of `cls` characters starting at `i`.
pub open spec fn spec_run_end(t: Seq<char>, i: int, cls: CharClass) -> int
    decreases t.len() - i,
{
    if 0 <= i && i < t.len() && is_class_char(t[i], cls) {
        spec_run_end(t, i + 1, cls)
    } else {
        i
    }
}

fn run_end(t: &Vec<char>, i: usize, cls: CharClass) -> (e: usize)
    requires
        i <= t@.len(),
    ensures
        e == spec_run_end(t@, i as int, cls),
        i <= e <= t@.len(),
{
    let mut j: usize = i;
    while j < t.len() && class_char(t[j], cls)
        invariant
            i <= j <= t@.len(),
            spec_run_end(t@, i as int, cls) == spec_run_end(t@, j as int, cls),
        decreases t@.len() - j,
    {
        j = j + 1;
    }
    j
}

/// Where a match of `kind` starting at position `i` would end, if the
/// grammar matches there. A Unix match is a `/` followed by at least
/// one path character; a relative match is `./`, a home match `~/`,
/// each followed by at least one path character; a drive match is an
/// ASCII letter, `:`, `\`, and at least one drive character. Every
/// match extends to the end of its maximal character run.
pub open spec fn spec_match_end(t: Seq<char>, i: int, kind: GrammarKind) -> Option<int> {
    match kind {
        GrammarKind::UnixAbsolute => if t[i] == '/' && i + 1 < t.len() && is_class_char(
            t[i + 1],
            CharClass::Path,
        ) {
            Some(spec_run_end(t, i + 1, CharClass::Path))
        } else {
            None
        },
        GrammarKind::Relative => if t[i] == '.' && i + 2 < t.len() && t[i + 1] == '/'
            && is_class_char(t[i + 2], CharClass::Path) {
            Some(spec_run_end(t, i + 2, CharClass::Path))
        } else {
            None
        },
        GrammarKind::HomeRelative => if t[i] == '~' && i + 2 < t.len() && t[i + 1] == '/'
            && is_class_char(t[i + 2], CharClass::Path) {
            Some(spec_run_end(t, i + 2, CharClass::Path))
        } else {
            None
        },
        GrammarKind::WindowsDrive => if is_ascii_letter(t[i]) && i + 3 < t.len() && t[i + 1] == ':'
            && t[i + 2] == '\\' && is_class_char(t[i + 3], CharClass::Win) {
            Some(spec_run_end(t, i + 3, CharClass::Win))
        } else {
            None
        },
    }
}

pub open spec fn is_ascii_letter(c: char) -> bool {
    let u = c as u32;
    (97 <= u && u <= 122) || (65 <= u && u <= 90)
}

fn ascii_letter(c: char) -> (r: bool)
    ensures
        r == is_ascii_letter(c),
{
    let u = c as u32;
    (97 <= u && u <= 122) || (65 <= u && u <= 90)
}

fn match_end_at(t: &Vec<char>, i: usize, kind: GrammarKind) -> (r: Option<usize>)
    requires
        i < t@.len(),
    ensures
        match r {
            Some(e) => spec_match_end(t@, i as int, kind) == Some(e as int) && i < e <= t@.len(),
            None => spec_match_end(t@, i as int, kind) is None,
        },
{
    let n = t.len();
    match kind {
        GrammarKind::UnixAbsolute => {
            if t[i] == '/' && n - i > 1 && class_char(t[i + 1], CharClass::Path) {
                Some(run_end(t, i + 1, CharClass::Path))
            } else {
                None
            }
        },
        GrammarKind::Relative => {
            if t[i] == '.' && n - i > 2 && t[i + 1] == '/' && class_char(
                t[i + 2],
                CharClass::Path,
            ) {
                Some(run_end(t, i + 2, CharClass::Path))
            } else {
                None
            }
        },
        GrammarKind::HomeRelative => {
            if t[i] == '~' && n - i > 2 && t[i + 1] == '/' && class_char(
                t[i + 2],
                CharClass::Path,
            ) {
                Some(run_end(t, i + 2, CharClass::Path))
            } else {
                None
            }
        },
        GrammarKind::WindowsDrive => {
            if ascii_letter(t[i]) && n - i > 3 && t[i + 1] == ':' && t[i + 2] == '\\'
                && class_char(t[i + 3], CharClass::Win) {
                Some(run_end(t, i + 3, CharClass::Win))
            } else {
                None
            }
        },
    }
}

/// Where a URL match starting at `i` would end: `http`, an optional
/// `s`, `://`, and at least one URL character, extending to the end of
/// the URL character run.
pub open spec fn spec_url_end(t: Seq<char>, i: int) -> Option<int> {
    if i + 4 <= t.len() && t[i] == 'h' && t[i + 1] == 't' && t[i + 2] == 't' && t[i + 3] == 'p' {
        let j = if i + 4 < t.len() && t[i + 4] == 's' {
            i + 5
        } else {
            i + 4
        };
        if j + 3 < t.len() && t[j] == ':' && t[j + 1] == '/' && t[j + 2] == '/' && is_class_char(
            t[j + 3],
            CharClass::Url,
        ) {
            Some(spec_run_end(t, j + 3, CharClass::Url))
        } else {
            None
        }
    } else {
        None
    }
}

fn url_end_at(t: &Vec<char>, i: usize) -> (r: Option<usize>)
    requires
        i < t@.len(),
    ensures
        match r {
            Some(e) => spec_url_end(t@, i as int) == Some(e as int) && i < e <= t@.len(),
            None => spec_url_end(t@, i as int) is None,
        },
{
    let n = t.len();
    if !(n - i >= 4 && t[i] == 'h' && t[i + 1] == 't' && t[i + 2] == 't' && t[i + 3] == 'p') {
        return None;
    }
    let j: usize = if n - i > 4 && t[i + 4] == 's' {
        i + 5
    } else {
        i + 4
    };
    if n - j > 3 && t[j] == ':' && t[j + 1] == '/' && t[j + 2] == '/' && class_char(
        t[j + 3],
        CharClass::Url,
    ) {
        Some(run_end(t, j + 3, CharClass::Url))
    } else {
        None
    }
}

/// The text from position `i` on with every URL match removed. When a
/// URL matches at the scan position the scan jumps past it; otherwise
/// the character is kept and the scan advances by one.
pub open spec fn spec_strip_urls_from(t: Seq<char>, i: int) -> Seq<char>
    decreases t.len() - i,
{
    if i < 0 || i >= t.len() {
        Seq::empty()
    } else {
        match spec_url_end(t, i) {
            Some(e) => {
                let e2 = if e < t.len() {
                    e
                } else {
                    t.len() as int
                };
                let nxt = if e2 > i {
                    e2
                } else {
                    i + 1
                };
                spec_strip_urls_from(t, nxt)
            },
            None => seq![t[i]] + spec_strip_urls_from(t, i + 1),
        }
    }
}

/// `t` with every URL-grammar substring removed.
pub open spec fn spec_strip_urls(t: Seq<char>) -> Seq<char> {
    spec_strip_urls_from(t, 0)
}

/// Removes every URL-grammar match from the text; the stripped copy is
/// only ever used for matching, never returned to callers.
pub fn strip_urls(input: &str) -> (r: String)
    ensures
        r@ == spec_strip_urls(input@),
{
    let t = str_to_chars(input);
    let mut out: Vec<char> = Vec::new();
    let mut i: usize = 0;
    while i < t.len()
        invariant
            i <= t@.len(),
            t@ == input@,
            spec_strip_urls_from(t@, 0) == out@ + spec_strip_urls_from(t@, i as int),
        decreases t@.len() - i,
    {
        match url_end_at(&t, i) {
            Some(e) => {
                i = e;
            },
            None => {
                let ghost before = out@;
                out.push(t[i]);
                proof {
                    assert(out@ =~= before + seq![t@[i as int]]);
                    assert(before + (seq![t@[i as int]] + spec_strip_urls_from(t@, i + 1)) =~= out@
                        + spec_strip_urls_from(t@, i + 1));
                }
                i = i + 1;
            },
        }
    }
    proof {
        assert(spec_strip_urls_from(t@, t@.len() as int) =~= Seq::<char>::empty());
        assert(out@ =~= out@ + spec_strip_urls_from(t@, t@.len() as int));
    }
    chars_to_string(&out)
}

/// A grammar match at spec level: the trimmed matched text and the
/// grammar that produced it.
pub struct SpecMatch {
    pub text: Seq<char>,
    pub kind: GrammarKind,
}

/// A grammar match: the trimmed matched text and the grammar that
/// produced it.
#[derive(Debug, Clone)]
pub struct PathMatch {
    pub text: String,
    pub kind: GrammarKind,
}

impl View for PathMatch {
    type V = SpecMatch;

    open spec fn view(&self) -> SpecMatch {
        SpecMatch { text: self.text@, kind: self.kind }
    }
}

/// Every match of `kind` in `t` from position `i` on, leftmost first
/// and non-overlapping: after a match the scan resumes at its end.
/// Each match is trimmed of enclosing quote, parenthesis and space
/// characters.
pub open spec fn spec_scan(t: Seq<char>, i: int, kind: GrammarKind) -> Seq<SpecMatch>
    decreases t.len() - i,
{
    if i < 0 || i >= t.len() {
        Seq::empty()
    } else {
        match spec_match_end(t, i, kind) {
            Some(e) => {
                let e2 = if e < t.len() {
                    e
                } else {
                    t.len() as int
                };
                let nxt = if e2 > i {
                    e2
                } else {
                    i + 1
                };
                seq![
                    SpecMatch { text: spec_trim(t.subrange(i, e2)), kind },
                ] + spec_scan(t, nxt, kind)
            },
            None => spec_scan(t, i + 1, kind),
        }
    }
}

fn scan_kind(t: &Vec<char>, kind: GrammarKind) -> (out: Vec<PathMatch>)
    ensures
        out@.map_values(|m: PathMatch| m@) == spec_scan(t@, 0, kind),
{
    let mut out: Vec<PathMatch> = Vec::new();
    let mut i: usize = 0;
    while i < t.len()
        invariant
            i <= t@.len(),
            spec_scan(t@, 0, kind) == out@.map_values(|m: PathMatch| m@) + spec_scan(
                t@,
                i as int,
                kind,
            ),
        decreases t@.len() - i,
    {
        match match_end_at(t, i, kind) {
            Some(e) => {
                let raw = slice_chars(t, i, e);
                let trimmed = trim_delimiters(raw);
                let text = chars_to_string(&trimmed);
                let ghost before = out@;
                out.push(PathMatch { text, kind });
                proof {
                    let ghost sm = SpecMatch { text: spec_trim(t@.subrange(i as int, e as int)), kind };
                    assert(out@.map_values(|m: PathMatch| m@) =~= before.map_values(
                        |m: PathMatch| m@,
                    ).push(sm));
                    assert(before.map_values(|m: PathMatch| m@) + (seq![sm] + spec_scan(
                        t@,
                        e as int,
                        kind,
                    )) =~= out@.map_values(|m: PathMatch| m@) + spec_scan(t@, e as int, kind));
                }
                i = e;
            },
            None => {
                i = i + 1;
            },
        }
    }
    proof {
        assert(spec_scan(t@, t@.len() as int, kind) =~= Seq::<SpecMatch>::empty());
        assert(out@.map_values(|m: PathMatch| m@) =~= out@.map_values(|m: PathMatch| m@)
            + spec_scan(t@, t@.len() as int, kind));
    }
    out
}

/// The candidates of all four grammars over `t`, in fixed grammar
/// order: Unix absolute, `./`-relative, `~/`-home-relative, drive. The
/// grammars run independently and are never deduplicated against each
/// other.
pub open spec fn spec_candidates(t: Seq<char>) -> Seq<SpecMatch> {
    spec_scan(t, 0, GrammarKind::UnixAbsolute) + spec_scan(t, 0, GrammarKind::Relative)
        + spec_scan(t, 0, GrammarKind::HomeRelative) + spec_scan(t, 0, GrammarKind::WindowsDrive)
}

/// Runs the four grammars over already-stripped text and pools their
/// candidates in fixed grammar order.
pub fn scan_path_candidates(text: &str) -> (out: Vec<PathMatch>)
    ensures
        out@.map_values(|m: PathMatch| m@) == spec_candidates(text@),
{
    let t = str_to_chars(text);
    let mut out = scan_kind(&t, GrammarKind::UnixAbsolute);
    let mut b = scan_kind(&t, GrammarKind::Relative);
    let mut c = scan_kind(&t, GrammarKind::HomeRelative);
    let mut d = scan_kind(&t, GrammarKind::WindowsDrive);
    let ghost va = out@.map_values(|m: PathMatch| m@);
    let ghost vb = b@.map_values(|m: PathMatch| m@);
    let ghost vc = c@.map_values(|m: PathMatch| m@);
    let ghost vd = d@.map_values(|m: PathMatch| m@);
    out.append(&mut b);
    out.append(&mut c);
    out.append(&mut d);
    proof {
        assert(out@.map_values(|m: PathMatch| m@) =~= va + vb + vc + vd);
    }
    out
}

/// A validated reference to a local file at spec level.
pub struct SpecRef {
    pub text: Seq<char>,
    pub path: Seq<char>,
    pub kind: GrammarKind,
}

/// A validated reference to a local file: the matched text, the
/// resolved filesystem path, and the grammar that matched it.
#[derive(Debug, Clone)]
pub struct FileReference {
    pub matched_text: String,
    pub resolved_path: String,
    pub kind: GrammarKind,
}

impl View for FileReference {
    type V = SpecRef;

    open spec fn view(&self) -> SpecRef {
        SpecRef { text: self.matched_text@, path: self.resolved_path@, kind: self.kind }
    }
}

/// `s` with one leading `c` removed, when it has one.
pub open spec fn spec_strip_prefix_char(s: Seq<char>, c: char) -> Seq<char> {
    if s.len() > 0 && s[0] == c {
        s.drop_first()
    } else {
        s
    }
}

/// The part of a home-relative match that is joined onto the home
/// directory: the text with its `~` and then one leading `/` removed.
pub open spec fn spec_home_rest(s: Seq<char>) -> Seq<char> {
    spec_strip_prefix_char(spec_strip_prefix_char(s, '~'), '/')
}

/// How one candidate resolves: a home-relative match is expanded
/// against the home directory and dropped when there is none; every
/// other match resolves to its own text.
pub open spec fn spec_resolve_one(m: SpecMatch, home: Option<Seq<char>>) -> Option<SpecRef> {
    match m.kind {
        GrammarKind::HomeRelative => match home {
            None => None,
            Some(h) => Some(
                SpecRef { text: m.text, path: spec_join_path(h, spec_home_rest(m.text)), kind: m.kind },
            ),
        },
        _ => Some(SpecRef { text: m.text, path: m.text, kind: m.kind }),
    }
}

/// The first `k` candidates resolved, in order, with unresolvable
/// home-relative matches dropped.
pub open spec fn spec_resolve(ms: Seq<SpecMatch>, home: Option<Seq<char>>, k: int) -> Seq<SpecRef>
    decreases k,
{
    if k <= 0 {
        Seq::empty()
    } else {
        spec_resolve(ms, home, k - 1) + match spec_resolve_one(ms[k - 1], home) {
            Some(r) => seq![r],
            None => Seq::empty(),
        }
    }
}

fn strip_prefix_char(v: Vec<char>, c: char) -> (r: Vec<char>)
    ensures
        r@ == spec_strip_prefix_char(v@, c),
{
    if v.len() > 0 && v[0] == c {
        let mut v2 = v;
        v2.remove(0);
        proof {
            assert(v2@ =~= v@.drop_first());
        }
        v2
    } else {
        v
    }
}

/// Resolves trimmed candidates against the supplied home directory, as
/// `spec_resolve` states.
pub fn resolve_matches(ms: &Vec<PathMatch>, home: &Option<String>) -> (out: Vec<FileReference>)
    ensures
        out@.map_values(|r: FileReference| r@) == spec_resolve(
            ms@.map_values(|m: PathMatch| m@),
            opt_str_view(*home),
            ms@.len() as int,
        ),
{
    let ghost msv = ms@.map_values(|m: PathMatch| m@);
    let ghost hv = opt_str_view(*home);
    let mut out: Vec<FileReference> = Vec::new();
    let mut k: usize = 0;
    while k < ms.len()
        invariant
            k <= ms@.len(),
            msv == ms@.map_values(|m: PathMatch| m@),
            hv == opt_str_view(*home),
            out@.map_values(|r: FileReference| r@) == spec_resolve(msv, hv, k as int),
        decreases ms.len() - k,
    {
        let m = &ms[k];
        let ghost before = out@.map_values(|r: FileReference| r@);
        match m.kind {
            GrammarKind::HomeRelative => {
                match home {
                    Some(h) => {
                        let tc = str_to_chars(m.text.as_str());
                        let rest = strip_prefix_char(strip_prefix_char(tc, '~'), '/');
                        let rest_s = chars_to_string(&rest);
                        let path = join_path(h.as_str(), rest_s.as_str());
                        out.push(
                            FileReference {
                                matched_text: m.text.clone(),
                                resolved_path: path,
                                kind: m.kind,
                            },
                        );
                        proof {
                            assert(out@.map_values(|r: FileReference| r@) =~= before + seq![
                                spec_resolve_one(msv[k as int], hv)->0,
                            ]);
                        }
                    },
                    None => {
                        proof {
                            assert(out@.map_values(|r: FileReference| r@) =~= before
                                + Seq::<SpecRef>::empty());
                        }
                    },
                }
            },
            _ => {
                out.push(
                    FileReference {
                        matched_text: m.text.clone(),
                        resolved_path: m.text.clone(),
                        kind: m.kind,
                    },
                );
                proof {
                    assert(out@.map_values(|r: FileReference| r@) =~= before + seq![
                        spec_resolve_one(msv[k as int], hv)->0,
                    ]);
                }
            },
        }
        k = k + 1;
    }
    out
}

/// The references whose flag is set, in order: flag `k` answers for
/// reference `k`.
pub open spec fn spec_select(rs: Seq<SpecRef>, flags: Seq<bool>, k: int) -> Seq<SpecRef>
    decreases k,
{
    if k <= 0 {
        Seq::empty()
    } else {
        spec_select(rs, flags, k - 1) + if flags[k - 1] {
            seq![rs[k - 1]]
        } else {
            Seq::empty()
        }
    }
}

/// Keeps exactly the references whose filesystem flag is true,
/// preserving order and multiplicity.
pub fn select_existing(rs: &Vec<FileReference>, flags: &Vec<bool>) -> (out: Vec<FileReference>)
    requires
        flags@.len() == rs@.len(),
    ensures
        out@.map_values(|r: FileReference| r@) == spec_select(
            rs@.map_values(|r: FileReference| r@),
            flags@,
            rs@.len() as int,
        ),
{
    let ghost rsv = rs@.map_values(|r: FileReference| r@);
    let mut out: Vec<FileReference> = Vec::new();
    let mut k: usize = 0;
    while k < rs.len()
        invariant
            k <= rs@.len(),
            flags@.len() == rs@.len(),
            rsv == rs@.map_values(|r: FileReference| r@),
            out@.map_values(|r: FileReference| r@) == spec_select(rsv, flags@, k as int),
        decreases rs.len() - k,
    {
        let ghost before = out@.map_values(|r: FileReference| r@);
        if flags[k] {
            let r = &rs[k];
            out.push(
                FileReference {
                    matched_text: r.matched_text.clone(),
                    resolved_path: r.resolved_path.clone(),
                    kind: r.kind,
                },
            );
            proof {
                assert(out@.map_values(|r: FileReference| r@) =~= before + seq![rsv[k as int]]);
            }
        } else {
            proof {
                assert(out@.map_values(|r: FileReference| r@) =~= before
                    + Seq::<SpecRef>::empty());
            }
        }
        k = k + 1;
    }
    out
}

/// Relies on std::path::Path::is_file: true when the path names an
/// existing regular file on disk. The answer depends on the state of
/// the filesystem, so nothing is promised of it.
#[verifier::external_body]
fn probe_is_regular_file(path: &str) -> bool {
    std::path::Path::new(path).is_file()
}

/// What `detect_local_file_paths` returns for a given home directory
/// and a given vector of filesystem answers: the four grammars'
/// candidates over the URL-stripped text, resolved, with exactly the
/// confirmed ones kept.
pub open spec fn spec_detect(t: Seq<char>, home: Option<Seq<char>>, flags: Seq<bool>) -> Seq<
    SpecRef,
> {
    let cands = spec_candidates(spec_strip_urls(t));
    let rs = spec_resolve(cands, home, cands.len() as int);
    spec_select(rs, flags, rs.len() as int)
}

/// Detects local file path mentions in free-form text. URL substrings
/// are stripped first so that URL path segments are never misread as
/// local paths; the four grammars then run in fixed order, candidates
/// are trimmed and resolved, and only paths the filesystem confirms as
/// regular files are returned. The result is an ordered collection and
/// is not deduplicated across grammars; no input ever raises an error.
pub fn detect_local_file_paths(input: &str) -> (out: Vec<FileReference>)
    ensures
        exists|home: Option<Seq<char>>, flags: Seq<bool>|
            {
                let cands = spec_candidates(spec_strip_urls(input@));
                &&& flags.len() == spec_resolve(cands, home, cands.len() as int).len()
                &&& out@.map_values(|r: FileReference| r@) == #[trigger] spec_detect(
                    input@,
                    home,
                    flags,
                )
            },
{
    let stripped = strip_urls(input);
    let cands = scan_path_candidates(stripped.as_str());
    let home = home_dir_string();
    let refs = resolve_matches(&cands, &home);
    let mut flags: Vec<bool> = Vec::new();
    let mut k: usize = 0;
    while k < refs.len()
        invariant
            k <= refs@.len(),
            flags@.len() == k,
        decreases refs.len() - k,
    {
        let f = probe_is_regular_file(refs[k].resolved_path.as_str());
        flags.push(f);
        k = k + 1;
    }
    let out = select_existing(&refs, &flags);
    proof {
        let ghost hv = opt_str_view(home);
        let ghost cands = spec_candidates(spec_strip_urls(input@));
        assert(refs@.map_values(|r: FileReference| r@).len() == spec_resolve(
            cands,
            hv,
            cands.len() as int,
        ).len());
        assert(flags@.len() == spec_resolve(cands, hv, cands.len() as int).len());
        assert(out@.map_values(|r: FileReference| r@) == spec_detect(input@, hv, flags@));
    }
    out
}

/// Relies on std::path::Path::metadata and Metadata::len: the size in
/// bytes of the file the path names, or nothing when the metadata
/// cannot be read. The answer depends on the state of the filesystem,
/// so nothing is promised of it.
#[verifier::external_body]
fn file_size_of(path: &str) -> Option<u64> {
    match std::path::Path::new(path).metadata() {
        Ok(m) => Some(m.len()),
        Err(_) => None,
    }
}

/// Asks the filesystem about `path` and applies the eligibility gate:
/// only an existing regular file smaller than 10 MiB qualifies for
/// remote processing. The answer follows `crate::is_remote_eligible`
/// applied to whatever the filesystem reported.
pub fn should_process_remotely(path: &str) -> bool {
    let is_file = probe_is_regular_file(path);
    if !is_file {
        return false;
    }
    let size = file_size_of(path);
    crate::is_remote_eligible(is_file, size)
}

/// How a batch of detected file references is to be handled.
#[derive(Debug, Clone, Copy, PartialEq, Eq, Structural)]
pub enum FilePathHandlingOption {
    Upload,
    ProcessLocally,
    Cancel,
}

/// The outcome of one detection call: the untouched input, the
/// references found in it, and the handling decision, once one has
/// been made.
#[derive(Debug, Clone)]
pub struct FilePathDetectionResult {
    pub original_input: String,
    pub detected_paths: Vec<FileReference>,
    pub handling_option: Option<FilePathHandlingOption>,
}

/// The default, non-interactive handling policy: every detected batch
/// is uploaded, whatever it holds.
pub fn prompt_for_file_path_handling(paths: &Vec<FileReference>) -> (r: FilePathHandlingOption)
    ensures
        r == FilePathHandlingOption::Upload,
{
    FilePathHandlingOption::Upload
}

proof fn lemma_strip_urls_from_identity(t: Seq<char>, i: int)
    requires
        0 <= i <= t.len(),
        forall|j: int| 0 <= j < t.len() ==> spec_url_end(t, j) is None,
    ensures
        spec_strip_urls_from(t, i) == t.subrange(i, t.len() as int),
    decreases t.len() - i,
{
    if i >= t.len() {
        assert(t.subrange(i, t.len() as int) =~= Seq::<char>::empty());
    } else {
        lemma_strip_urls_from_identity(t, i + 1);
        assert(seq![t[i]] + t.subrange(i + 1, t.len() as int) =~= t.subrange(i, t.len() as int));
    }
}

/// When the text holds no URL-grammar substring at all, stripping URLs
/// leaves it untouched, so detection scans exactly the original text.
pub proof fn lemma_strip_urls_identity(t: Seq<char>)
    requires
        forall|j: int| 0 <= j < t.len() ==> spec_url_end(t, j) is None,
    ensures
        spec_strip_urls(t) == t,
{
    lemma_strip_urls_from_identity(t, 0);
    assert(t.subrange(0, t.len() as int) =~= t);
}

/// When every filesystem answer is positive, selection keeps every
/// resolved reference: detection returns exactly the references whose
/// path text matches one of the four grammars.
pub proof fn lemma_select_all_true(rs: Seq<SpecRef>, flags: Seq<bool>, k: int)
    requires
        0 <= k <= rs.len(),
        k <= flags.len(),
        forall|j: int| 0 <= j < k ==> flags[j],
    ensures
        spec_select(rs, flags, k) == rs.subrange(0, k),
    decreases k,
{
    if k == 0 {
        assert(rs.subrange(0, 0) =~= Seq::<SpecRef>::empty());
    } else {
        lemma_select_all_true(rs, flags, k - 1);
        assert(rs.subrange(0, k - 1) + seq![rs[k - 1]] =~= rs.subrange(0, k));
    }
}

/// The law of the scanner on URL-free text: when no URL-grammar
/// substring occurs in the text and the filesystem confirms every
/// candidate, detection returns exactly the resolved candidates of the
/// four grammars over the original text.
pub proof fn lemma_detect_url_free(t: Seq<char>, home: Option<Seq<char>>, flags: Seq<bool>)
    requires
        forall|j: int| 0 <= j < t.len() ==> spec_url_end(t, j) is None,
        flags.len() >= spec_resolve(
            spec_candidates(t),
            home,
            spec_candidates(t).len() as int,
        ).len(),
        forall|j: int| 0 <= j < flags.len() ==> flags[j],
    ensures
        spec_detect(t, home, flags) == spec_resolve(
            spec_candidates(t),
            home,
            spec_candidates(t).len() as int,
        ),
{
    lemma_strip_urls_identity(t);
    let rs = spec_resolve(spec_candidates(t), home, spec_candidates(t).len() as int);
    lemma_select_all_true(rs, flags, rs.len() as int);
    assert(rs.subrange(0, rs.len() as int) =~= rs);
}

} // verus!
