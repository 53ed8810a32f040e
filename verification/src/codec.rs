//! The attachment codec: file bytes become a data URL descriptor for the
//! wire, and a wire descriptor is decoded back into raw bytes.

use vstd::prelude::*;
use vstd::string::StringExecFns;
use base64::Engine;

use crate::errors::CoreError;
use crate::strutil::{
    chars_to_string, find_in, slice_chars, spec_find_in, str_to_chars,
};

verus! {

/// The base64 text that the standard-alphabet, padded encoding assigns
/// to a byte sequence.
pub uninterp spec fn b64_of(bytes: Seq<u8>) -> Seq<char>;

/// The MIME type that extension sniffing assigns to a path, falling back
/// to application/octet-stream when no mapping is known.
pub uninterp spec fn mime_of(path: Seq<char>) -> Seq<char>;

/// A character of the standard base64 alphabet, including the padding
/// character.
pub open spec fn is_base64_char(c: char) -> bool {
    ('a' as u32) <= (c as u32) && (c as u32) <= ('z' as u32)
        || ('A' as u32) <= (c as u32) && (c as u32) <= ('Z' as u32)
        || ('0' as u32) <= (c as u32) && (c as u32) <= ('9' as u32)
        || c == '+' || c == '/' || c == '='
}

/// A MIME segment that cannot disturb the data URL structure: non-empty,
/// with no `;` and no `,` in it.
pub open spec fn mime_wf(m: Seq<char>) -> bool {
    m.len() > 0 && forall|i: int| 0 <= i < m.len() ==> #[trigger] m[i] != ';' && m[i] != ','
}

/// A payload drawn entirely from the base64 alphabet.
pub open spec fn payload_wf(p: Seq<char>) -> bool {
    forall|i: int| 0 <= i < p.len() ==> is_base64_char(#[trigger] p[i])
}

/// Relies on base64::engine::general_purpose::STANDARD.encode: the
/// result is a pure function of the input bytes, is 4 * ceil(n / 3)
/// characters long, and is drawn from the standard alphabet with `=`
/// padding. The length bound on the input keeps the internal buffer-size
/// computation from overflowing.
#[verifier::external_body]
fn b64_encode(bytes: &[u8]) -> (r: String)
    requires
        bytes@.len() < usize::MAX as nat / 4 * 3,
    ensures
        r@ == b64_of(bytes@),
        r@.len() == 4 * ((bytes@.len() + 2) / 3),
        payload_wf(r@),
{
    base64::engine::general_purpose::STANDARD.encode(bytes)
}

#[verifier::external_type_specification]
#[verifier::external_body]
pub struct ExDecodeError(base64::DecodeError);

/// Relies on base64::engine::general_purpose::STANDARD.decode: decoding
/// the standard-alphabet, padded encoding of any byte sequence yields
/// exactly those bytes.
#[verifier::external_body]
fn b64_decode(payload: &str) -> (r: Result<Vec<u8>, base64::DecodeError>)
    ensures
        forall|b: Seq<u8>| payload@ == b64_of(b) ==> r is Ok && r->Ok_0@ == b,
{
    base64::engine::general_purpose::STANDARD.decode(payload)
}

/// Relies on mime_guess::from_path, MimeGuess::first_or_octet_stream and
/// Mime::to_string: the guess is a pure function of the path text, and
/// every type it can return -- the entries of the extension table and
/// application/octet-stream -- is non-empty and contains neither `;`
/// nor `,`.
#[verifier::external_body]
fn guess_mime(path: &str) -> (r: String)
    ensures
        r@ == mime_of(path@),
        mime_wf(r@),
{
    mime_guess::from_path(path).first_or_octet_stream().to_string()
}

/// The data URL carrying `payload` as base64 text of type `mime`.
pub open spec fn spec_data_url(mime: Seq<char>, payload: Seq<char>) -> Seq<char> {
    "data:"@ + mime + ";base64,"@ + payload
}

/// Encodes file content as a data URL: the MIME type guessed from the
/// path's extension, then the base64 encoding of the bytes.
pub fn data_url_from_bytes(path: &str, content: &[u8]) -> (r: String)
    requires
        content@.len() < usize::MAX as nat / 4 * 3,
    ensures
        r@ == spec_data_url(mime_of(path@), b64_of(content@)),
        mime_wf(mime_of(path@)),
        payload_wf(b64_of(content@)),
{
    let mime = guess_mime(path);
    let encoded = b64_encode(content);
    let mut out = String::from_str("data:");
    out.append(mime.as_str());
    out.append(";base64,");
    out.append(encoded.as_str());
    proof {
        assert(out@ =~= spec_data_url(mime_of(path@), b64_of(content@)));
    }
    out
}

/// `p` with every trailing `/` removed.
pub open spec fn spec_strip_trailing_slashes(p: Seq<char>) -> Seq<char>
    decreases p.len(),
{
    if p.len() > 0 && p.last() == '/' {
        spec_strip_trailing_slashes(p.drop_last())
    } else {
        p
    }
}

/// The characters of `q` after its last `/` (all of `q` when it has
/// none).
pub open spec fn spec_after_last_slash(q: Seq<char>) -> Seq<char>
    decreases q.len(),
{
    if q.len() == 0 {
        q
    } else if q.last() == '/' {
        Seq::empty()
    } else {
        spec_after_last_slash(q.drop_last()).push(q.last())
    }
}

/// The base file name of a path: the segment after the last `/`, once
/// trailing separators are dropped. `None` when nothing usable is left
/// (an empty path, a root path, or a `.` / `..` segment).
pub open spec fn spec_base_name(p: Seq<char>) -> Option<Seq<char>> {
    let name = spec_after_last_slash(spec_strip_trailing_slashes(p));
    if name.len() == 0 || name == seq!['.'] || name == seq!['.', '.'] {
        None
    } else {
        Some(name)
    }
}

proof fn lemma_after_last_slash_no_slash(q: Seq<char>)
    requires
        forall|j: int| 0 <= j < q.len() ==> q[j] != '/',
    ensures
        spec_after_last_slash(q) == q,
    decreases q.len(),
{
    if q.len() > 0 {
        lemma_after_last_slash_no_slash(q.drop_last());
        assert(spec_after_last_slash(q.drop_last()).push(q.last()) =~= q);
    }
}

proof fn lemma_after_last_slash_at(q: Seq<char>, k: int)
    requires
        0 <= k < q.len(),
        q[k] == '/',
        forall|j: int| k < j < q.len() ==> q[j] != '/',
    ensures
        spec_after_last_slash(q) == q.subrange(k + 1, q.len() as int),
    decreases q.len(),
{
    if k == q.len() - 1 {
        assert(q.subrange(k + 1, q.len() as int) =~= Seq::<char>::empty());
    } else {
        lemma_after_last_slash_at(q.drop_last(), k);
        assert(q.drop_last().subrange(k + 1, q.len() - 1).push(q.last()) =~= q.subrange(
            k + 1,
            q.len() as int,
        ));
    }
}

/// The invariant of the wire descriptor's name: whatever the path, the
/// extracted base name never holds a `/`, so directory components are
/// never transmitted.
pub proof fn lemma_base_name_has_no_separator(p: Seq<char>)
    ensures
        spec_base_name(p) matches Some(n) ==> forall|i: int|
            0 <= i < n.len() ==> #[trigger] n[i] != '/',
{
    lemma_after_last_slash_no_sep(spec_strip_trailing_slashes(p));
}

proof fn lemma_after_last_slash_no_sep(q: Seq<char>)
    ensures
        forall|i: int|
            0 <= i < spec_after_last_slash(q).len() ==> #[trigger] spec_after_last_slash(q)[i]
                != '/',
    decreases q.len(),
{
    if q.len() > 0 && q.last() != '/' {
        lemma_after_last_slash_no_sep(q.drop_last());
        let r = spec_after_last_slash(q);
        let pr = spec_after_last_slash(q.drop_last());
        assert forall|i: int| 0 <= i < r.len() implies #[trigger] r[i] != '/' by {
            if i < pr.len() {
                assert(r[i] == pr[i]);
            } else {
                assert(r[i] == q.last());
            }
        }
    }
}

/// Extracts the base file name of a path, as `spec_base_name` states.
pub fn base_file_name(path: &str) -> (r: Option<String>)
    ensures
        match r {
            Some(s) => spec_base_name(path@) == Some(s@),
            None => spec_base_name(path@) is None,
        },
{
    let mut v = str_to_chars(path);
    while v.len() > 0 && v[v.len() - 1] == '/'
        invariant
            spec_strip_trailing_slashes(path@) == spec_strip_trailing_slashes(v@),
        decreases v.len(),
    {
        let ghost before = v@;
        v.pop();
        proof {
            assert(v@ =~= before.drop_last());
        }
    }
    proof {
        assert(spec_strip_trailing_slashes(v@) == v@);
    }
    // find the last slash in what is left
    let mut i: usize = v.len();
    while i > 0 && v[i - 1] != '/'
        invariant
            i <= v.len(),
            forall|j: int| i <= j < v.len() ==> v@[j] != '/',
        decreases i,
    {
        i = i - 1;
    }
    let name = slice_chars(&v, i, v.len());
    proof {
        if i == 0 {
            lemma_after_last_slash_no_slash(v@);
            assert(name@ =~= v@);
        } else {
            lemma_after_last_slash_at(v@, i - 1);
        }
        assert(spec_after_last_slash(v@) == name@);
    }
    if name.len() == 0 {
        return None;
    }
    if name.len() == 1 && name[0] == '.' {
        proof {
            assert(name@ =~= seq!['.']);
        }
        return None;
    }
    if name.len() == 2 && name[0] == '.' && name[1] == '.' {
        proof {
            assert(name@ =~= seq!['.', '.']);
        }
        return None;
    }
    proof {
        assert(name@ != seq!['.'] && name@ != seq!['.', '.']) by {
            if name@ == seq!['.'] {
                assert(name@.len() == 1 && name@[0] == '.');
            }
            if name@ == seq!['.', '.'] {
                assert(name@.len() == 2 && name@[0] == '.' && name@[1] == '.');
            }
        }
    }
    Some(chars_to_string(&name))
}

/// The wire descriptor for one file: its base name and its content as a
/// data URL. The directory part of the path is never carried along.
#[derive(Debug, Clone)]
pub struct AttachmentDescriptor {
    pub name: String,
    pub content: String,
}

/// Builds the wire descriptor for one file's bytes: the content becomes
/// a data URL and the name the path's base file name; a path with no
/// extractable file name is a validation error.
pub fn attachment_from_bytes(path: &str, content: &[u8]) -> (r: Result<
    AttachmentDescriptor,
    CoreError,
>)
    requires
        content@.len() < usize::MAX as nat / 4 * 3,
    ensures
        match r {
            Ok(d) => {
                &&& spec_base_name(path@) == Some(d.name@)
                &&& d.content@ == spec_data_url(mime_of(path@), b64_of(content@))
                &&& mime_wf(mime_of(path@))
                &&& payload_wf(b64_of(content@))
            },
            Err(e) => spec_base_name(path@) is None && e is Validation,
        },
{
    let content_url = data_url_from_bytes(path, content);
    match base_file_name(path) {
        Some(name) => Ok(AttachmentDescriptor { name, content: content_url }),
        None => Err(CoreError::Validation(String::from_str("Invalid file name"))),
    }
}

/// Encodes a batch of files, fail-fast: the first path with no usable
/// file name aborts the batch and no partial result is returned.
pub fn attachments_from_bytes(files: &Vec<(String, Vec<u8>)>) -> (r: Result<
    Vec<AttachmentDescriptor>,
    CoreError,
>)
    requires
        forall|j: int|
            0 <= j < files@.len() ==> (#[trigger] files@[j].1)@.len() < usize::MAX as nat / 4 * 3,
    ensures
        match r {
            Ok(v) => {
                &&& v@.len() == files@.len()
                &&& forall|j: int|
                    0 <= j < v@.len() ==> {
                        &&& spec_base_name((#[trigger] files@[j].0)@) == Some(v@[j].name@)
                        &&& v@[j].content@ == spec_data_url(
                            mime_of(files@[j].0@),
                            b64_of(files@[j].1@),
                        )
                    }
            },
            Err(e) => {
                &&& e is Validation
                &&& exists|j: int|
                    #![auto]
                    0 <= j < files@.len() && spec_base_name(files@[j].0@) is None
            },
        },
{
    let mut out: Vec<AttachmentDescriptor> = Vec::new();
    let mut i: usize = 0;
    while i < files.len()
        invariant
            i <= files.len(),
            out@.len() == i,
            forall|j: int|
                0 <= j < files@.len() ==> (#[trigger] files@[j].1)@.len() < usize::MAX as nat / 4
                    * 3,
            forall|j: int|
                0 <= j < i ==> {
                    &&& spec_base_name((#[trigger] files@[j].0)@) == Some(out@[j].name@)
                    &&& out@[j].content@ == spec_data_url(
                        mime_of(files@[j].0@),
                        b64_of(files@[j].1@),
                    )
                },
        decreases files.len() - i,
    {
        let (path, bytes) = &files[i];
        match attachment_from_bytes(path.as_str(), bytes.as_slice()) {
            Ok(d) => out.push(d),
            Err(e) => {
                return Err(e);
            },
        }
        i = i + 1;
    }
    Ok(out)
}

/// Splits a data URL as the decoder does: once on the first `;`, with a
/// `:` required before it, then once on the first `,` after it; the
/// payload is everything after that `,`. `None` when any of the three
/// marks is missing.
pub open spec fn spec_split_data_url(s: Seq<char>) -> Option<Seq<char>> {
    match spec_find_in(s, ';', 0, s.len() as int) {
        None => None,
        Some(si) => {
            if spec_find_in(s, ':', 0, si) is None {
                None
            } else {
                match spec_find_in(s, ',', si + 1, s.len() as int) {
                    None => None,
                    Some(ci) => Some(s.subrange(ci + 1, s.len() as int)),
                }
            }
        },
    }
}

/// Decodes the payload of a data URL back into bytes. A URL that does
/// not split into scheme, `base64` marker and payload is a format
/// error; a payload the standard alphabet cannot decode is a decode
/// error. The MIME segment is parsed but never validated against the
/// payload.
pub fn decode_data_url(content: &str) -> (r: Result<Vec<u8>, CoreError>)
    ensures
        match spec_split_data_url(content@) {
            None => r matches Err(e) && e is Format,
            Some(payload) => {
                &&& forall|b: Seq<u8>| payload == b64_of(b) ==> r is Ok && r->Ok_0@ == b
                &&& (r matches Err(e) ==> e is Decode)
            },
        },
{
    let t = str_to_chars(content);
    let si = match find_in(&t, ';', 0, t.len()) {
        Some(k) => k,
        None => {
            return Err(CoreError::Format(String::from_str("Invalid data URL format")));
        },
    };
    if find_in(&t, ':', 0, si).is_none() {
        return Err(CoreError::Format(String::from_str("Invalid MIME type in data URL")));
    }
    let ci = match find_in(&t, ',', si + 1, t.len()) {
        Some(k) => k,
        None => {
            return Err(CoreError::Format(String::from_str("Invalid base64 data in data URL")));
        },
    };
    let payload_chars = slice_chars(&t, ci + 1, t.len());
    let payload = chars_to_string(&payload_chars);
    match b64_decode(payload.as_str()) {
        Ok(bytes) => Ok(bytes),
        Err(_) => Err(CoreError::Decode(String::from_str("Invalid base64 payload"))),
    }
}

/// A wire attachment as it arrives from the remote side: both fields
/// are optional because the wire structure may lack them.
#[derive(Debug, Clone)]
pub struct WireAttachment {
    pub name: Option<String>,
    pub content: Option<String>,
}

/// A wire attachment whose fields are present and whose content splits
/// as a data URL.
pub open spec fn spec_wire_ok(a: WireAttachment) -> bool {
    a.content is Some && a.name is Some && spec_split_data_url(a.content->0@) is Some
}

/// The payload segment of a well-formed wire attachment's data URL.
pub open spec fn spec_wire_payload(a: WireAttachment) -> Seq<char> {
    spec_split_data_url(a.content->0@)->0
}

/// Validates one wire attachment and decodes its content: a missing
/// `content` or `name` field is a format error; otherwise the data URL
/// is decoded and the pair of file name and raw bytes returned.
pub fn process_attachment(att: &WireAttachment) -> (r: Result<(String, Vec<u8>), CoreError>)
    ensures
        match att.content {
            None => r matches Err(e) && e is Format,
            Some(c) => match att.name {
                None => r matches Err(e) && e is Format,
                Some(n) => match spec_split_data_url(c@) {
                    None => r matches Err(e) && e is Format,
                    Some(payload) => {
                        &&& forall|b: Seq<u8>|
                            payload == b64_of(b) ==> r is Ok && r->Ok_0.0@ == n@ && r->Ok_0.1@ == b
                        &&& (r is Ok ==> r->Ok_0.0@ == n@)
                        &&& (r matches Err(e) ==> e is Decode)
                    },
                },
            },
        },
{
    let content = match &att.content {
        Some(c) => c,
        None => {
            return Err(CoreError::Format(String::from_str("Attachment missing content field")));
        },
    };
    let name = match &att.name {
        Some(n) => n,
        None => {
            return Err(CoreError::Format(String::from_str("Attachment missing name field")));
        },
    };
    match decode_data_url(content.as_str()) {
        Ok(bytes) => Ok((name.clone(), bytes)),
        Err(e) => Err(e),
    }
}

/// Decodes a batch of wire attachments, fail-fast: the first malformed
/// or undecodable descriptor aborts the batch and no partial results
/// are returned. A batch in which every descriptor is well-formed and
/// every payload is a standard base64 encoding always succeeds.
pub fn process_attachments(atts: &Vec<WireAttachment>) -> (r: Result<
    Vec<(String, Vec<u8>)>,
    CoreError,
>)
    ensures
        match r {
            Ok(v) => {
                &&& v@.len() == atts@.len()
                &&& forall|j: int|
                    0 <= j < v@.len() ==> {
                        &&& spec_wire_ok(#[trigger] atts@[j])
                        &&& v@[j].0@ == atts@[j].name->0@
                        &&& forall|b: Seq<u8>|
                            spec_wire_payload(atts@[j]) == b64_of(b) ==> v@[j].1@ == b
                    }
            },
            Err(e) => e is Format || e is Decode,
        },
        (forall|j: int|
            0 <= j < atts@.len() ==> spec_wire_ok(#[trigger] atts@[j]) && exists|b: Seq<u8>|
                spec_wire_payload(atts@[j]) == b64_of(b)) ==> r is Ok,
{
    let mut out: Vec<(String, Vec<u8>)> = Vec::new();
    let mut i: usize = 0;
    while i < atts.len()
        invariant
            i <= atts.len(),
            out@.len() == i,
            forall|j: int|
                0 <= j < i ==> {
                    &&& spec_wire_ok(#[trigger] atts@[j])
                    &&& out@[j].0@ == atts@[j].name->0@
                    &&& forall|b: Seq<u8>|
                        spec_wire_payload(atts@[j]) == b64_of(b) ==> out@[j].1@ == b
                },
        decreases atts.len() - i,
    {
        match process_attachment(&atts[i]) {
            Ok(p) => out.push(p),
            Err(e) => {
                proof {
                    if forall|j: int|
                        0 <= j < atts@.len() ==> spec_wire_ok(#[trigger] atts@[j]) && exists|
                        b: Seq<u8>,
                    | spec_wire_payload(atts@[j]) == b64_of(b) {
                        assert(spec_wire_ok(atts@[i as int]));
                        let b = choose|b: Seq<u8>| spec_wire_payload(atts@[i as int]) == b64_of(b);
                        assert(false);
                    }
                }
                return Err(e);
            },
        }
        i = i + 1;
    }
    Ok(out)
}

proof fn lemma_find_in_hit(s: Seq<char>, c: char, i: int, end: int, k: int)
    requires
        0 <= i <= k < end,
        end <= s.len(),
        s[k] == c,
        forall|j: int| i <= j < k ==> s[j] != c,
    ensures
        spec_find_in(s, c, i, end) == Some(k),
    decreases k - i,
{
    if i < k {
        lemma_find_in_hit(s, c, i + 1, end, k);
    }
}

/// The round-trip law of the codec: splitting the data URL built from a
/// well-formed MIME segment and any payload recovers exactly that
/// payload. Together with the decoder's contract this gives
/// `decode(encode(bytes)) == Ok(bytes)` for every byte content.
pub proof fn lemma_data_url_round_trip(mime: Seq<char>, payload: Seq<char>)
    requires
        mime_wf(mime),
    ensures
        spec_split_data_url(spec_data_url(mime, payload)) == Some(payload),
{
    reveal_strlit("data:");
    reveal_strlit(";base64,");
    let s = spec_data_url(mime, payload);
    let m = mime.len() as int;
    assert(s.len() == 13 + m + payload.len());
    let si = 5 + m;
    assert(s[si] == ';');
    assert forall|j: int| 0 <= j < si implies s[j] != ';' by {
        if j < 5 {
            assert(s[j] == "data:"@[j]);
        } else {
            assert(s[j] == mime[j - 5]);
        }
    }
    lemma_find_in_hit(s, ';', 0, s.len() as int, si);
    assert(s[4] == ':');
    assert forall|j: int| 0 <= j < 4 implies s[j] != ':' by {
        assert(s[j] == "data:"@[j]);
    }
    lemma_find_in_hit(s, ':', 0, si, 4);
    let ci = si + 7;
    assert(s[ci] == ',') by {
        assert(s[ci] == ";base64,"@[7]);
    }
    assert forall|j: int| si + 1 <= j < ci implies s[j] != ',' by {
        assert(s[j] == ";base64,"@[j - si]);
    }
    lemma_find_in_hit(s, ',', si + 1, s.len() as int, ci);
    assert(s.subrange(ci + 1, s.len() as int) =~= payload);
}

} // verus!
