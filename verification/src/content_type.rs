//! The Content-Type Matcher: classifies a raw `Content-Type` header value as
//! designating the MessagePack format or not.
//!
//! Classification is a pure, total function of the header value alone — it
//! never consults a body, never errs and never panics.  A header matches iff
//! it parses as a MIME type whose primary type is `application` and whose
//! subtype is one of the recognized set (`msgpack`, `x-msgpack`) or carries
//! the structured suffix `msgpack`; MIME parameters are ignored entirely.

use vstd::prelude::*;

verus! {

/// Header bytes that are interpretable as text: every byte is visible ASCII
/// or a horizontal tab.  This is the rule by which the `http` crate's
/// `HeaderValue::to_str` accepts a header value; a value outside it is
/// classified as not matching, never as an error.
pub open spec fn is_header_text(b: Seq<u8>) -> bool {
    forall|i: int| 0 <= i < b.len() ==> (32 <= #[trigger] b[i] < 127 || b[i] == 9)
}

/// What the `mime` crate parses a header string into: `None` where the text
/// is not a well-formed MIME type, otherwise the parsed primary type, subtype
/// and optional structured suffix (`type/subtype[+suffix]`, parameters
/// dropped).  The parse is a function of the input text alone; its value is
/// stated nowhere and enters contracts only through [`parse_mime_parts`].
pub uninterp spec fn mime_parts(b: Seq<u8>) -> Option<(Seq<char>, Seq<char>, Option<Seq<char>>)>;

/// Relies on `str::parse::<mime::Mime>` and on `Mime::type_`, `Mime::subtype`
/// and `Mime::suffix`: the parse outcome and the parsed components are
/// functions of the input text alone (`std::str::from_utf8` only converts the
/// argument).
#[verifier::external_body]
fn parse_mime_parts(b: &Vec<u8>) -> (r: Option<(String, String, Option<String>)>)
    ensures
        r.deep_view() == mime_parts(b@),
{
    let parsed = std::str::from_utf8(b).ok().and_then(|s| s.parse::<mime::Mime>().ok());
    parsed.map(|m| {
        (
            m.type_().as_str().to_owned(),
            m.subtype().as_str().to_owned(),
            m.suffix().map(|n| n.as_str().to_owned()),
        )
    })
}

/// The classification rule over parsed MIME components: the primary type must
/// be exactly `application`, and either the subtype is exactly one of the
/// recognized set (`msgpack`, `x-msgpack`) or the structured suffix is
/// exactly `msgpack`.  Comparisons are case-sensitive exact matches on the
/// parsed components; parameters do not appear and so cannot play a part.
pub open spec fn spec_is_msgpack_parts(t: Seq<char>, sub: Seq<char>, suffix: Option<Seq<char>>) -> bool {
    t == "application"@ && (sub == "msgpack"@ || sub == "x-msgpack"@ || suffix == Some("msgpack"@))
}

/// Classification of one raw header value: it must be interpretable text,
/// parse as a MIME type, and its components must satisfy the rule.
pub open spec fn spec_is_msgpack_content_type(b: Seq<u8>) -> bool {
    &&& is_header_text(b)
    &&& match mime_parts(b) {
        Some(p) => spec_is_msgpack_parts(p.0, p.1, p.2),
        None => false,
    }
}

/// The Content-Type Matcher over an optional raw header value: an absent
/// header never matches (absence is a legitimate "use default" signal, not an
/// error).
pub open spec fn spec_matches_content_type(ct: Option<Seq<u8>>) -> bool {
    match ct {
        Some(b) => spec_is_msgpack_content_type(b),
        None => false,
    }
}

/// Whether every byte of `b` is visible ASCII or a tab.
pub fn is_header_text_bytes(b: &Vec<u8>) -> (r: bool)
    ensures
        r == is_header_text(b@),
{
    let mut i: usize = 0;
    while i < b.len()
        invariant
            0 <= i <= b@.len(),
            forall|j: int| 0 <= j < i ==> (32 <= #[trigger] b@[j] < 127 || b@[j] == 9),
        decreases b@.len() - i,
    {
        let c = b[i];
        if !((32 <= c && c < 127) || c == 9) {
            return false;
        }
        i += 1;
    }
    true
}

/// Decide the classification rule on parsed MIME components.
pub fn is_msgpack_parts(t: &String, sub: &String, suffix: Option<&String>) -> (r: bool)
    ensures
        r == spec_is_msgpack_parts(t@, sub@, suffix.deep_view()),
{
    let application: String = "application".to_owned();
    let msgpack: String = "msgpack".to_owned();
    let x_msgpack: String = "x-msgpack".to_owned();
    if !(*t == application) {
        return false;
    }
    if *sub == msgpack || *sub == x_msgpack {
        return true;
    }
    match suffix {
        Some(s) => *s == msgpack,
        None => false,
    }
}

/// The raw header value an optional byte vector holds.
pub open spec fn opt_bytes_view(ct: Option<&Vec<u8>>) -> Option<Seq<u8>> {
    match ct {
        Some(b) => Some(b@),
        None => None,
    }
}

/// The Content-Type Matcher: does this optional raw `Content-Type` header
/// value designate the MessagePack format?
pub fn matches_content_type(ct: Option<&Vec<u8>>) -> (r: bool)
    ensures
        r == spec_matches_content_type(opt_bytes_view(ct)),
{
    match ct {
        None => false,
        Some(b) => {
            if !is_header_text_bytes(b) {
                return false;
            }
            match parse_mime_parts(b) {
                None => false,
                Some((t, sub, suffix)) => match &suffix {
                    Some(s) => is_msgpack_parts(&t, &sub, Some(s)),
                    None => is_msgpack_parts(&t, &sub, None),
                },
            }
        },
    }
}

/// Law: a MIME type whose primary type is not exactly `application` never
/// matches, whatever its subtype and suffix.
pub proof fn lemma_non_application_never_matches(t: Seq<char>, sub: Seq<char>, suffix: Option<Seq<char>>)
    requires
        t != "application"@,
    ensures
        !spec_is_msgpack_parts(t, sub, suffix),
{
}

/// Law: under the primary type `application`, each recognized subtype and any
/// subtype carrying the structured suffix `msgpack` matches.  Classification
/// is a function of the three parsed components alone, so MIME parameters
/// cannot change the result.
pub proof fn lemma_recognized_parts_match(sub: Seq<char>, suffix: Option<Seq<char>>)
    requires
        sub == "msgpack"@ || sub == "x-msgpack"@ || suffix == Some("msgpack"@),
    ensures
        spec_is_msgpack_parts("application"@, sub, suffix),
{
}

/// Law: an absent `Content-Type` header never matches.
pub proof fn lemma_absent_header_never_matches()
    ensures
        !spec_matches_content_type(None::<Seq<u8>>),
{
}

} // verus!
