//! Enrichment client logic: building the request body around the
//! base64-encoded image payload, reading the reply's text field, and the
//! split rule that turns the model's raw output into a description and a
//! keyword list.

use vstd::prelude::*;
use crate::record::EnrichmentError;

verus! {

/// What the standard base64 engine encodes these bytes to.
pub uninterp spec fn base64_of(b: Seq<u8>) -> Seq<char>;

/// Relies on base64's `Engine::encode` with the STANDARD (padded) engine:
/// the encoding depends on the input bytes alone.
#[verifier::external_body]
fn base64_encode(b: &Vec<u8>) -> (r: String)
    ensures
        r@ == base64_of(b@),
{
    base64::Engine::encode(&base64::engine::general_purpose::STANDARD, b)
}

/// The part of the request body before the encoded payload.
pub open spec fn request_prefix() -> Seq<char> {
    "{\"images\":[\""@
}

/// The part of the request body after the encoded payload: the fixed model
/// identifier, the fixed instruction prompt, and the flag that disables
/// streaming.
pub open spec fn request_suffix() -> Seq<char> {
    "\"],\"model\":\"llava\",\"prompt\":\"Analyze this image and provide: 1. A concise description of what you see 2. A list of relevant keywords separated by commas\",\"stream\":false}"@
}

/// The whole request body for one image payload.
pub open spec fn analysis_request(b: Seq<u8>) -> Seq<char> {
    request_prefix() + base64_of(b) + request_suffix()
}

/// Builds the JSON request body that asks the enrichment service to analyze
/// one image: the fixed envelope around the base64-encoded payload.
pub fn build_analysis_request(bytes: &Vec<u8>) -> (r: String)
    ensures
        r@ == analysis_request(bytes@),
{
    let mut s = String::from_str("{\"images\":[\"");
    let b64 = base64_encode(bytes);
    s.append(b64.as_str());
    s.append(
        "\"],\"model\":\"llava\",\"prompt\":\"Analyze this image and provide: 1. A concise description of what you see 2. A list of relevant keywords separated by commas\",\"stream\":false}",
    );
    s
}

/// What reading the enrichment reply's envelope yields: `None` when the
/// reply is not well-formed JSON; otherwise `Some` of its `response` field's
/// text, which is itself absent when that field is missing or not a string.
pub uninterp spec fn response_field_of(body: Seq<char>) -> Option<Option<Seq<char>>>;

/// Relies on `serde_json::from_str::<Value>`, `Value`'s index by key (which
/// yields `Null` rather than panicking) and `Value::as_str`: what they yield
/// depends on the body text alone.
#[verifier::external_body]
fn response_text(body: &str) -> (r: Result<Option<String>, serde_json::Error>)
    ensures
        (r is Ok) == (response_field_of(body@) is Some),
        r matches Ok(t) ==> response_field_of(body@) matches Some(f) && (f is Some == t is Some)
            && (t matches Some(s) ==> f == Some(s@)),
{
    match serde_json::from_str::<serde_json::Value>(body) {
        Ok(v) => Ok(v["response"].as_str().map(|s: &str| s.to_owned())),
        Err(e) => Err(e),
    }
}

/// The raw model output the pipeline works on: the reply's text field where
/// the envelope carries one, and the fixed placeholder where the envelope is
/// well-formed but the field is missing or not a string. Substituting the
/// placeholder, rather than failing, is this library's one documented policy
/// for that case.
pub open spec fn raw_output_of(field: Option<Seq<char>>) -> Seq<char> {
    match field {
        Some(t) => t,
        None => "No response"@,
    }
}

#[verifier::external_type_specification]
#[verifier::external_body]
pub struct ExSerdeJsonError(serde_json::Error);

/// A blank-line boundary stands at position `i` of `s`.
pub open spec fn sep_at(s: Seq<char>, i: int) -> bool {
    0 <= i && i + 2 <= s.len() && s[i] == '\n' && s[i + 1] == '\n'
}

/// The position of the first blank-line boundary at or after `from`, or the
/// length of `s` when there is none.
pub open spec fn first_sep_from(s: Seq<char>, from: int) -> int
    decreases s.len() - from,
{
    if from < 0 || from + 2 > s.len() {
        s.len() as int
    } else if sep_at(s, from) {
        from
    } else {
        first_sep_from(s, from + 1)
    }
}

/// The fixed literal prefix that marks the keyword part.
pub open spec fn kw_prefix() -> Seq<char> {
    seq!['K', 'e', 'y', 'w', 'o', 'r', 'd', 's', ':', ' ']
}

/// Strips the keyword-marker prefix from `s` once, when it is present.
pub open spec fn strip_keywords(s: Seq<char>) -> Seq<char> {
    if s.len() >= 10 && s.take(10) == kw_prefix() {
        s.skip(10)
    } else {
        s
    }
}

/// Part 0 of the raw model output: everything before the first blank-line
/// boundary, or the whole output when there is none.
pub open spec fn split_description(raw: Seq<char>) -> Seq<char> {
    raw.take(first_sep_from(raw, 0))
}

/// Part 1 of the raw model output: everything after the first blank-line
/// boundary, with the keyword marker stripped once if present; empty when
/// the output has no boundary at all.
pub open spec fn split_keywords(raw: Seq<char>) -> Seq<char> {
    let i = first_sep_from(raw, 0);
    if i < raw.len() {
        strip_keywords(raw.skip(i + 2))
    } else {
        Seq::empty()
    }
}

proof fn lemma_first_sep_found(s: Seq<char>, from: int, i: int)
    requires
        0 <= from <= i,
        sep_at(s, i),
        forall|j: int| from <= j < i ==> !sep_at(s, j),
    ensures
        first_sep_from(s, from) == i,
    decreases i - from,
{
    if from < i {
        lemma_first_sep_found(s, from + 1, i);
    }
}

proof fn lemma_first_sep_none(s: Seq<char>, from: int)
    requires
        0 <= from,
        forall|j: int| from <= j ==> !sep_at(s, j),
    ensures
        first_sep_from(s, from) == s.len(),
    decreases s.len() - from,
{
    if from + 2 <= s.len() {
        lemma_first_sep_none(s, from + 1);
    }
}

/// Raw model output without any blank-line boundary splits into itself and
/// an empty keyword list: the missing part resolves to an empty string.
pub proof fn lemma_split_without_separator(raw: Seq<char>)
    requires
        forall|i: int| !sep_at(raw, i),
    ensures
        split_description(raw) == raw,
        split_keywords(raw) == Seq::<char>::empty(),
{
    lemma_first_sep_none(raw, 0);
    assert(raw.take(raw.len() as int) =~= raw);
}

/// True exactly when `s` starts with the keyword-marker prefix.
fn has_kw_prefix(s: &str) -> (r: bool)
    ensures
        r == (s@.len() >= 10 && s@.take(10) == kw_prefix()),
{
    proof {
        reveal_strlit("Keywords: ");
    }
    let marker = "Keywords: ";
    if s.unicode_len() < 10 {
        return false;
    }
    let mut i: usize = 0;
    while i < 10
        invariant
            s@.len() >= 10,
            marker@ =~= kw_prefix(),
            0 <= i <= 10,
            forall|j: int| 0 <= j < i ==> s@[j] == kw_prefix()[j],
        decreases 10 - i,
    {
        if s.get_char(i) != marker.get_char(i) {
            assert(s@.take(10)[i as int] != kw_prefix()[i as int]);
            return false;
        }
        i += 1;
    }
    assert(s@.take(10) =~= kw_prefix());
    true
}

/// Finds the first blank-line boundary of `s` at or after `from`; returns
/// the length of `s` when there is none.
fn find_sep(s: &str, from: usize) -> (r: usize)
    requires
        from <= s@.len(),
    ensures
        r == first_sep_from(s@, from as int),
        from <= r <= s@.len(),
        r < s@.len() ==> sep_at(s@, r as int),
{
    let n = s.unicode_len();
    let mut i: usize = from;
    while i < n && i + 1 < n
        invariant
            n == s@.len(),
            from <= i <= n,
            forall|j: int| from <= j < i ==> !sep_at(s@, j),
        decreases n - i,
    {
        if s.get_char(i) == '\n' && s.get_char(i + 1) == '\n' {
            proof {
                lemma_first_sep_found(s@, from as int, i as int);
            }
            return i;
        }
        i += 1;
    }
    proof {
        lemma_first_sep_none(s@, from as int);
    }
    n
}

/// Splits the raw model output on its first blank-line boundary: part 0 is
/// the description verbatim; part 1, with the fixed `Keywords: ` marker
/// stripped once if present, is the keyword list; a missing part resolves
/// to an empty string, never an error.
pub fn split_analysis(raw: &str) -> (r: (String, String))
    ensures
        r.0@ == split_description(raw@),
        r.1@ == split_keywords(raw@),
{
    let n = raw.unicode_len();
    let i = find_sep(raw, 0);
    let description = String::from_str(raw.substring_char(0, i));
    assert(description@ =~= split_description(raw@));
    if i >= n {
        let keywords = String::new();
        assert(keywords@ =~= split_keywords(raw@));
        return (description, keywords);
    }
    let mut part: &str = raw.substring_char(i + 2, n);
    if has_kw_prefix(part) {
        part = part.substring_char(10, part.unicode_len());
    }
    let keywords = String::from_str(part);
    assert(keywords@ == strip_keywords(raw@.skip(i + 2)));
    (description, keywords)
}

/// Whether a transport status from the enrichment service counts as
/// success.
pub open spec fn status_ok(status: u16) -> bool {
    200 <= status < 300
}

/// Reads the enrichment reply: a non-2xx status is a failure whatever the
/// body holds; otherwise the raw model output is pulled out of the JSON
/// envelope (the fixed placeholder standing in for a missing text field)
/// and the split rule applied. Fails exactly when the status is not a
/// success or the envelope is not well-formed JSON.
pub fn parse_analysis(status: u16, body: &str) -> (r: Result<(String, String), EnrichmentError>)
    ensures
        (r is Ok) == (status_ok(status) && response_field_of(body@) is Some),
        r matches Ok(dk) ==> {
            &&& dk.0@ == split_description(raw_output_of(response_field_of(body@)->Some_0))
            &&& dk.1@ == split_keywords(raw_output_of(response_field_of(body@)->Some_0))
        },
        r matches Err(e) ==> e == (if !status_ok(status) {
            EnrichmentError::Status(status)
        } else {
            EnrichmentError::BadResponse
        }),
{
    if status < 200 || status >= 300 {
        return Err(EnrichmentError::Status(status));
    }
    match response_text(body) {
        Ok(Some(t)) => Ok(split_analysis(t.as_str())),
        Ok(None) => Ok(split_analysis("No response")),
        Err(_) => Err(EnrichmentError::BadResponse),
    }
}

} // verus!
