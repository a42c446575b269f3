use vstd::prelude::*;

use crate::text::{chars_of, contains_any, contains_any_exec, words_view};

verus! {

/// The outcome of matching one probe's text against the device signature.
#[derive(PartialEq, Eq, Structural, Clone, Copy, Debug)]
pub enum Verdict {
    Accept,
    Reject,
    Inconclusive,
}

impl Verdict {
    pub open spec fn is_decisive(self) -> bool {
        !(self is Inconclusive)
    }
}

/// The lower-case form of a text, as `str::to_lowercase` gives it.
pub uninterp spec fn lower_of(s: Seq<char>) -> Seq<char>;

/// Relies on `str::to_lowercase`: the result is a function of the characters alone.
#[verifier::external_body]
fn lowercase(s: &str) -> (r: String)
    ensures
        r@ == lower_of(s@),
{
    s.to_lowercase()
}

/// Words that mark a look-alike device (cameras and the like); they dominate any match.
pub open spec fn exclusion_words() -> Seq<Seq<char>> {
    seq!["picvision"@, "hikvision"@, "hik-vision"@, "camera"@, "ipcam"@, "video"@]
}

/// Words that the device's own identification endpoint carries.
pub open spec fn primary_words() -> Seq<Seq<char>> {
    seq!["shelly"@]
}

/// Words that the device's status and settings payloads carry.
pub open spec fn extended_words() -> Seq<Seq<char>> {
    seq!["shelly"@, "wifi_sta"@, "meter"@, "relay"@]
}

/// The verdict on an already lower-cased text: exclusion first, then acceptance.
pub open spec fn verdict_of(lowered: Seq<char>, accept: Seq<Seq<char>>) -> Verdict {
    if contains_any(lowered, exclusion_words()) {
        Verdict::Reject
    } else if contains_any(lowered, accept) {
        Verdict::Accept
    } else {
        Verdict::Inconclusive
    }
}

/// The verdict on a raw text.
pub open spec fn classification(text: Seq<char>, accept: Seq<Seq<char>>) -> Verdict {
    verdict_of(lower_of(text), accept)
}

fn words_of(ws: &Vec<String>) -> (r: Vec<Vec<char>>)
    ensures
        words_view(r@) == ws.deep_view(),
{
    let mut out: Vec<Vec<char>> = Vec::new();
    let mut j: usize = 0;
    while j < ws.len()
        invariant
            j <= ws@.len(),
            out@.len() == j,
            forall|m: int| 0 <= m < j ==> out@[m]@ == ws@[m]@,
        decreases ws@.len() - j,
    {
        let w = chars_of(ws[j].as_str());
        out.push(w);
        j = j + 1;
    }
    assert(words_view(out@) =~= ws.deep_view());
    out
}

fn exclusion_list() -> (r: Vec<Vec<char>>)
    ensures
        words_view(r@) == exclusion_words(),
{
    let mut out: Vec<Vec<char>> = Vec::new();
    out.push(chars_of("picvision"));
    out.push(chars_of("hikvision"));
    out.push(chars_of("hik-vision"));
    out.push(chars_of("camera"));
    out.push(chars_of("ipcam"));
    out.push(chars_of("video"));
    assert(words_view(out@) =~= exclusion_words());
    out
}

/// The keyword set used on the identification endpoint.
pub fn primary_keywords() -> (r: Vec<String>)
    ensures
        r.deep_view() == primary_words(),
{
    let mut out: Vec<String> = Vec::new();
    out.push(String::from_str("shelly"));
    assert(out.deep_view() =~= primary_words());
    out
}

/// The keyword set used on status and confirmation endpoints.
pub fn extended_keywords() -> (r: Vec<String>)
    ensures
        r.deep_view() == extended_words(),
{
    let mut out: Vec<String> = Vec::new();
    out.push(String::from_str("shelly"));
    out.push(String::from_str("wifi_sta"));
    out.push(String::from_str("meter"));
    out.push(String::from_str("relay"));
    assert(out.deep_view() =~= extended_words());
    out
}

/// Classifies a text that is already in lower case.
pub fn classify_lowered(lowered: &str, accept: &Vec<String>) -> (r: Verdict)
    ensures
        r == verdict_of(lowered@, accept.deep_view()),
{
    let t = chars_of(lowered);
    let excl = exclusion_list();
    if contains_any_exec(&t, &excl) {
        return Verdict::Reject;
    }
    let acc = words_of(accept);
    if contains_any_exec(&t, &acc) {
        Verdict::Accept
    } else {
        Verdict::Inconclusive
    }
}

/// Lower-cases `text` and classifies it against `accept`.
pub fn classify(text: &str, accept: &Vec<String>) -> (r: Verdict)
    ensures
        r == classification(text@, accept.deep_view()),
{
    let lowered = lowercase(text);
    classify_lowered(lowered.as_str(), accept)
}

/// A text that carries an exclusion word is rejected, whatever acceptance words it
/// also carries.
pub proof fn exclusion_dominates(lowered: Seq<char>, accept: Seq<Seq<char>>)
    requires
        contains_any(lowered, exclusion_words()),
    ensures
        verdict_of(lowered, accept) == Verdict::Reject,
        verdict_of(lowered, accept) != Verdict::Accept,
{
}

} // verus!
