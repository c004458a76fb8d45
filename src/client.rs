use vstd::prelude::*;
use vstd::string::*;

use crate::text::{find_char_from, lemma_next_index_bounds};

verus! {

/// Where the service is reached when nothing else is configured.
pub const DEFAULT_TRANSCRIBE_URL: &'static str = "http://127.0.0.1:9000/transcribe";

/// The text of a finished transcription, as announced to the UI.
#[derive(Clone, Debug)]
pub struct TranscriptionEvent {
    pub text: String,
}

/// The percent-encoding of a text for a URL query.
pub uninterp spec fn url_encoded(s: Seq<char>) -> Seq<char>;

pub open spec fn is_unreserved(c: char) -> bool {
    ('a' <= c && c <= 'z') || ('A' <= c && c <= 'Z') || ('0' <= c && c <= '9') || c == '-' || c == '_'
        || c == '.' || c == '~'
}

/// Relies on `urlencoding::encode`: every byte but ASCII alphanumerics and `-_.~` is
/// percent-encoded, so a text made of those alone comes back as it is.
#[verifier::external_body]
fn url_encode(s: &str) -> (r: String)
    ensures
        r@ == url_encoded(s@),
        (forall|i: int| 0 <= i < s@.len() ==> is_unreserved(#[trigger] s@[i])) ==> r@ == s@,
{
    urlencoding::encode(s).into_owned()
}

/// `url` with the query parameter `name=value` added (`name` given with its `=`).
pub open spec fn with_param(url: Seq<char>, name: Seq<char>, value: Seq<char>) -> Seq<char> {
    url + (if url.contains('?') {
        seq!['&']
    } else {
        seq!['?']
    }) + name + url_encoded(value)
}

/// Adds `name=value` when the value is present and not empty.
pub open spec fn with_optional_param(url: Seq<char>, name: Seq<char>, value: Option<Seq<char>>) -> Seq<char> {
    match value {
        Some(v) => if v.len() > 0 {
            with_param(url, name, v)
        } else {
            url
        },
        None => url,
    }
}

fn add_param(url: &mut String, name: &str, value: &str)
    ensures
        final(url)@ == with_param(old(url)@, name@, value@),
{
    let len = url.as_str().unicode_len();
    let q = find_char_from(url.as_str(), '?', 0);
    proof {
        lemma_next_index_bounds(url@, '?', 0);
        reveal_strlit("&");
        reveal_strlit("?");
        if url@.contains('?') {
            let k = choose|k: int| 0 <= k < url@.len() && url@[k] == '?';
            assert(k >= q);
        }
    }
    if q < len {
        url.append("&");
    } else {
        url.append("?");
    }
    url.append(name);
    let encoded = url_encode(value);
    url.append(encoded.as_str());
}

/// The service URL with the language and the prompt, when present and not empty, added as
/// `lang` and `prompt` query parameters.
pub fn build_transcribe_url(base: &str, language: Option<&str>, prompt: Option<&str>) -> (url: String)
    ensures
        url@ == with_optional_param(
            with_optional_param(
                base@,
                "lang="@,
                match language {
                    Some(l) => Some(l@),
                    None => None,
                },
            ),
            "prompt="@,
            match prompt {
                Some(p) => Some(p@),
                None => None,
            },
        ),
{
    let mut url = String::from_str(base);
    match language {
        Some(l) => {
            if l.unicode_len() > 0 {
                add_param(&mut url, "lang=", l);
            }
        },
        None => {},
    }
    match prompt {
        Some(p) => {
            if p.unicode_len() > 0 {
                add_param(&mut url, "prompt=", p);
            }
        },
        None => {},
    }
    url
}

/// The string under `"text"` when the body is a JSON object that holds one.
pub uninterp spec fn json_text_of(body: Seq<char>) -> Option<Seq<char>>;

/// Relies on `serde_json::from_str` into a `Value`, then `Value::get("text")` and
/// `Value::as_str`: the result depends on the body alone.
#[verifier::external_body]
fn json_text_field(body: &str) -> (r: Option<String>)
    ensures
        crate::endpoint::string_opt_view(r) == json_text_of(body@),
{
    let value: serde_json::Value = serde_json::from_str(body).ok()?;
    let text = value.get("text")?.as_str()?;
    Some(text.to_string())
}

/// The transcript in a response body: its `"text"` field, or the whole body when it has
/// none; and whether the field was there (only then does the body also carry the
/// service's profile).
pub fn response_text(body: String) -> (r: (String, bool))
    ensures
        r.0@ == match json_text_of(body@) {
            Some(t) => t,
            None => body@,
        },
        r.1 == json_text_of(body@) is Some,
{
    match json_text_field(body.as_str()) {
        Some(t) => (t, true),
        None => (body, false),
    }
}

} // verus!
