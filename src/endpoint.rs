use vstd::prelude::*;
use vstd::string::*;

use crate::service::{BackendInfo, ServerTimings, ServiceTimings, TranscribeResponse};
use crate::text::{
    contains_seq, find_char_from, lemma_next_index_bounds, matches_at, next_index_of, occurs_at,
    str_contains, str_eq, substring, trim_text, trimmed_of,
};

verus! {

/// The one route of the service.
pub const TRANSCRIBE_PATH: &'static str = "/transcribe";

/// Error code of the body sent when no model is loaded.
pub const MODEL_NOT_LOADED_CODE: &'static str = "model_not_loaded";

pub const MODEL_NOT_LOADED_MESSAGE: &'static str = "No Whisper model is loaded. Please download and select a model.";

pub const STATUS_OK: u16 = 200;

/// Why a request to the service does not succeed.
#[derive(Clone, Copy, Debug, PartialEq, Eq)]
pub enum RequestError {
    NotFound,
    UnsupportedMediaType,
    ModelNotLoaded,
    BodyReadFailure,
    TranscriptionFailure,
}

pub open spec fn status_of(e: RequestError) -> u16 {
    match e {
        RequestError::NotFound => 404,
        RequestError::UnsupportedMediaType => 415,
        RequestError::ModelNotLoaded => 503,
        RequestError::BodyReadFailure => 400,
        RequestError::TranscriptionFailure => 500,
    }
}

impl RequestError {
    /// HTTP status of the response that reports this error.
    pub fn status_code(&self) -> (s: u16)
        ensures
            s == status_of(*self),
    {
        match self {
            RequestError::NotFound => 404,
            RequestError::UnsupportedMediaType => 415,
            RequestError::ModelNotLoaded => 503,
            RequestError::BodyReadFailure => 400,
            RequestError::TranscriptionFailure => 500,
        }
    }
}

/// Content types that carry a WAV payload.
pub open spec fn is_wav_content_type(ct: Seq<char>) -> bool {
    contains_seq(ct, "audio/wav"@) || contains_seq(ct, "application/octet-stream"@)
}

/// What the service decides before reading a request's body: the route first, then the
/// content type (so that no body is read in vain), then whether a model is loaded.
pub open spec fn gate_of(is_post: bool, path: Seq<char>, content_type: Seq<char>, model_loaded: bool) -> Result<
    (),
    RequestError,
> {
    if !(is_post && path == TRANSCRIBE_PATH@) {
        Err(RequestError::NotFound)
    } else if !is_wav_content_type(content_type) {
        Err(RequestError::UnsupportedMediaType)
    } else if !model_loaded {
        Err(RequestError::ModelNotLoaded)
    } else {
        Ok(())
    }
}

/// Whether a content type carries a WAV payload (`audio/wav` or `application/octet-stream`).
pub fn wav_content_type(ct: &str) -> (r: bool)
    ensures
        r == is_wav_content_type(ct@),
{
    str_contains(ct, "audio/wav") || str_contains(ct, "application/octet-stream")
}

/// Whether a request is a POST to the one route; anything else is a 404, decided before
/// the model slot is consulted.
pub fn is_transcribe_route(is_post: bool, path: &str) -> (r: bool)
    ensures
        r == (is_post && path@ == TRANSCRIBE_PATH@),
        !r ==> gate_of(is_post, path@, Seq::empty(), false) == Err::<(), RequestError>(RequestError::NotFound),
{
    is_post && str_eq(path, TRANSCRIBE_PATH)
}

/// Decides whether a request may proceed to reading its body. A missing content type
/// counts as the empty one.
pub fn gate_request(is_post: bool, path: &str, content_type: Option<&str>, model_loaded: bool) -> (r: Result<(), RequestError>)
    ensures
        r == gate_of(
            is_post,
            path@,
            match content_type {
                Some(ct) => ct@,
                None => Seq::empty(),
            },
            model_loaded,
        ),
{
    if !is_transcribe_route(is_post, path) {
        return Err(RequestError::NotFound);
    }
    let accepted = match content_type {
        Some(ct) => wav_content_type(ct),
        None => {
            proof {
                assert forall|i: int| !occurs_at(Seq::<char>::empty(), "audio/wav"@, i) by {
                    reveal_strlit("audio/wav");
                }
                assert forall|i: int| !occurs_at(Seq::<char>::empty(), "application/octet-stream"@, i) by {
                    reveal_strlit("application/octet-stream");
                }
            }
            false
        },
    };
    if !accepted {
        return Err(RequestError::UnsupportedMediaType);
    }
    if !model_loaded {
        return Err(RequestError::ModelNotLoaded);
    }
    Ok(())
}

/// The outcome of a request whose body was read: a transcription that failed is a 500;
/// otherwise the response (status 200) carries the transcript, the service's timings and
/// backend, and the engine's timings.
pub fn complete_request(
    transcription: Option<(String, ServiceTimings)>,
    server: ServerTimings,
    backend: BackendInfo,
) -> (r: Result<TranscribeResponse, RequestError>)
    ensures
        transcription is None ==> r == Err::<TranscribeResponse, RequestError>(RequestError::TranscriptionFailure),
        transcription matches Some((text, whisper)) ==> r == Ok::<TranscribeResponse, RequestError>(
            TranscribeResponse { text, server, backend, whisper },
        ),
{
    match transcription {
        None => Err(RequestError::TranscriptionFailure),
        Some((text, whisper)) => Ok(TranscribeResponse { text, server, backend, whisper }),
    }
}

/// Status of the response to an admitted request: 200 on success, else the error's status.
pub fn response_status(r: &Result<TranscribeResponse, RequestError>) -> (s: u16)
    ensures
        s == match r {
            Ok(_) => STATUS_OK,
            Err(e) => status_of(*e),
        },
{
    match r {
        Ok(_) => STATUS_OK,
        Err(e) => e.status_code(),
    }
}

/// A body that is not WAV is refused with 415 whether or not a model is loaded.
pub proof fn lemma_unsupported_type_refused_whatever_the_model(content_type: Seq<char>, model_loaded: bool)
    requires
        !is_wav_content_type(content_type),
    ensures
        gate_of(true, TRANSCRIBE_PATH@, content_type, model_loaded) == Err::<(), RequestError>(
            RequestError::UnsupportedMediaType,
        ),
        status_of(RequestError::UnsupportedMediaType) == 415,
{
}

/// A WAV request while no model is loaded is refused with 503 and the model-not-loaded
/// code; once a model is loaded the same request proceeds.
pub proof fn lemma_model_state_decides_wav_requests(content_type: Seq<char>)
    requires
        is_wav_content_type(content_type),
    ensures
        gate_of(true, TRANSCRIBE_PATH@, content_type, false) == Err::<(), RequestError>(
            RequestError::ModelNotLoaded,
        ),
        status_of(RequestError::ModelNotLoaded) == 503,
        gate_of(true, TRANSCRIBE_PATH@, content_type, true) == Ok::<(), RequestError>(()),
{
}

/// The value of `key` in one `name=value` segment `q[start..end]`: the name runs to the
/// first `=`, and an empty value counts as absent.
pub open spec fn segment_value(q: Seq<char>, start: int, end: int, key: Seq<char>) -> Option<Seq<char>> {
    let seg = q.subrange(start, end);
    let eq = next_index_of(seg, '=', 0);
    if eq < seg.len() && seg.subrange(0, eq) == key && eq + 1 < seg.len() {
        Some(seg.subrange(eq + 1, seg.len() as int))
    } else {
        None
    }
}

/// The first non-empty value of `key` among the `&`-separated segments of `q` from `start` on.
pub open spec fn param_from(q: Seq<char>, key: Seq<char>, start: int) -> Option<Seq<char>>
    decreases q.len() - start,
{
    if start < 0 || start > q.len() {
        None
    } else {
        let end = next_index_of(q, '&', start);
        match segment_value(q, start, end, key) {
            Some(v) => Some(v),
            None => if end < q.len() && end >= start {
                param_from(q, key, end + 1)
            } else {
                None
            },
        }
    }
}

pub open spec fn string_opt_view(o: Option<String>) -> Option<Seq<char>> {
    match o {
        Some(s) => Some(s@),
        None => None,
    }
}

fn segment_param(q: &str, start: usize, end: usize, key: &str) -> (r: Option<String>)
    requires
        start <= end <= q@.len(),
    ensures
        string_opt_view(r) == segment_value(q@, start as int, end as int, key@),
{
    let seg = substring(q, start, end);
    let s = seg.as_str();
    let len = s.unicode_len();
    let eq = find_char_from(s, '=', 0);
    proof {
        lemma_next_index_bounds(s@, '=', 0);
    }
    if eq < len && eq == key.unicode_len() && eq + 1 < len && matches_at(s, key, 0) {
        proof {
            assert(s@.subrange(0, eq as int) =~= key@);
        }
        Some(substring(s, eq + 1, len))
    } else {
        proof {
            if eq < len && s@.subrange(0, eq as int) == key@ && eq + 1 < len {
                assert(eq == key@.len());
                assert(occurs_at(s@, key@, 0));
            }
        }
        None
    }
}

/// The first non-empty value of `key` in a query string of `&`-separated `name=value` pairs.
fn query_param(q: &str, key: &str) -> (r: Option<String>)
    ensures
        string_opt_view(r) == param_from(q@, key@, 0),
{
    let len = q.unicode_len();
    let mut start: usize = 0;
    loop
        invariant
            len == q@.len(),
            start <= len,
            param_from(q@, key@, 0) == param_from(q@, key@, start as int),
        decreases len - start,
    {
        let end = find_char_from(q, '&', start);
        proof {
            lemma_next_index_bounds(q@, '&', start as int);
        }
        let found = segment_param(q, start, end, key);
        if found.is_some() {
            return found;
        }
        if end >= len {
            return None;
        }
        start = end + 1;
    }
}

/// The text that percent-decoding gives, with invalid UTF-8 replaced.
pub uninterp spec fn percent_decoded(s: Seq<char>) -> Seq<char>;

/// Relies on `percent_encoding::percent_decode_str` and `decode_utf8_lossy`: each `%` with two
/// hex digits becomes its byte; a text without `%` comes back as it is.
#[verifier::external_body]
fn percent_decode_lossy(s: &str) -> (r: String)
    ensures
        r@ == percent_decoded(s@),
        !s@.contains('%') ==> r@ == s@,
{
    percent_encoding::percent_decode_str(s).decode_utf8_lossy().to_string()
}

/// Options of a transcription request, read from its query string.
#[derive(Debug)]
pub struct RequestParams {
    pub language: Option<String>,
    pub initial_prompt: Option<String>,
}

/// Reads `lang` and `prompt` from a query string; the prompt is percent-decoded.
pub fn parse_query(query: Option<&str>) -> (p: RequestParams)
    ensures
        query is None ==> p.language is None && p.initial_prompt is None,
        query matches Some(q) ==> {
            &&& string_opt_view(p.language) == param_from(q@, "lang"@, 0)
            &&& string_opt_view(p.initial_prompt) == match param_from(q@, "prompt"@, 0) {
                Some(v) => Some(percent_decoded(v)),
                None => None,
            }
        },
{
    match query {
        None => RequestParams { language: None, initial_prompt: None },
        Some(q) => {
            let language = query_param(q, "lang");
            let initial_prompt = match query_param(q, "prompt") {
                Some(v) => Some(percent_decode_lossy(v.as_str())),
                None => None,
            };
            RequestParams { language, initial_prompt }
        },
    }
}

/// Transcript of a run of segments: each segment trimmed, those left empty skipped, the
/// rest in order and separated by single spaces.
pub open spec fn joined_segments(segs: Seq<Seq<char>>) -> Seq<char>
    decreases segs.len(),
{
    if segs.len() == 0 {
        Seq::empty()
    } else {
        let out = joined_segments(segs.drop_last());
        let t = trimmed_of(segs.last());
        if t.len() == 0 {
            out
        } else if out.len() == 0 {
            t
        } else {
            out + seq![' '] + t
        }
    }
}

/// Joins the text segments produced by the engine into one transcript.
pub fn collect_segments(segments: &Vec<String>) -> (text: String)
    ensures
        text@ == joined_segments(segments@.map_values(|s: String| s@)),
{
    let ghost segs = segments@.map_values(|s: String| s@);
    let mut out = String::new();
    let mut i: usize = 0;
    while i < segments.len()
        invariant
            segs == segments@.map_values(|s: String| s@),
            i <= segments@.len(),
            out@ == joined_segments(segs.subrange(0, i as int)),
        decreases segments@.len() - i,
    {
        proof {
            assert(segs.subrange(0, i + 1).drop_last() =~= segs.subrange(0, i as int));
            reveal_strlit(" ");
        }
        let t = trim_text(segments[i].as_str());
        if t.as_str().unicode_len() > 0 {
            if out.unicode_len() > 0 {
                out.append(" ");
            }
            out.append(t.as_str());
        }
        i = i + 1;
    }
    proof {
        assert(segs.subrange(0, segments@.len() as int) =~= segs);
    }
    out
}

} // verus!
