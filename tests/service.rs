use commander::catalog::{find_model, model_catalog, status_item};
use commander::client::{build_transcribe_url, response_text};
use commander::resample::{resample_plan, ResampleTap};
use commander::config::{effective_language, LanguageConfig, ShortcutConfig};
use commander::endpoint::{
    complete_request, gate_request, parse_query, response_status, wav_content_type, RequestError,
    MODEL_NOT_LOADED_CODE, STATUS_OK,
};
use commander::model::{is_model_loaded, load_model, ModelHolder};
use commander::service::{backend_info_from, ServerTimings, ServiceTimings};

#[test]
fn no_model_gives_503() {
    let r = gate_request(true, "/transcribe", Some("audio/wav"), false);
    assert_eq!(r, Err(RequestError::ModelNotLoaded));
    assert_eq!(RequestError::ModelNotLoaded.status_code(), 503);
    assert_eq!(MODEL_NOT_LOADED_CODE, "model_not_loaded");
}

#[test]
fn loaded_model_lets_wav_through() {
    assert_eq!(gate_request(true, "/transcribe", Some("audio/wav"), true), Ok(()));
    assert_eq!(gate_request(true, "/transcribe", Some("application/octet-stream"), true), Ok(()));
    assert_eq!(STATUS_OK, 200);
}

#[test]
fn text_plain_gives_415_whatever_the_model() {
    for loaded in [false, true] {
        let r = gate_request(true, "/transcribe", Some("text/plain"), loaded);
        assert_eq!(r, Err(RequestError::UnsupportedMediaType));
        assert_eq!(r.unwrap_err().status_code(), 415);
    }
    assert_eq!(gate_request(true, "/transcribe", None, true), Err(RequestError::UnsupportedMediaType));
}

#[test]
fn other_routes_are_not_found() {
    assert_eq!(gate_request(false, "/transcribe", Some("audio/wav"), true), Err(RequestError::NotFound));
    assert_eq!(gate_request(true, "/other", Some("audio/wav"), true), Err(RequestError::NotFound));
    assert_eq!(RequestError::NotFound.status_code(), 404);
    assert_eq!(RequestError::BodyReadFailure.status_code(), 400);
    assert_eq!(RequestError::TranscriptionFailure.status_code(), 500);
}

#[test]
fn content_types_with_parameters_are_accepted() {
    assert!(wav_content_type("audio/wav; charset=binary"));
    assert!(wav_content_type("x application/octet-stream"));
    assert!(!wav_content_type("audio/mpeg"));
    assert!(!wav_content_type(""));
}

#[test]
fn query_gives_language_and_decoded_prompt() {
    let p = parse_query(Some("lang=de&prompt=Hello%20there%2C%20world"));
    assert_eq!(p.language.as_deref(), Some("de"));
    assert_eq!(p.initial_prompt.as_deref(), Some("Hello there, world"));
}

#[test]
fn empty_values_are_skipped() {
    let p = parse_query(Some("lang=&x=1&lang=fr&prompt="));
    assert_eq!(p.language.as_deref(), Some("fr"));
    assert_eq!(p.initial_prompt, None);
    let p = parse_query(Some("language=en&lang"));
    assert_eq!(p.language, None);
    let p = parse_query(None);
    assert_eq!(p.language, None);
    assert_eq!(p.initial_prompt, None);
    let p = parse_query(Some("lang=a=b"));
    assert_eq!(p.language.as_deref(), Some("a=b"));
}

#[test]
fn failed_load_keeps_previous_model() {
    let mut holder: ModelHolder<String> = ModelHolder::new();
    assert!(!is_model_loaded(&holder));
    assert_eq!(load_model(&mut holder, Err::<String, String>("missing file".to_string())), Err("missing file".to_string()));
    assert!(!is_model_loaded(&holder));
    assert_eq!(load_model::<String, String>(&mut holder, Ok("first".to_string())), Ok(()));
    assert!(is_model_loaded(&holder));
    let snapshot = holder.current().unwrap();
    assert!(load_model(&mut holder, Err::<String, String>("bad path".to_string())).is_err());
    assert_eq!(holder.current().unwrap().as_str(), "first");
    assert_eq!(load_model::<String, String>(&mut holder, Ok("second".to_string())), Ok(()));
    assert_eq!(holder.current().unwrap().as_str(), "second");
    assert_eq!(snapshot.as_str(), "first");
}

#[test]
fn catalog_lists_two_models() {
    let c = model_catalog();
    assert_eq!(c.len(), 2);
    assert_eq!(c[0].id, "large-v3-turbo");
    assert_eq!(c[1].filename, "ggml-large-v3-turbo-q5_0.bin");
    assert_eq!(find_model(&c, "large-v3-turbo-q5_0"), Some(1));
    assert_eq!(find_model(&c, "tiny"), None);
}

#[test]
fn status_of_missing_model_has_no_size() {
    let c = model_catalog();
    let s = status_item(&c[0], false, Some(5));
    assert!(!s.installed);
    assert_eq!(s.size_bytes, None);
    let s = status_item(&c[1], true, Some(5));
    assert_eq!(s.size_bytes, Some(5));
    assert_eq!(s.approx_size_mb, 3500);
}

#[test]
fn url_gets_encoded_parameters() {
    let u = build_transcribe_url("http://127.0.0.1:9000/transcribe", Some("en"), Some("a b&c"));
    assert_eq!(u, "http://127.0.0.1:9000/transcribe?lang=en&prompt=a%20b%26c");
    let u = build_transcribe_url("http://h/t?x=1", Some(""), None);
    assert_eq!(u, "http://h/t?x=1");
    let u = build_transcribe_url("http://h/t?x=1", None, Some("hi"));
    assert_eq!(u, "http://h/t?x=1&prompt=hi");
}

#[test]
fn language_defaults_to_english() {
    assert_eq!(effective_language(None).as_deref(), Some("en"));
    assert_eq!(effective_language(Some(None)), None);
    let cfg = LanguageConfig { language: Some("fr".to_string()) };
    assert_eq!(effective_language(Some(Some(cfg))).as_deref(), Some("fr"));
    assert_eq!(effective_language(Some(Some(LanguageConfig::default()))), None);
}

#[test]
fn default_shortcut_is_super_shift_f9() {
    let s = ShortcutConfig::default();
    assert_eq!(s.modifiers, vec!["Super".to_string(), "Shift".to_string()]);
    assert_eq!(s.key, "F9");
}

#[test]
fn metal_needs_macos_and_library() {
    let b = backend_info_from(true, Some("/res".to_string()), true, "m.bin".to_string());
    assert_eq!(b.target_os, "macos");
    assert!(b.likely_using_metal);
    let b = backend_info_from(false, Some("/res".to_string()), true, "m.bin".to_string());
    assert_eq!(b.target_os, "other");
    assert!(!b.likely_using_metal);
    assert!(b.metallib_present);
    let b = backend_info_from(true, None, true, "m.bin".to_string());
    assert!(!b.metallib_present);
}

#[test]
fn response_text_prefers_json_field() {
    assert_eq!(response_text("{\"text\":\"hi there\",\"profile\":{}}".to_string()), ("hi there".to_string(), true));
    assert_eq!(response_text("plain words".to_string()), ("plain words".to_string(), false));
    assert_eq!(response_text("{\"text\":5}".to_string()), ("{\"text\":5}".to_string(), false));
}

#[test]
fn plan_reads_inside_the_input() {
    let taps = resample_plan(3, 8000, 16000);
    assert_eq!(taps.len(), 6);
    assert_eq!(taps[1], ResampleTap { index0: 0, index1: 1, frac: 8000 });
    assert_eq!(taps[5], ResampleTap { index0: 2, index1: 2, frac: 8000 });
    assert!(resample_plan(0, 44100, 16000).is_empty());
}

#[test]
fn completed_request_is_a_200_with_the_transcript() {
    let server = ServerTimings { read_body_ms: 1, transcribe_ms: 20, total_ms: 22 };
    let whisper = ServiceTimings { sample_to_mono_ms: 0, resample_ms: 0, create_state_ms: 3, inference_ms: 15, collect_segments_ms: 0, total_ms: 19 };
    let backend = backend_info_from(false, None, false, "m.bin".to_string());
    let r = complete_request(Some(("hello".to_string(), whisper)), server, backend.clone());
    assert_eq!(response_status(&r), 200);
    let body = r.unwrap();
    assert_eq!(body.text, "hello");
    assert_eq!(body.server, server);
    assert_eq!(body.whisper, whisper);
    assert_eq!(body.backend.model_path, "m.bin");
    let r = complete_request(None, server, backend);
    assert_eq!(r.as_ref().unwrap_err(), &RequestError::TranscriptionFailure);
    assert_eq!(response_status(&r), 500);
}

#[test]
fn catalog_names_and_urls() {
    let c = model_catalog();
    assert_eq!(c[0].name, "Large v3 Turbo");
    assert_eq!(c[1].name, "Large v3 Turbo (Q5_0)");
    assert!(c[0].url.ends_with("ggml-large-v3-turbo.bin?download=true"));
}
