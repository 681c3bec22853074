use rust_wthisper::http::{ContentType, HttpStatus, Response};
use rust_wthisper::server::{
    clone_reference_file_name, complete_clone_reference, complete_listen, complete_setting, complete_synthesis,
    complete_transcription, error_reply, handle_request, not_found_reply, route, static_file_step, transcript_reply,
    upload_extension, Background, Route, ServerFacts, Setting, Step,
};
use rust_wthisper::state::{begin_exclusive_listen, get_current_model, get_silence_tail, get_voice_threshold, set_hearing_paused, ServerState};
use rust_wthisper::paths::is_clone_reference_audio_name;
use rust_wthisper::ui::{clone_reference_url, transcribe_upload_url};

fn facts() -> ServerFacts {
    let mut model_available = vec![false; 10];
    model_available[0] = true;
    model_available[1] = true;
    ServerFacts {
        model_available,
        current_model_available: true,
        tts_available: vec![false; 9],
        current_tts_available: false,
        piper_available: true,
        f5_available: true,
        has_clone_reference: true,
        clone_reference_text: Some("hello there".to_string()),
    }
}

fn body_text(r: &Response) -> String {
    String::from_utf8(r.body.clone()).unwrap()
}

fn respond(step: Step) -> Response {
    match step {
        Step::Respond(r) => r,
        _ => panic!("expected an immediate answer"),
    }
}

#[test]
fn routes_by_method_and_path() {
    assert_eq!(route("GET", "/"), Route::Index);
    assert_eq!(route("GET", "/index.html"), Route::Index);
    assert_eq!(route("GET", "/pkg/app.js"), Route::StaticFile);
    assert_eq!(route("GET", "/api/status"), Route::Status);
    assert_eq!(route("POST", "/api/status"), Route::NotFound);
    assert_eq!(route("POST", "/api/listen"), Route::Listen);
    assert_eq!(route("POST", "/api/tts/synthesize"), Route::TtsSynthesize);
    assert_eq!(route("POST", "/api/transcribe-file"), Route::TranscribeFile);
    assert_eq!(route("GET", "/nowhere"), Route::NotFound);
}

#[test]
fn error_and_transcript_replies() {
    let e = error_reply(HttpStatus::BadRequest, "bad \"x\"");
    assert_eq!(e.status, HttpStatus::BadRequest);
    assert_eq!(e.content_type, ContentType::Json);
    assert_eq!(body_text(&e), "{\"success\":false,\"error\":\"bad \\\"x\\\"\"}");
    let t = transcript_reply("  hi there \n");
    assert_eq!(body_text(&t), "{\"transcript\":\"hi there\"}");
    let n = not_found_reply();
    assert_eq!(n.status, HttpStatus::NotFound);
    assert_eq!(body_text(&n), "Not found");
}

#[test]
fn status_route_answers_state_document() {
    let mut s = ServerState::new();
    let r = respond(handle_request(&mut s, &facts(), "GET", "/api/status?t=1", "", true));
    assert_eq!(r.status, HttpStatus::Success);
    assert!(body_text(&r).starts_with("{\"status\":\"idle\","));
}

#[test]
fn select_model_changes_current_only_when_available() {
    let mut s = ServerState::new();
    let r = respond(handle_request(&mut s, &facts(), "POST", "/api/model", "{\"model\":\"base.en\"}", false));
    assert_eq!(body_text(&r), "{\"success\":true}");
    assert_eq!(get_current_model(&s), "base.en");
    let r = respond(handle_request(&mut s, &facts(), "POST", "/api/model", "{\"model\":\"small.en\"}", false));
    assert_eq!(r.status, HttpStatus::BadRequest);
    assert_eq!(body_text(&r), "{\"success\":false,\"error\":\"Model is not available\"}");
    let r = respond(handle_request(&mut s, &facts(), "POST", "/api/model", "model=x", false));
    assert_eq!(body_text(&r), "{\"success\":false,\"error\":\"Invalid model value\"}");
    assert_eq!(get_current_model(&s), "base.en");
}

#[test]
fn download_model_starts_background_work() {
    let mut s = ServerState::new();
    match handle_request(&mut s, &facts(), "POST", "/api/download-model", "{\"model\":\"small.en\"}", false) {
        Step::RespondThenStart(r, Background::DownloadModel(m)) => {
            assert_eq!(body_text(&r), "{\"success\":true,\"started\":true}");
            assert_eq!(m, "small.en");
        }
        _ => panic!("expected a download to start"),
    }
    let r = respond(handle_request(&mut s, &facts(), "POST", "/api/download-model", "{\"model\":\"medium.en\"}", false));
    assert_eq!(body_text(&r), "{\"success\":true,\"started\":true}");
    let r = respond(handle_request(&mut s, &facts(), "POST", "/api/download-model", "{\"model\":\"huge\"}", false));
    assert_eq!(body_text(&r), "{\"success\":false,\"error\":\"Unknown model\"}");
}

#[test]
fn listen_is_refused_while_paused() {
    let mut s = ServerState::new();
    assert!(matches!(handle_request(&mut s, &facts(), "POST", "/api/listen", "", true), Step::Listen));
    set_hearing_paused(&mut s, true);
    let r = respond(handle_request(&mut s, &facts(), "POST", "/api/listen", "", true));
    assert_eq!(r.status, HttpStatus::Conflict);
    assert_eq!(body_text(&r), "{\"success\":false,\"error\":\"Selected model is not ready\"}");
}

#[test]
fn pause_and_resume_routes() {
    let mut s = ServerState::new();
    let r = respond(handle_request(&mut s, &facts(), "POST", "/api/pause", "", true));
    assert_eq!(body_text(&r), "{\"success\":true,\"paused\":true}");
    assert!(s.hearing_paused);
    let r = respond(handle_request(&mut s, &facts(), "POST", "/api/resume", "", true));
    assert_eq!(body_text(&r), "{\"success\":true,\"paused\":false}");
    assert!(!s.hearing_paused);
}

#[test]
fn settings_are_read_then_stored_clamped() {
    let mut s = ServerState::new();
    match handle_request(&mut s, &facts(), "POST", "/api/threshold", " {\"threshold\":0.02} ", false) {
        Step::ReadSetting { setting, whole, inner } => {
            assert_eq!(setting, Setting::VoiceThreshold);
            assert_eq!(whole, "{\"threshold\":0.02}");
            assert_eq!(inner, Some("0.02".to_string()));
        }
        _ => panic!("expected a setting to read"),
    }
    let r = respond(handle_request(&mut s, &facts(), "POST", "/api/silence-tail", "  ", false));
    assert_eq!(body_text(&r), "{\"success\":false,\"error\":\"Invalid silence tail value\"}");
    let r = complete_setting(&mut s, Setting::VoiceThreshold, Some(2000));
    assert_eq!(body_text(&r), "{\"success\":true}");
    assert_eq!(get_voice_threshold(&s), 2000);
    complete_setting(&mut s, Setting::SilenceTail, Some(60_000));
    assert_eq!(get_silence_tail(&s), 5000);
    let r = complete_setting(&mut s, Setting::VoiceThreshold, None);
    assert_eq!(body_text(&r), "{\"success\":false,\"error\":\"Invalid threshold value\"}");
}

#[test]
fn static_files_stay_inside_the_project() {
    match static_file_step("/pkg/app.js") {
        Step::ServeStatic(p) => assert_eq!(p, "pkg/app.js"),
        _ => panic!("expected a static file"),
    }
    let r = respond(static_file_step("/pkg/../secret"));
    assert_eq!(r.status, HttpStatus::BadRequest);
    assert_eq!(body_text(&r), "Bad request");
    assert!(matches!(static_file_step("/pkg/a\\b"), Step::Respond(_)));
}

#[test]
fn unknown_paths_are_not_found() {
    let mut s = ServerState::new();
    let r = respond(handle_request(&mut s, &facts(), "DELETE", "/api/status", "", true));
    assert_eq!(r.status, HttpStatus::NotFound);
}

#[test]
fn upload_extension_defaults_to_wav() {
    assert_eq!(upload_extension("/api/transcribe-file?ext=MP3"), "mp3");
    assert_eq!(upload_extension("/api/transcribe-file?ext=..."), "wav");
    assert_eq!(upload_extension("/api/transcribe-file"), "wav");
    assert_eq!(clone_reference_file_name("OGG"), "reference.ogg");
    assert_eq!(clone_reference_file_name(""), "reference.wav");
}

#[test]
fn transcribe_file_checks_model_and_body() {
    let mut s = ServerState::new();
    match handle_request(&mut s, &facts(), "POST", "/api/transcribe-file?ext=flac", "", false) {
        Step::TranscribeUpload(e) => assert_eq!(e, "flac"),
        _ => panic!("expected an upload to transcribe"),
    }
    let r = respond(handle_request(&mut s, &facts(), "POST", "/api/transcribe-file?ext=flac", "", true));
    assert_eq!(body_text(&r), "{\"success\":false,\"error\":\"Empty upload\"}");
    let mut f = facts();
    f.current_model_available = false;
    let r = respond(handle_request(&mut s, &f, "POST", "/api/transcribe-file", "", false));
    assert_eq!(r.status, HttpStatus::Conflict);
}

#[test]
fn server_reads_the_upload_extension_the_page_sent() {
    let mut s = ServerState::new();
    let url = transcribe_upload_url("Voice Memo.M4A");
    assert_eq!(url, "/api/transcribe-file?ext=m4a");
    match handle_request(&mut s, &facts(), "POST", &url, "", false) {
        Step::TranscribeUpload(e) => assert_eq!(e, "m4a"),
        _ => panic!("expected an upload to transcribe"),
    }
}

#[test]
fn server_saves_the_reference_the_page_sent() {
    let mut s = ServerState::new();
    let url = clone_reference_url("Hello & welcome, 100% sure?", "take 2.WAV");
    match handle_request(&mut s, &facts(), "POST", &url, "", false) {
        Step::SaveCloneReference { text, file_name } => {
            assert_eq!(text, "Hello & welcome, 100% sure?");
            assert_eq!(file_name, "reference.wav");
        }
        _ => panic!("expected a reference to save"),
    }
}

#[test]
fn clone_reference_needs_audio_and_transcript() {
    let mut s = ServerState::new();
    let r = respond(handle_request(&mut s, &facts(), "POST", "/api/clone/reference?text=hi", "", true));
    assert_eq!(body_text(&r), "{\"success\":false,\"error\":\"Empty reference audio\"}");
    let r = respond(handle_request(&mut s, &facts(), "POST", "/api/clone/reference?text=+", "", false));
    assert_eq!(body_text(&r), "{\"success\":false,\"error\":\"Missing reference transcript\"}");
}

#[test]
fn clone_synthesis_checks() {
    let mut s = ServerState::new();
    assert!(matches!(handle_request(&mut s, &facts(), "POST", "/api/clone/synthesize", " hi ", false), Step::SynthesizeClone(ref t) if t == "hi"));
    let r = respond(handle_request(&mut s, &facts(), "POST", "/api/clone/synthesize", "  ", false));
    assert_eq!(body_text(&r), "{\"success\":false,\"error\":\"Empty text\"}");
    let mut f = facts();
    f.has_clone_reference = false;
    let r = respond(handle_request(&mut s, &f, "POST", "/api/clone/synthesize", "x", false));
    assert_eq!(body_text(&r), "{\"success\":false,\"error\":\"Upload a reference voice first\"}");
}

#[test]
fn completions_answer_outcomes() {
    let mut s = ServerState::new();
    let r = complete_listen(&mut s, Ok(" done ".to_string()), true).unwrap();
    assert_eq!(body_text(&r), "{\"transcript\":\"done\"}");
    assert!(complete_listen(&mut s, Err("device lost".to_string()), true).is_none());
    let r = complete_listen(&mut s, Err("the listener is already running".to_string()), true).unwrap();
    assert_eq!(body_text(&r), "{\"success\":false,\"error\":\"Listener is already running\"}");
    let r = complete_listen(&mut s, Err("no model".to_string()), false).unwrap();
    assert_eq!(r.status, HttpStatus::Conflict);
    assert_eq!(body_text(&r), "{\"success\":false,\"error\":\"no model\"}");
    assert_eq!(body_text(&complete_clone_reference(Ok(()))), "{\"success\":true}");
    assert_eq!(complete_clone_reference(Err("disk".to_string())).status, HttpStatus::InternalServerError);
    let w = complete_synthesis(Ok(vec![9, 8]));
    assert_eq!((w.status, w.content_type, w.body), (HttpStatus::Success, ContentType::Wav, vec![9, 8]));
    assert_eq!(body_text(&complete_transcription(Ok("x\n".to_string()))), "{\"transcript\":\"x\"}");
    let _ = begin_exclusive_listen;
}

#[test]
fn pause_holds_until_resume_scenario() {
    let mut s = ServerState::new();
    respond(handle_request(&mut s, &facts(), "POST", "/api/pause", "", true));
    respond(handle_request(&mut s, &facts(), "POST", "/api/model", "{\"model\":\"base.en\"}", false));
    let status = respond(handle_request(&mut s, &facts(), "GET", "/api/status", "", true));
    assert!(body_text(&status).ends_with("\"paused\":true}"));
    let r = respond(handle_request(&mut s, &facts(), "POST", "/api/listen", "", true));
    assert_eq!(r.status, HttpStatus::Conflict);
    respond(handle_request(&mut s, &facts(), "POST", "/api/resume", "", true));
    let status = respond(handle_request(&mut s, &facts(), "GET", "/api/status", "", true));
    assert!(body_text(&status).ends_with("\"paused\":false}"));
    assert!(matches!(handle_request(&mut s, &facts(), "POST", "/api/listen", "", true), Step::Listen));
}

#[test]
fn saved_reference_names_are_recognised() {
    assert!(is_clone_reference_audio_name(&clone_reference_file_name("OGG")));
    assert!(is_clone_reference_audio_name(&clone_reference_file_name("")));
    assert_eq!(clone_reference_file_name("TXT"), "reference.txt");
    assert!(!is_clone_reference_audio_name(&clone_reference_file_name("TXT")));
}

#[test]
fn voice_document_lists_each_voice_once_in_order() {
    let mut s = ServerState::new();
    let mut f = facts();
    f.tts_available = vec![true; 9];
    let r = respond(handle_request(&mut s, &f, "GET", "/api/tts/models", "", true));
    let doc = body_text(&r);
    let ids = [
        "en_US-amy-low", "en_US-amy-medium", "en_US-ryan-medium", "en_US-lessac-medium", "en_US-libritts-high",
        "ru_RU-irina-medium", "ru_RU-denis-medium", "ru_RU-dmitri-medium", "ru_RU-ruslan-medium",
    ];
    let mut at = 0;
    for id in ids {
        let needle = format!("\"model\":\"{id}\"");
        assert_eq!(doc.matches(&needle).count(), 1);
        let pos = doc.find(&needle).unwrap();
        assert!(pos > at);
        at = pos;
    }
}

#[test]
fn selection_and_download_persist_across_requests() {
    let mut s = ServerState::new();
    respond(handle_request(&mut s, &facts(), "POST", "/api/model", "{\"model\":\"base.en\"}", false));
    assert!(matches!(
        handle_request(&mut s, &facts(), "POST", "/api/tts/download-model", "{\"model\":\"en_US-amy-low\"}", false),
        Step::RespondThenStart(_, _)
    ));
    assert!(matches!(
        handle_request(&mut s, &facts(), "POST", "/api/download-model", "{\"model\":\"small.en\"}", false),
        Step::RespondThenStart(_, _)
    ));
    for (m, p, b) in [("POST", "/api/pause", ""), ("POST", "/api/resume", ""), ("GET", "/api/status", ""), ("POST", "/api/tts/model", "{\"model\":\"x\"}")] {
        let _ = handle_request(&mut s, &facts(), m, p, b, b.is_empty());
        assert_eq!(get_current_model(&s), "base.en");
        assert_eq!(rust_wthisper::state::get_current_tts_model(&s), "en_US-ryan-medium");
        assert!(s.download.as_ref().unwrap().active);
        assert!(!rust_wthisper::state::listening_is_available(&s, true));
    }
}
