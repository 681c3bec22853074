use rust_wthisper::state::{get_voice_threshold, set_voice_threshold, AssistantStatus, ServerState};
use rust_wthisper::ui::{
    activation_tooltip, any_downloading, begin_file_upload, begin_listen_loop, block_threshold, button_look,
    char_count_label, clone_combine_disabled, clone_notice, clone_reference_url, clone_request, current_model_available,
    device_details_text, display_error, end_listen_loop, file_extension, finish_file_upload, hearing_request_done,
    is_copyable_transcript, is_fetch_error, listen_failed, listen_loop_continues, meter_block, model_click,
    models_received, nav_hidden, navigate_to_page, plain_char_count_label, saved_reference_display,
    status_poll_failed, threshold_block, tile_action_label, toggle_hearing, transcribe_upload_url, transcript_display,
    tts_combine_disabled, tts_models_received, tts_notice, tts_request, upload_enabled, models_signature, document_changed, ButtonLook, CloneRefusal, HearingRequest,
    ListenFailure, ModelChoice, ModelClick, TileAction, TtsNotice, TtsRefusal, UiFlags,
};

fn listening(status: AssistantStatus) -> UiFlags {
    let mut f = UiFlags::new();
    f.can_listen = true;
    f.status = status;
    f
}

fn choice(model: &str, available: bool, downloading: bool) -> ModelChoice {
    ModelChoice { model: model.to_string(), available, downloading }
}

#[test]
fn copyable_transcripts() {
    assert!(is_copyable_transcript("  hello "));
    assert!(!is_copyable_transcript(" \n "));
    assert!(!is_copyable_transcript("[no speech detected]"));
    assert!(!is_copyable_transcript("Uploading file..."));
    assert!(is_copyable_transcript("Uploadingfile"));
}

#[test]
fn transcript_and_error_display() {
    assert_eq!(transcript_display("  hi  "), "hi");
    assert_eq!(transcript_display("   "), "[no speech detected]");
    assert!(is_fetch_error("TypeError: Failed to fetch"));
    assert!(!is_fetch_error("HTTP 500"));
    assert_eq!(display_error("TypeError: Failed to fetch"), "Server stopped");
    assert_eq!(display_error("HTTP 500"), "Error: HTTP 500");
}

#[test]
fn fresh_page_flags() {
    let f = UiFlags::new();
    assert!(f.active && !f.paused && !f.can_listen && !f.in_flight);
    assert_eq!(f.status, AssistantStatus::Idle);
    assert_eq!(f.current_page, 0);
    assert_eq!(tile_action_label(&f), None);
}

#[test]
fn tile_action_follows_status() {
    assert_eq!(tile_action_label(&listening(AssistantStatus::Waiting)), Some(TileAction::Stop));
    assert_eq!(tile_action_label(&listening(AssistantStatus::Transcribing)), None);
    let mut f = listening(AssistantStatus::Waiting);
    f.paused = true;
    assert_eq!(tile_action_label(&f), Some(TileAction::Start));
    f.uploading_file = true;
    assert_eq!(tile_action_label(&f), None);
    assert_eq!(TileAction::Start.as_str(), "start");
    assert_eq!(TileAction::Stop.as_str(), "stop");
}

#[test]
fn stop_then_start_restores_flags() {
    let before = listening(AssistantStatus::Speaking);
    let mut f = before;
    assert_eq!(toggle_hearing(&mut f), Some(HearingRequest::Pause));
    assert!(f.paused && !f.active && f.pause_in_flight);
    assert_eq!(toggle_hearing(&mut f), None);
    hearing_request_done(&mut f);
    assert_eq!(tile_action_label(&f), Some(TileAction::Start));
    assert_eq!(toggle_hearing(&mut f), Some(HearingRequest::Resume));
    hearing_request_done(&mut f);
    assert_eq!(f, before);
}

#[test]
fn listen_loop_start_and_restart() {
    let mut f = listening(AssistantStatus::Idle);
    assert!(begin_listen_loop(&mut f));
    assert!(f.in_flight);
    assert!(!begin_listen_loop(&mut f));
    assert!(listen_loop_continues(&f));
    f.status = AssistantStatus::Waiting;
    assert!(end_listen_loop(&mut f));
    assert!(!f.in_flight);
    assert_eq!(f.status, AssistantStatus::Idle);
    f.paused = true;
    assert!(!end_listen_loop(&mut f));
    let mut g = UiFlags::new();
    assert!(!begin_listen_loop(&mut g));
}

#[test]
fn listen_failures() {
    let mut f = listening(AssistantStatus::Waiting);
    assert!(matches!(listen_failed(&mut f, "HTTP 409"), ListenFailure::Retry));
    assert!(f.active);
    match listen_failed(&mut f, "HTTP 500") {
        ListenFailure::Stop(Some(m)) => assert_eq!(m, "Error: HTTP 500"),
        other => panic!("unexpected {:?}", other),
    }
    assert!(!f.active);
    let mut g = listening(AssistantStatus::Waiting);
    assert!(matches!(listen_failed(&mut g, "Failed to fetch"), ListenFailure::Stop(None)));
}

#[test]
fn leaving_first_page_pauses_hearing() {
    let mut f = listening(AssistantStatus::Waiting);
    assert!(navigate_to_page(&mut f, 7));
    assert_eq!(f.current_page, 2);
    assert!(f.paused && !f.active);
    assert!(!navigate_to_page(&mut f, 2));
    assert!(!navigate_to_page(&mut f, 0));
    assert_eq!(f.current_page, 0);
    let mut g = listening(AssistantStatus::Idle);
    assert!(!navigate_to_page(&mut g, 1));
    assert_eq!(g.current_page, 1);
    assert!(!g.paused);
}

#[test]
fn navigation_arrows() {
    let mut f = UiFlags::new();
    assert_eq!(nav_hidden(&f), (true, false));
    f.status = AssistantStatus::Speaking;
    assert_eq!(nav_hidden(&f), (true, true));
    f.current_page = 1;
    assert_eq!(nav_hidden(&f), (false, false));
    f.tts_synthesizing = true;
    assert_eq!(nav_hidden(&f), (false, true));
    f.current_page = 2;
    assert_eq!(nav_hidden(&f), (false, true));
}

#[test]
fn file_uploads() {
    let mut f = listening(AssistantStatus::Idle);
    assert!(begin_file_upload(&mut f));
    assert!(f.uploading_file && !f.active);
    assert!(!begin_file_upload(&mut f));
    f.paused = true;
    finish_file_upload(&mut f);
    assert!(!f.uploading_file && f.active && !f.paused);
}

#[test]
fn model_lists() {
    let models = vec![choice("tiny.en", true, false), choice("base.en", false, true), choice("tiny.en", false, false)];
    assert!(any_downloading(&models));
    assert!(current_model_available(&models, "tiny.en"));
    assert!(!current_model_available(&models, "base.en"));
    assert!(!current_model_available(&models, "large"));
    let mut f = UiFlags::new();
    f.status = AssistantStatus::Waiting;
    assert!(!models_received(&mut f, &models, "tiny.en"));
    assert!(f.downloading_model && !f.can_listen && !f.active);
    assert_eq!(f.status, AssistantStatus::Idle);
    let ready = vec![choice("tiny.en", true, false)];
    let mut g = UiFlags::new();
    g.active = false;
    assert!(models_received(&mut g, &ready, "tiny.en"));
    assert!(g.can_listen && g.active);
    assert!(!tts_models_received(&mut g, &ready));
    assert!(!g.tts_downloading_model);
}

#[test]
fn model_buttons() {
    let c = choice("base.en", false, false);
    assert_eq!(
        button_look(&c, true, false, "tiny.en"),
        ButtonLook { unavailable: true, downloading: false, locked: true, active: false }
    );
    assert_eq!(
        button_look(&choice("tiny.en", true, false), false, false, "tiny.en"),
        ButtonLook { unavailable: false, downloading: false, locked: false, active: true }
    );
    assert_eq!(model_click(&c, false, false), ModelClick::Download);
    assert_eq!(model_click(&choice("x", true, false), false, false), ModelClick::Select);
    assert_eq!(model_click(&choice("x", true, false), true, false), ModelClick::Ignore);
    assert_eq!(model_click(&choice("x", true, false), false, true), ModelClick::Ignore);
}

#[test]
fn meter_blocks_and_thresholds() {
    assert_eq!(meter_block(0), 1);
    assert_eq!(meter_block(250), 100);
    assert_eq!(block_threshold(80), 8000);
    assert_eq!(block_threshold(0), 100);
    assert_eq!(threshold_block(8000), 80);
    assert_eq!(threshold_block(149), 1);
    assert_eq!(threshold_block(150), 2);
    assert_eq!(threshold_block(-5), 1);
    assert_eq!(threshold_block(99_999_999), 100);
    for b in 1..=100 {
        assert_eq!(threshold_block(block_threshold(b) as i64), b);
    }
    assert_eq!(activation_tooltip(42), "Set activation level 42");
    assert_eq!(activation_tooltip(0), "Set activation level 1");
}

#[test]
fn labels() {
    assert_eq!(char_count_label(""), "0 characters");
    assert_eq!(char_count_label("\u{e9}"), "1 character");
    assert_eq!(char_count_label("ab"), "2 characters");
    assert_eq!(plain_char_count_label("a"), "1 characters");
    assert_eq!(device_details_text("Mic", 2, 16, 48000, "I16"), "Mic - 2 channels, 16 bit, 48000 Hz (I16)");
    assert_eq!(device_details_text("Mic", 0, 32, 0, "F32"), "Mic - 1 channel, 32 bit, unknown Hz (F32)");
}

#[test]
fn voice_page_notices() {
    match tts_notice(&Some("no pip".to_string()), true, false, true) {
        TtsNotice::Show(m) => assert_eq!(m, "piper install failed: no pip"),
        other => panic!("unexpected {:?}", other),
    }
    match tts_notice(&None, true, false, false) {
        TtsNotice::Show(m) => assert_eq!(m, "Installing piper-tts into .venv... (one-time setup, ~1-2 min)"),
        other => panic!("unexpected {:?}", other),
    }
    match tts_notice(&None, false, false, false) {
        TtsNotice::Show(m) => assert_eq!(m, "piper-tts is not installed."),
        other => panic!("unexpected {:?}", other),
    }
    assert!(matches!(tts_notice(&None, false, true, true), TtsNotice::DownloadProgress));
    assert!(matches!(tts_notice(&None, false, true, false), TtsNotice::Keep));
    assert!(tts_combine_disabled(false, false, false, false));
    assert!(!tts_combine_disabled(false, false, false, true));
}

#[test]
fn cloning_page_notices() {
    assert_eq!(clone_notice("oops", true, true, false), Some("f5-tts install failed: oops".to_string()));
    assert_eq!(
        clone_notice("", true, false, false),
        Some("Installing f5-tts and pulling deps (one-time, can take several minutes)...".to_string())
    );
    assert_eq!(clone_notice("", false, false, false), Some("f5-tts is not installed yet.".to_string()));
    assert_eq!(clone_notice("", false, true, false), Some("Ready.".to_string()));
    assert_eq!(clone_notice("", false, true, true), None);
    assert!(clone_combine_disabled(false, false, false));
    assert!(!clone_combine_disabled(false, false, true));
    assert_eq!(saved_reference_display(true, false, "  ", "hello"), (true, true));
    assert_eq!(saved_reference_display(true, false, "typed", "hello"), (true, false));
    assert_eq!(saved_reference_display(true, true, "", "hello"), (false, false));
}

#[test]
fn synthesis_requests() {
    assert_eq!(tts_request(true, "hi", "v"), Err(TtsRefusal::Busy));
    assert_eq!(tts_request(false, "  ", "v"), Err(TtsRefusal::NoText));
    assert_eq!(tts_request(false, "hi", ""), Err(TtsRefusal::NoVoice));
    assert_eq!(tts_request(false, " hi ", "v"), Ok("hi".to_string()));
    assert_eq!(TtsRefusal::NoText.message(), Some("Paste some text first."));
    assert_eq!(TtsRefusal::NoVoice.message(), Some("Pick a TTS voice first."));
    assert_eq!(TtsRefusal::Busy.message(), None);
}

#[test]
fn cloning_requests() {
    assert_eq!(clone_request(true, true, false, true, "a", "b"), Err(CloneRefusal::Busy));
    assert_eq!(clone_request(false, false, true, true, "a", "b"), Err(CloneRefusal::StillInstalling));
    assert_eq!(clone_request(false, false, false, true, "a", "b"), Err(CloneRefusal::NotReady));
    assert_eq!(clone_request(false, true, false, false, "a", "b"), Err(CloneRefusal::NoReference));
    assert_eq!(clone_request(false, true, false, true, " ", "b"), Err(CloneRefusal::NoReferenceText));
    assert_eq!(clone_request(false, true, false, true, "a", ""), Err(CloneRefusal::NoText));
    assert_eq!(clone_request(false, true, false, true, " a ", " b "), Ok(("a".to_string(), "b".to_string())));
    assert_eq!(CloneRefusal::StillInstalling.message(), Some("f5-tts is still installing \u{2014} please wait."));
    assert_eq!(CloneRefusal::NoText.message(), Some("Paste text to synthesize."));
    assert_eq!(CloneRefusal::Busy.message(), None);
}

#[test]
fn upload_urls() {
    assert_eq!(file_extension("song.Final.MP3"), "mp3");
    assert_eq!(file_extension("noext"), "wav");
    assert_eq!(file_extension("weird.!!"), "wav");
    assert_eq!(file_extension("clip.abcdefghijk"), "abcdefgh");
    assert_eq!(transcribe_upload_url("a.ogg"), "/api/transcribe-file?ext=ogg");
    assert_eq!(clone_reference_url("hi there", "me.wav"), "/api/clone/reference?text=hi%20there&ext=wav");
}

#[test]
fn status_poll_failures() {
    let mut n = 0u32;
    assert!(!status_poll_failed(&mut n, "Failed to fetch"));
    assert!(!status_poll_failed(&mut n, "Failed to fetch"));
    assert!(!status_poll_failed(&mut n, "Failed to fetch"));
    assert!(status_poll_failed(&mut n, "Failed to fetch"));
    assert_eq!(n, 4);
    assert!(!status_poll_failed(&mut n, "HTTP 500"));
}

#[test]
fn meter_spans_threshold_range() {
    assert_eq!(block_threshold(1), 100);
    assert_eq!(block_threshold(100), 10000);
    let mut s = ServerState::new();
    for b in [1usize, 37, 80, 100] {
        set_voice_threshold(&mut s, block_threshold(b) as i64);
        assert_eq!(get_voice_threshold(&s), block_threshold(b));
        assert_eq!(threshold_block(get_voice_threshold(&s) as i64), b);
    }
}

#[test]
fn upload_button_guard() {
    let mut f = UiFlags::new();
    assert!(upload_enabled(&f));
    f.downloading_model = true;
    assert!(!upload_enabled(&f));
    f.downloading_model = false;
    f.uploading_file = true;
    assert!(!upload_enabled(&f));
}

#[test]
fn unchanged_documents_are_skipped() {
    assert_eq!(models_signature(true, "abc"), "true|abc");
    assert_eq!(models_signature(false, ""), "false|");
    let mut remembered = String::new();
    assert!(document_changed(&mut remembered, "false|1".to_string()));
    assert_eq!(remembered, "false|1");
    assert!(!document_changed(&mut remembered, "false|1".to_string()));
    assert!(document_changed(&mut remembered, "true|1".to_string()));
    assert_eq!(remembered, "true|1");
}
