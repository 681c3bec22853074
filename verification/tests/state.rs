use rust_wthisper::state::{
    begin_exclusive_listen, begin_upload, claim_listener_for_upload, end_exclusive_listen, finish_upload,
    get_current_model, get_current_tts_model, get_silence_tail, get_voice_threshold, listening_is_available,
    set_assistant_level, set_assistant_levels, set_current_model, set_download_error, set_download_finished,
    set_download_progress, set_download_started, set_hearing_paused, set_silence_tail, set_tts_download_progress,
    set_tts_download_started, set_voice_threshold, start_model_download, start_tts_model_download,
    upload_wait_step, AssistantStatus, DownloadStart, ServerState, UploadWait,
};

#[test]
fn new_state_has_defaults() {
    let s = ServerState::new();
    assert_eq!(s.assistant.status, AssistantStatus::Idle);
    assert_eq!(get_voice_threshold(&s), 8000);
    assert_eq!(get_silence_tail(&s), 1500);
    assert_eq!(get_current_model(&s), "tiny.en");
    assert_eq!(get_current_tts_model(&s), "en_US-ryan-medium");
    assert!(s.download.is_none());
    assert!(!s.listening_active && !s.upload_pending && !s.hearing_paused);
}

#[test]
fn status_names() {
    assert_eq!(AssistantStatus::Idle.as_str(), "idle");
    assert_eq!(AssistantStatus::Waiting.as_str(), "waiting");
    assert_eq!(AssistantStatus::Speaking.as_str(), "speaking");
    assert_eq!(AssistantStatus::Transcribing.as_str(), "transcribing");
}

#[test]
fn threshold_and_tail_are_clamped() {
    let mut s = ServerState::new();
    set_voice_threshold(&mut s, 5);
    assert_eq!(get_voice_threshold(&s), 100);
    set_voice_threshold(&mut s, 2_000_000);
    assert_eq!(get_voice_threshold(&s), 10000);
    set_voice_threshold(&mut s, 2500);
    assert_eq!(get_voice_threshold(&s), 2500);
    set_silence_tail(&mut s, 10);
    assert_eq!(get_silence_tail(&s), 1000);
    set_silence_tail(&mut s, 9000);
    assert_eq!(get_silence_tail(&s), 5000);
    set_silence_tail(&mut s, -7);
    assert_eq!(get_silence_tail(&s), 1000);
}

#[test]
fn levels_are_clamped() {
    let mut s = ServerState::new();
    set_assistant_level(&mut s, 250_000);
    assert_eq!(s.assistant.level, 100_000);
    assert_eq!(s.assistant.left_level, 100_000);
    assert_eq!(s.assistant.right_level, 0);
    set_assistant_levels(&mut s, -1, 300, 100_001);
    assert_eq!((s.assistant.level, s.assistant.left_level, s.assistant.right_level), (0, 300, 100_000));
}

#[test]
fn only_one_listener_at_a_time() {
    let mut s = ServerState::new();
    assert!(begin_exclusive_listen(&mut s));
    assert!(!begin_exclusive_listen(&mut s));
    end_exclusive_listen(&mut s);
    assert!(begin_exclusive_listen(&mut s));
}

#[test]
fn uploads_wait_for_the_listener_and_block_listening() {
    let mut s = ServerState::new();
    assert!(listening_is_available(&s, true));
    assert!(!listening_is_available(&s, false));
    begin_upload(&mut s);
    assert!(!listening_is_available(&s, true));
    assert!(begin_exclusive_listen(&mut s));
    assert!(!claim_listener_for_upload(&mut s));
    end_exclusive_listen(&mut s);
    assert!(claim_listener_for_upload(&mut s));
    assert!(!begin_exclusive_listen(&mut s));
    finish_upload(&mut s);
    assert!(listening_is_available(&s, true));
    assert!(begin_exclusive_listen(&mut s));
}

#[test]
fn pausing_blocks_listening() {
    let mut s = ServerState::new();
    set_hearing_paused(&mut s, true);
    assert!(!listening_is_available(&s, true));
    set_hearing_paused(&mut s, false);
    assert!(listening_is_available(&s, true));
}

#[test]
fn model_download_lifecycle() {
    let mut s = ServerState::new();
    set_assistant_level(&mut s, 500);
    set_download_started(&mut s, "base.en");
    assert_eq!(s.assistant.level, 0);
    assert!(!listening_is_available(&s, true));
    set_download_progress(&mut s, "base.en", 423);
    assert_eq!(s.download.as_ref().unwrap().progress, 423);
    set_download_progress(&mut s, "other", 900);
    assert_eq!(s.download.as_ref().unwrap().progress, 423);
    set_download_progress(&mut s, "base.en", 5000);
    assert_eq!(s.download.as_ref().unwrap().progress, 1000);
    set_download_finished(&mut s, "base.en");
    assert_eq!(get_current_model(&s), "base.en");
    assert!(!s.download.as_ref().unwrap().active);
    set_download_error(&mut s, "small.en", "boom".to_string());
    let d = s.download.as_ref().unwrap();
    assert_eq!(d.model, "small.en");
    assert_eq!(d.progress, 0);
    assert_eq!(d.error, Some("boom".to_string()));
}

#[test]
fn start_model_download_outcomes() {
    let mut s = ServerState::new();
    assert_eq!(start_model_download(&mut s, "base.en", true), DownloadStart::AlreadyAvailable);
    assert_eq!(get_current_model(&s), "base.en");
    assert_eq!(start_model_download(&mut s, "small.en", false), DownloadStart::Started);
    assert!(s.download.as_ref().unwrap().active);
    assert_eq!(start_model_download(&mut s, "medium.en", false), DownloadStart::AlreadyRunning);
    assert_eq!(s.download.as_ref().unwrap().model, "small.en");
}

#[test]
fn start_tts_download_outcomes() {
    let mut s = ServerState::new();
    assert!(start_tts_model_download(&mut s, "nope", false).is_err());
    match start_tts_model_download(&mut s, "en_US-amy-low", false) {
        Ok((DownloadStart::Started, Some(plan))) => {
            assert!(plan.onnx_url.ends_with("en_US-amy-low.onnx"));
            assert!(plan.json_url.ends_with("en_US-amy-low.onnx.json"));
        }
        _ => panic!("expected a started download"),
    }
    assert!(matches!(start_tts_model_download(&mut s, "en_US-ryan-medium", false), Ok((DownloadStart::AlreadyRunning, None))));
    set_tts_download_progress(&mut s, "en_US-amy-low", 999);
    assert_eq!(s.tts_download.as_ref().unwrap().progress, 999);
    assert!(matches!(start_tts_model_download(&mut s, "en_US-lessac-medium", true), Ok((DownloadStart::AlreadyAvailable, None))));
    assert_eq!(get_current_tts_model(&s), "en_US-lessac-medium");
}

#[test]
fn tts_download_start_records_model() {
    let mut s = ServerState::new();
    set_tts_download_started(&mut s, "en_US-amy-low");
    let d = s.tts_download.as_ref().unwrap();
    assert!(d.active);
    assert_eq!(d.progress, 0);
    let _ = set_current_model;
}

#[test]
fn upload_waits_for_the_listener_at_most_two_hundred_looks() {
    let mut s = ServerState::new();
    assert_eq!(upload_wait_step(&s, 0), UploadWait::Claim);
    assert!(begin_exclusive_listen(&mut s));
    assert_eq!(upload_wait_step(&s, 0), UploadWait::Wait);
    assert_eq!(upload_wait_step(&s, 199), UploadWait::Wait);
    assert_eq!(upload_wait_step(&s, 200), UploadWait::Claim);
}
