use rust_wthisper::catalog::{default_tts_model, find_model_option, find_tts_model_option, model_options, tts_model_options};
use rust_wthisper::json::{assistant_state_json, clone_status_json, decimal_chars, models_json, tts_models_json};
use rust_wthisper::state::{set_download_started, set_download_progress, set_f5_install_error, set_hearing_paused, set_silence_tail, set_voice_threshold, ServerState};

#[test]
fn decimal_chars_writes_digits() {
    assert_eq!(decimal_chars(0).iter().collect::<String>(), "0");
    assert_eq!(decimal_chars(1500).iter().collect::<String>(), "1500");
}

#[test]
fn status_document_of_a_fresh_server() {
    let s = ServerState::new();
    assert_eq!(
        assistant_state_json(&s),
        "{\"status\":\"idle\",\"level\":0.00000,\"left_level\":0.00000,\"right_level\":0.00000,\"channels\":1,\"sample_rate\":0,\"bits_per_sample\":16,\"sample_format\":\"unknown\",\"device_name\":\"unknown input\",\"voice_threshold\":0.08000,\"silence_tail\":1.5,\"paused\":false}"
    );
}

#[test]
fn status_document_formats_settings() {
    let mut s = ServerState::new();
    set_voice_threshold(&mut s, 123);
    set_silence_tail(&mut s, 2349);
    set_hearing_paused(&mut s, true);
    let j = assistant_state_json(&s);
    assert!(j.contains("\"voice_threshold\":0.00123,"));
    assert!(j.contains("\"silence_tail\":2.3,"));
    assert!(j.ends_with("\"paused\":true}"));
    set_silence_tail(&mut s, 2350);
    assert!(assistant_state_json(&s).contains("\"silence_tail\":2.3,"));
    set_silence_tail(&mut s, 1250);
    assert!(assistant_state_json(&s).contains("\"silence_tail\":1.2,"));
    set_silence_tail(&mut s, 1050);
    assert!(assistant_state_json(&s).contains("\"silence_tail\":1.0,"));
    set_silence_tail(&mut s, 1750);
    assert!(assistant_state_json(&s).contains("\"silence_tail\":1.8,"));
}

#[test]
fn catalogs_have_their_entries() {
    let m = model_options();
    assert_eq!(m.len(), 10);
    assert_eq!(m[0].model, "tiny.en");
    assert_eq!(find_model_option(&m, "large-v3-turbo"), Some(5));
    assert_eq!(find_model_option(&m, "huge"), None);
    let t = tts_model_options();
    assert_eq!(t.len(), 9);
    assert_eq!(find_tts_model_option(&t, "en_US-ryan-medium"), Some(2));
    assert_eq!(default_tts_model(), "en_US-ryan-medium");
}

#[test]
fn models_document_lists_every_checkpoint() {
    let mut s = ServerState::new();
    let mut avail = vec![false; 10];
    avail[0] = true;
    set_download_started(&mut s, "base.en");
    set_download_progress(&mut s, "base.en", 125);
    let j = models_json(&s, &avail);
    assert!(j.starts_with("{\"current\":\"tiny.en\",\"models\":[{\"label\":\"tiny\",\"model\":\"tiny.en\",\"size_mb\":75,\"download_url\":\"https://openaipublic.azureedge.net/main/whisper/models/d3dd57d32accea0b295c96e26691aa14d8822fac7d9d27d5dc00b4ca2826dd03/tiny.en.pt\",\"available\":true,\"downloading\":false,\"progress\":0.0,\"error\":null},{\"label\":\"base\",\"model\":\"base.en\",\"size_mb\":142,"));
    assert!(j.contains("\"model\":\"base.en\",\"size_mb\":142,\"download_url\":\"https://openaipublic.azureedge.net/main/whisper/models/25a8566e1d0c1e2231d1c762132cd20e0f96a85d16145c3a00adf5d1ac670ead/base.en.pt\",\"available\":false,\"downloading\":true,\"progress\":12.5,\"error\":null}"));
    assert!(j.ends_with("}]}"));
    assert_eq!(j.matches("\"label\":").count(), 10);
}

#[test]
fn tts_document_reports_piper() {
    let s = ServerState::new();
    let avail = vec![false; 9];
    let j = tts_models_json(&s, &avail, true);
    assert!(j.starts_with("{\"current\":\"en_US-ryan-medium\",\"piper_installing\":false,\"piper_install_error\":null,\"piper_available\":true,\"models\":[{\"label\":\"amy\","));
    assert_eq!(j.matches("\"label\":").count(), 9);
}

#[test]
fn clone_status_document() {
    let mut s = ServerState::new();
    set_f5_install_error(&mut s, Some("pip \"failed\"".to_string()));
    let j = clone_status_json(&s, false, true, &Some("hello".to_string()));
    assert_eq!(
        j,
        "{\"installing\":false,\"install_error\":\"pip \\\"failed\\\"\",\"available\":false,\"has_reference\":true,\"reference_text\":\"hello\",\"synthesizing\":false}"
    );
}
