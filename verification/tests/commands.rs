use rust_wthisper::commands::{
    clone_arguments, model_download_arguments, pip_install_arguments, piper_arguments, progress_digits,
    voice_download_arguments, whisper_arguments, CLONE_OUTPUT_FILE, CLONE_SCRIPT,
    MODEL_DOWNLOAD_SCRIPT, VOICE_DOWNLOAD_SCRIPT, VOICE_SETTINGS_PROGRESS,
};

#[test]
fn progress_number_before_percent() {
    assert_eq!(progress_digits(" 42.5%|####"), Some("42.5".to_string()));
    assert_eq!(progress_digits("\r 12 %"), Some("12".to_string()));
    assert_eq!(progress_digits("abc%"), Some(String::new()));
    assert_eq!(progress_digits("no percent"), None);
    assert_eq!(progress_digits("1% then 99%"), Some("1".to_string()));
}

#[test]
fn whisper_command_line() {
    let args = whisper_arguments("/t/mic.wav", "/m/base.en.pt", "/t", "base.en", "en", false);
    assert_eq!(
        args,
        vec![
            "/t/mic.wav", "--model", "/m/base.en.pt", "--output_format", "txt", "--output_dir", "/t", "--fp16", "False",
            "--verbose", "False", "--language", "en",
        ]
    );
    let multi = whisper_arguments("a.wav", "base", ".", "base", "en", false);
    assert_eq!(multi.len(), 11);
    let forced = whisper_arguments("a.wav", "base", ".", "base", "de", false);
    assert_eq!(&forced[11..], &["--language".to_string(), "de".to_string()]);
    let detect = whisper_arguments("a.wav", "tiny.en", ".", "tiny.en", "en", true);
    assert_eq!(detect.len(), 11);
}

#[test]
fn helper_command_lines() {
    assert_eq!(pip_install_arguments("piper-tts"), vec!["-m", "pip", "install", "--upgrade", "piper-tts"]);
    assert_eq!(model_download_arguments("tiny.en"), vec!["-c", MODEL_DOWNLOAD_SCRIPT, "tiny.en"]);
    assert!(MODEL_DOWNLOAD_SCRIPT.contains("whisper.load_model"));
    assert_eq!(voice_download_arguments("https://x/v.onnx", "/m/v.onnx"), vec!["-c", VOICE_DOWNLOAD_SCRIPT, "https://x/v.onnx", "/m/v.onnx"]);
    assert_eq!(piper_arguments("/m/v.onnx", "/t/tts.wav"), vec!["--model", "/m/v.onnx", "--output_file", "/t/tts.wav"]);
    assert_eq!(
        clone_arguments("/c/reference.wav", "hi", "say this", "/c"),
        vec!["-c", CLONE_SCRIPT, "/c/reference.wav", "hi", "say this", "/c", "output.wav"]
    );
    assert_eq!(CLONE_OUTPUT_FILE, "output.wav");
}

#[test]
fn voice_settings_progress_is_ninety_six_percent() {
    assert_eq!(VOICE_SETTINGS_PROGRESS, 960);
}
