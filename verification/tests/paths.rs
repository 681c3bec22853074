use rust_wthisper::http::ContentType;
use rust_wthisper::paths::{
    clone_dir, clone_output_path, clone_reference_text_path, default_local_piper, default_output_path, find_first_present,
    find_model_file, find_nearby_file, find_tts_model_file, find_upward, has_clone_reference, initial_model,
    is_clone_reference_audio_name, model_is_available, path_ancestors, path_join, project_root, python_for_whisper_bin,
    resolve_model, static_file_reply, tts_model_is_available, tts_models_root, HostEnv,
};

fn strings(v: &[&str]) -> Vec<String> {
    v.iter().map(|s| s.to_string()).collect()
}

fn env_at(cwd: &str) -> HostEnv {
    HostEnv {
        cwd: Some(cwd.to_string()),
        exe_dir: None,
        user_profile: None,
        home: Some("/home/u".to_string()),
        xdg_cache_home: None,
    }
}

#[test]
fn join_like_pathbuf_push() {
    assert_eq!(path_join("a", "b"), "a/b");
    assert_eq!(path_join("a/", "b"), "a/b");
    assert_eq!(path_join("", "b"), "b");
    assert_eq!(path_join("a", "/b"), "/b");
}

#[test]
fn ancestors_nearest_first() {
    assert_eq!(path_ancestors("/a/b"), strings(&["/a/b", "/a", "/"]));
    assert_eq!(path_ancestors("a/b"), strings(&["a/b", "a", ""]));
}

#[test]
fn first_present_in_order() {
    let cands = strings(&["x", "y", "z"]);
    assert_eq!(find_first_present(&cands, &strings(&["z", "y"])), Some("y".to_string()));
    assert_eq!(find_first_present(&cands, &strings(&["w"])), None);
}

#[test]
fn find_upward_walks_to_the_root() {
    let present = strings(&["/w/.venv/bin/python"]);
    assert_eq!(find_upward("/w/proj/sub", ".venv/bin/python", &present), Some("/w/.venv/bin/python".to_string()));
    assert_eq!(find_upward("/other", ".venv/bin/python", &present), None);
}

#[test]
fn nearby_file_in_models_folder_of_parent() {
    let present = strings(&["/p/models/f.bin"]);
    assert_eq!(find_nearby_file("/p/q", "f.bin", &present), Some("/p/models/f.bin".to_string()));
    assert_eq!(find_nearby_file("/p/q", "g.bin", &present), None);
}

#[test]
fn project_root_is_nearest_cargo_manifest() {
    let env = env_at("/w/proj/sub");
    let present = strings(&["/w/proj/Cargo.toml", "/w/Cargo.toml"]);
    assert_eq!(project_root(&env, &present), Some("/w/proj".to_string()));
    assert_eq!(project_root(&env, &Vec::new()), None);
}

#[test]
fn folders_under_the_root() {
    let root = Some("/r".to_string());
    assert_eq!(default_output_path(&root), "/r/target/mic.wav");
    assert_eq!(default_output_path(&None), "./target/mic.wav");
    assert_eq!(clone_dir(&None), "./target/clone");
    assert_eq!(clone_reference_text_path(&root), "/r/target/clone/reference.txt");
    assert_eq!(clone_output_path(&root), "/r/target/clone/output.wav");
    assert_eq!(tts_models_root(&root), "/r/models/tts");
}

#[test]
fn reference_audio_names() {
    assert!(is_clone_reference_audio_name("reference.wav"));
    assert!(is_clone_reference_audio_name("reference.mp3"));
    assert!(!is_clone_reference_audio_name("reference.txt"));
    assert!(!is_clone_reference_audio_name("ref.wav"));
    let root = Some("/r".to_string());
    assert!(has_clone_reference(true, &root, &strings(&["/r/target/clone/reference.txt"])));
    assert!(!has_clone_reference(false, &root, &strings(&["/r/target/clone/reference.txt"])));
    assert!(!has_clone_reference(true, &root, &Vec::new()));
}

#[test]
fn static_files_typed_by_extension() {
    assert_eq!(static_file_reply("pkg/app.js", vec![1]).content_type, ContentType::JavaScript);
    assert_eq!(static_file_reply("pkg/app_bg.wasm", vec![]).content_type, ContentType::Wasm);
    assert_eq!(static_file_reply("pkg/data", vec![]).content_type, ContentType::OctetStream);
    assert_eq!(static_file_reply("pkg/app.css", vec![7]).body, vec![7]);
}

#[test]
fn checkpoints_found_near_cwd_or_in_cache() {
    let env = env_at("/w");
    let present = strings(&["/home/u/.cache/whisper/base.en.pt"]);
    assert_eq!(find_model_file("base.en", &env, &None, &present), Some("/home/u/.cache/whisper/base.en.pt".to_string()));
    assert!(model_is_available("base.en", &env, &None, &present));
    assert!(!model_is_available("tiny.en", &env, &None, &present));
    assert_eq!(resolve_model("base.en", &env, &None, &present), "/home/u/.cache/whisper/base.en.pt");
    assert_eq!(resolve_model("small.en", &env, &None, &present), "small.en");
    let plain = strings(&["/home/u/.cache/whisper/base.pt"]);
    assert_eq!(resolve_model("base", &env, &None, &plain), "/home/u/.cache/whisper/base.pt");
    assert_eq!(resolve_model("tiny", &env, &None, &plain), "tiny");
    assert_eq!(resolve_model("my.pt", &env, &None, &present), "my.pt");
    let local = strings(&["/w/models/tiny.en.pt"]);
    assert_eq!(find_model_file("tiny.en", &env, &None, &local), Some("/w/models/tiny.en.pt".to_string()));
}

#[test]
fn initial_model_falls_back_to_an_available_one() {
    let env = env_at("/w");
    let present = strings(&["/home/u/.cache/whisper/small.en.pt"]);
    assert_eq!(initial_model("tiny.en", &env, &None, &present), "small.en");
    assert_eq!(initial_model("tiny.en", &env, &None, &Vec::new()), "tiny.en");
}

#[test]
fn python_next_to_whisper() {
    let present = strings(&["/v/bin/python"]);
    assert_eq!(python_for_whisper_bin("/v/bin/whisper", &present), Some("/v/bin/python".to_string()));
    assert_eq!(python_for_whisper_bin("/v/bin/whisper", &Vec::new()), None);
}

#[test]
fn local_tools_in_venv() {
    let env = env_at("/w/proj");
    let present = strings(&["/w/.venv/bin/piper"]);
    assert_eq!(default_local_piper(&env, &present), Some("/w/.venv/bin/piper".to_string()));
    assert_eq!(default_local_piper(&env, &Vec::new()), None);
}

#[test]
fn voices_need_both_files() {
    let env = env_at("/w");
    let root = Some("/w".to_string());
    let both = strings(&["/w/models/tts/en_US-amy-low.onnx", "/w/models/tts/en_US-amy-low.onnx.json"]);
    assert_eq!(find_tts_model_file("en_US-amy-low", &env, &root, &both), Some("/w/models/tts/en_US-amy-low.onnx".to_string()));
    assert!(tts_model_is_available("en_US-amy-low", &env, &root, &both));
    let half = strings(&["/w/models/tts/en_US-amy-low.onnx"]);
    assert!(!tts_model_is_available("en_US-amy-low", &env, &root, &half));
}

#[test]
fn checkpoint_in_parent_folder_is_used() {
    let env = env_at("/w/proj");
    let present = strings(&["/w/tiny.en.pt"]);
    assert_eq!(find_model_file("tiny.en", &env, &None, &present), Some("/w/tiny.en.pt".to_string()));
    assert_eq!(resolve_model("tiny.en", &env, &None, &present), "/w/tiny.en.pt");
    let local = strings(&["/w/proj/models/tiny.en.pt", "/w/tiny.en.pt"]);
    assert_eq!(resolve_model("tiny.en", &env, &None, &local), "/w/proj/models/tiny.en.pt");
    assert_eq!(resolve_model("models/tiny.en.pt", &env, &None, &local), "models/tiny.en.pt");
    let whisper_dir = strings(&["/w/proj/whisper/small.pt"]);
    assert_eq!(resolve_model("small", &env, &None, &whisper_dir), "/w/proj/whisper/small.pt");
}
