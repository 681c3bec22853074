use rust_wthisper::json::assistant_state_json;
use rust_wthisper::rounding::{checkpoint_progress, seconds_tenths, voice_model_progress};
use rust_wthisper::state::{set_silence_tail, ServerState};

fn tenths_text(t: u64) -> String {
    format!("{}.{}", t / 10, t % 10)
}

#[test]
fn silence_tail_printed_like_an_f32() {
    for ms in 1000u32..=5000 {
        let expected = format!("{:.1}", ms as f32 / 1000.0);
        assert_eq!(tenths_text(seconds_tenths(ms)), expected, "{ms} ms");
    }
}

#[test]
fn status_document_prints_tail_like_an_f32() {
    let mut s = ServerState::new();
    for ms in [1000i64, 1050, 1150, 1250, 1350, 2250, 2350, 4950, 5000] {
        set_silence_tail(&mut s, ms);
        let expected = format!("\"silence_tail\":{:.1},", ms as f32 / 1000.0);
        assert!(assistant_state_json(&s).contains(&expected), "{ms} ms");
    }
}

#[test]
fn checkpoint_progress_printed_like_an_f32() {
    for h in 0u32..=10000 {
        let expected = format!("{:.1}", h as f32 / 100.0);
        assert_eq!(tenths_text(checkpoint_progress(h) as u64), expected, "{h}");
    }
    assert_eq!(checkpoint_progress(1225), 122);
    assert_eq!(checkpoint_progress(10000), 1000);
}

#[test]
fn voice_progress_scaled_like_f32_arithmetic() {
    for h in 0u32..=10000 {
        let expected = format!("{:.1}", (h as f32 / 100.0) * 0.95f32);
        assert_eq!(tenths_text(voice_model_progress(h) as u64), expected, "{h}");
    }
    assert_eq!(voice_model_progress(1236), 117);
    assert_eq!(voice_model_progress(10000), 950);
}
