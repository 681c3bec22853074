use rust_wthisper::audio::{finish_recording, max_samples, on_chunk, silence_limit, split_channels, u16_to_i16, Activation, ChunkOutcome};

#[test]
fn unsigned_samples_center_on_zero() {
    assert_eq!(u16_to_i16(0), -32768);
    assert_eq!(u16_to_i16(32768), 0);
    assert_eq!(u16_to_i16(65535), 32767);
}

#[test]
fn mono_keeps_everything_left() {
    let c = split_channels(&[1, 2, 3], 1);
    assert!(c.mono);
    assert_eq!(c.left, vec![1, 2, 3]);
    assert!(c.right.is_empty());
}

#[test]
fn stereo_and_wider_take_first_two_of_each_frame() {
    let c = split_channels(&[1, 2, 3, 4, 5], 2);
    assert!(!c.mono);
    assert_eq!(c.left, vec![1, 3, 5]);
    assert_eq!(c.right, vec![2, 4]);
    let d = split_channels(&[1, 2, 3, 4, 5, 6, 7], 3);
    assert_eq!(d.left, vec![1, 4, 7]);
    assert_eq!(d.right, vec![2, 5]);
}

#[test]
fn sample_counts() {
    assert_eq!(silence_limit(1500, 16000, 1), 24000);
    assert_eq!(silence_limit(1000, 44100, 2), 88200);
    assert_eq!(silence_limit(1, 999, 1), 0);
    assert_eq!(max_samples(30, 16000, 2), 960000);
    assert_eq!(max_samples(30, 16000, 0), 0);
}

#[test]
fn recording_waits_for_speech_then_ends_after_quiet() {
    let mut a = Activation::new();
    assert_eq!(on_chunk(&mut a, &[1, 1], true, false, true, 4, 100), ChunkOutcome::Continue);
    assert!(!a.active && a.samples.is_empty());
    assert_eq!(on_chunk(&mut a, &[9, 9], true, true, false, 4, 100), ChunkOutcome::Continue);
    assert!(a.active);
    assert_eq!(a.samples, vec![9, 9]);
    assert_eq!(on_chunk(&mut a, &[0, 0], true, false, true, 4, 100), ChunkOutcome::Continue);
    assert_eq!(a.quiet_samples, 2);
    assert_eq!(on_chunk(&mut a, &[5], true, false, false, 4, 100), ChunkOutcome::Continue);
    assert_eq!(a.quiet_samples, 0);
    assert_eq!(on_chunk(&mut a, &[0, 0], true, false, true, 4, 100), ChunkOutcome::Continue);
    assert_eq!(on_chunk(&mut a, &[0, 0], true, false, true, 4, 100), ChunkOutcome::FinishedBySilence);
    assert_eq!(finish_recording(a), Ok(vec![9, 9, 0, 0, 5, 0, 0, 0, 0]));
}

#[test]
fn recording_stops_at_max_length_or_when_unavailable() {
    let mut a = Activation::new();
    assert_eq!(on_chunk(&mut a, &[7, 7, 7], true, true, false, 100, 5), ChunkOutcome::Continue);
    assert_eq!(on_chunk(&mut a, &[7, 7], true, true, false, 100, 5), ChunkOutcome::FinishedByLength);
    let mut b = Activation::new();
    assert_eq!(on_chunk(&mut b, &[7], false, true, false, 100, 5), ChunkOutcome::Abort);
    assert!(!b.active);
    assert_eq!(finish_recording(b), Err(()));
}
