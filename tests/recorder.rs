use commander::controller::{convert_u16_samples, pick_device, AudioCommand, AudioController};
use commander::level::{frame_sums, level_of, LevelStats};
use commander::session::{
    downmix, lifecycle_signals, transcription_signal, HotkeyAction, LifecycleSignal, RecorderState, Toggle,
    DEFAULT_SAMPLE_RATE_HZ, NO_MODEL_MESSAGE,
};

fn sine_batch(len: usize, rate: f64) -> Vec<i16> {
    (0..len)
        .map(|i| ((i as f64 * 440.0 * 2.0 * std::f64::consts::PI / rate).sin() * 16000.0) as i16)
        .collect()
}

#[test]
fn new_recorder_is_idle() {
    let r = RecorderState::new();
    assert!(!r.is_recording);
    assert!(r.buffer.is_empty());
    assert_eq!(r.start_instant, None);
    assert_eq!(r.sample_rate_hz, DEFAULT_SAMPLE_RATE_HZ);
    assert_eq!(r.last_level_emit, None);
}

#[test]
fn end_returns_samples_since_begin() {
    let mut r = RecorderState::new();
    assert!(r.begin_recording(10));
    assert_eq!(r.start_instant, Some(10));
    r.process_batch(&vec![1, 2, 3], 1, 10);
    r.process_batch(&vec![4, 5], 1, 20);
    let out = r.end_recording();
    assert_eq!(out, vec![1, 2, 3, 4, 5]);
    assert!(r.buffer.is_empty());
    assert!(!r.is_recording);
    assert_eq!(r.start_instant, None);
}

#[test]
fn end_when_idle_is_a_no_op() {
    let mut r = RecorderState::new();
    let out = r.end_recording();
    assert!(out.is_empty());
    assert!(!r.is_recording);
}

#[test]
fn begin_when_recording_keeps_buffer() {
    let mut r = RecorderState::new();
    assert!(r.begin_recording(0));
    r.process_batch(&vec![7, 8], 1, 0);
    assert!(!r.begin_recording(100));
    assert_eq!(r.buffer, vec![7, 8]);
    assert_eq!(r.start_instant, Some(0));
    assert_eq!(r.end_recording(), vec![7, 8]);
}

#[test]
fn samples_before_begin_are_not_kept() {
    let mut r = RecorderState::new();
    r.process_batch(&vec![9, 9, 9], 1, 0);
    assert!(r.buffer.is_empty());
    r.begin_recording(1);
    r.process_batch(&vec![1], 1, 2);
    assert_eq!(r.end_recording(), vec![1]);
}

#[test]
fn toggle_starts_then_stops() {
    let mut r = RecorderState::new();
    assert!(matches!(r.toggle(5), Toggle::Started));
    assert!(r.is_recording);
    r.process_batch(&vec![3, -3], 1, 6);
    match r.toggle(7) {
        Toggle::Stopped(s) => assert_eq!(s, vec![3, -3]),
        Toggle::Started => panic!("expected a stop"),
    }
    assert!(!r.is_recording);
}

#[test]
fn stereo_batches_are_averaged_per_frame() {
    let mut r = RecorderState::new();
    r.begin_recording(0);
    r.process_batch(&vec![100, 200, -5, -6, 7], 2, 0);
    assert_eq!(r.end_recording(), vec![150, -5]);
}

#[test]
fn downmix_rounds_toward_zero() {
    assert_eq!(downmix(&vec![3, -3, 32767 * 3, -32768 * 3], 3), vec![1, -1, 32767, -32768]);
    assert_eq!(downmix(&vec![5, -5], 2), vec![2, -2]);
}

#[test]
fn zero_channels_change_nothing() {
    let mut r = RecorderState::new();
    r.begin_recording(0);
    assert_eq!(r.process_batch(&vec![1, 2], 0, 0), None);
    assert!(r.buffer.is_empty());
    assert_eq!(r.last_level_emit, None);
}

#[test]
fn level_readings_are_throttled() {
    let mut r = RecorderState::new();
    let first = r.process_batch(&vec![1000], 1, 1000);
    assert!(first.is_some());
    assert!(!first.unwrap().recording);
    assert_eq!(r.process_batch(&vec![1000], 1, 1049), None);
    assert!(r.process_batch(&vec![1000], 1, 1050).is_some());
    assert_eq!(r.last_level_emit, Some(1050));
}

#[test]
fn silent_batch_has_zero_level() {
    let sums = frame_sums(&vec![0; 64], 1);
    let st = level_of(&sums, 1);
    assert_eq!(st, LevelStats { sum_squares: 0, peak_abs: 0, frames: 64, full_scale: 32767 });
    let rms = ((st.sum_squares as f64 / st.frames as f64).sqrt() / st.full_scale as f64) as f32;
    let db = 20.0 * rms.max(1e-12).log10();
    assert_eq!(rms, 0.0);
    assert!((db - (-240.0)).abs() < 1e-3);
    assert!(db.is_finite());
}

#[test]
fn full_scale_square_wave_has_unit_level() {
    let wave: Vec<i16> = (0..100).map(|i| if i % 2 == 0 { 32767 } else { -32767 }).collect();
    let st = level_of(&frame_sums(&wave, 1), 1);
    assert_eq!(st.sum_squares, 100 * 32767u128 * 32767);
    assert_eq!(st.peak_abs, 32767);
    let rms = (st.sum_squares as f64 / st.frames as f64).sqrt() / st.full_scale as f64;
    assert!((rms - 1.0).abs() < 1e-9);
    assert_eq!(st.peak_abs as f64 / st.full_scale as f64, 1.0);
}

#[test]
fn stereo_level_uses_frame_sums() {
    let sums = frame_sums(&vec![100, 300, -50, -150], 2);
    assert_eq!(sums, vec![400, -200]);
    let st = level_of(&sums, 2);
    assert_eq!(st.sum_squares, 400 * 400 + 200 * 200);
    assert_eq!(st.peak_abs, 400);
    assert_eq!(st.full_scale, 2 * 32767);
    assert_eq!(frame_sums(&vec![1, 2, 3], 2), vec![3]);
}

#[test]
fn two_seconds_of_sine_fill_the_buffer() {
    let mut r = RecorderState::new();
    assert!(matches!(r.toggle(0), Toggle::Started));
    let wave = sine_batch(2 * 16000, 16000.0);
    let mut t: u64 = 0;
    for chunk in wave.chunks(480) {
        r.process_batch(&chunk.to_vec(), 1, t);
        t += 30;
    }
    match r.toggle(t) {
        Toggle::Stopped(s) => {
            assert_eq!(s.len(), 2 * 16000);
            assert_eq!(s, wave);
        }
        Toggle::Started => panic!("expected a stop"),
    }
}

#[test]
fn unsigned_samples_are_centered() {
    assert_eq!(convert_u16_samples(&vec![0, 32768, 65535]), vec![-32768, 0, 32767]);
}

#[test]
fn preferred_device_is_found_by_name() {
    let names = vec![Some("Built-in".to_string()), None, Some("USB Mic".to_string()), Some("USB Mic".to_string())];
    assert_eq!(pick_device(&names, Some("USB Mic")), Some(2));
    assert_eq!(pick_device(&names, Some("Missing")), None);
    assert_eq!(pick_device(&names, None), None);
}

#[test]
fn set_device_sends_a_rebuild() {
    let (tx, rx) = std::sync::mpsc::channel();
    let mut controller = AudioController::new(tx);
    let mut copy = controller.clone();
    assert_eq!(copy.set_device(Some("USB Mic".to_string())), Ok(()));
    match rx.recv().unwrap() {
        AudioCommand::Rebuild { device } => assert_eq!(device.as_deref(), Some("USB Mic")),
    }
    drop(rx);
    let err = controller.set_device(None).unwrap_err();
    assert_eq!(err, "failed to send audio command: sending on a closed channel");
}

#[test]
fn hold_mode_records_while_held() {
    let mut r = RecorderState::new();
    assert!(matches!(r.hotkey(true, true, 0), HotkeyAction::Started));
    r.process_batch(&vec![4, 5, 6], 1, 0);
    assert!(matches!(r.hotkey(true, true, 10), HotkeyAction::Nothing));
    match r.hotkey(true, false, 20) {
        HotkeyAction::Stopped(s) => assert_eq!(s, vec![4, 5, 6]),
        other => panic!("unexpected {:?}", other),
    }
    assert!(matches!(r.hotkey(true, false, 30), HotkeyAction::Nothing));
}

#[test]
fn toggle_mode_ignores_release() {
    let mut r = RecorderState::new();
    assert!(matches!(r.hotkey(false, true, 0), HotkeyAction::Started));
    assert!(matches!(r.hotkey(false, false, 1), HotkeyAction::Nothing));
    assert!(r.is_recording);
    r.process_batch(&vec![1, 1], 1, 2);
    match r.hotkey(false, true, 3) {
        HotkeyAction::Stopped(s) => assert_eq!(s, vec![1, 1]),
        other => panic!("unexpected {:?}", other),
    }
    assert!(!r.is_recording);
}

#[test]
fn hold_press_while_recording_keeps_start_time() {
    let mut r = RecorderState::new();
    r.hotkey(true, true, 5);
    r.process_batch(&[2, 3], 1, 6);
    assert!(matches!(r.hotkey(true, true, 50), HotkeyAction::Nothing));
    assert_eq!(r.start_instant, Some(5));
    assert_eq!(r.buffer, vec![2, 3]);
}

#[test]
fn toggle_needs_a_loaded_model() {
    let mut r = RecorderState::new();
    let err = r.request_toggle(false, 0).unwrap_err();
    assert_eq!(err, NO_MODEL_MESSAGE);
    assert_eq!(err, "No model selected. Please select and download a model first.");
    assert!(!r.is_recording);
    assert!(matches!(r.request_toggle(true, 1), Ok(Toggle::Started)));
    r.process_batch(&[9], 1, 2);
    assert!(r.request_toggle(false, 3).is_err());
    assert!(r.is_recording);
    match r.request_toggle(true, 4) {
        Ok(Toggle::Stopped(s)) => assert_eq!(s, vec![9]),
        _ => panic!("expected a stop"),
    }
}

#[test]
fn lifecycle_signals_follow_the_recorder() {
    assert_eq!(lifecycle_signals(true, false), vec![LifecycleSignal::RecordingStarted]);
    assert_eq!(
        lifecycle_signals(false, true),
        vec![LifecycleSignal::TranscriptionStarted, LifecycleSignal::RecordingStopped]
    );
    assert!(lifecycle_signals(false, false).is_empty());
    assert_eq!(transcription_signal(true), LifecycleSignal::TranscriptionCompleted);
    assert_eq!(transcription_signal(false), LifecycleSignal::TranscriptionFailed);
}
