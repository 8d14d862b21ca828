use voicepipe::config::MAX_SILENCE_MS;
use voicepipe::config::MIN_RECORDING_MS;
use voicepipe::config::TRIGGER_SAMPLES;
use voicepipe::config::VAD_WINDOW_SAMPLES;
use voicepipe::pipeline::Pipeline;
use voicepipe::trigger::silence_should_fire;
use voicepipe::vad::VoiceActivityState;
use voicepipe::vad::classify_window;

#[test]
fn window_above_threshold_is_voiced() {
    // 1000/32768 is about 0.031 RMS, well above the 0.01 threshold.
    let window: Vec<i16> = vec![1000; VAD_WINDOW_SAMPLES];
    assert!(classify_window(&window));
}

#[test]
fn window_below_threshold_is_silent() {
    // 100/32768 is about 0.003 RMS, below the 0.01 threshold.
    let window: Vec<i16> = vec![100; VAD_WINDOW_SAMPLES];
    assert!(!classify_window(&window));
    let silence: Vec<i16> = vec![0; VAD_WINDOW_SAMPLES];
    assert!(!classify_window(&silence));
}

#[test]
fn threshold_rms_boundary_is_exclusive() {
    // A constant amplitude of exactly 1% of full scale gives rms == threshold,
    // and the policy asks for strictly greater.
    let window: Vec<i16> = vec![328; 4]; // 328/32768 > 1%: voiced
    assert!(classify_window(&window));
    let window: Vec<i16> = vec![327; 4]; // 327/32768 < 1%: silent
    assert!(!classify_window(&window));
}

#[test]
fn silence_debounce_holds_before_min_recording_duration() {
    let v = VoiceActivityState {
        capture_start_ms: 0,
        last_voiced_ms: None,
        samples_since_check: 0,
    };
    for now in 0..MIN_RECORDING_MS {
        assert!(!silence_should_fire(&v, now));
    }
}

#[test]
fn silence_debounce_fires_at_max_silence_from_start_when_never_voiced() {
    let v = VoiceActivityState {
        capture_start_ms: 0,
        last_voiced_ms: None,
        samples_since_check: 0,
    };
    assert!(!silence_should_fire(&v, MAX_SILENCE_MS - 1));
    assert!(silence_should_fire(&v, MAX_SILENCE_MS));
    assert!(silence_should_fire(&v, MAX_SILENCE_MS + 1));
}

#[test]
fn silence_debounce_fires_at_last_voiced_plus_max_silence() {
    let v = VoiceActivityState {
        capture_start_ms: 0,
        last_voiced_ms: Some(600),
        samples_since_check: 0,
    };
    let fire_point = 600 + MAX_SILENCE_MS;
    assert!(fire_point >= MIN_RECORDING_MS);
    assert!(!silence_should_fire(&v, fire_point - 1));
    assert!(silence_should_fire(&v, fire_point));
    assert!(silence_should_fire(&v, fire_point + 250));
}

#[test]
fn threshold_trigger_fires_exactly_at_trigger_size() {
    let mut p = Pipeline::new(0);
    // 15999 samples: one byte pair short of the trigger size.
    p.push_pcm_chunk(&vec![0u8; 2 * (TRIGGER_SAMPLES - 1)]).unwrap();
    assert_eq!(p.buffered_samples(), TRIGGER_SAMPLES - 1);
    assert!(!p.trigger_pending());
    p.push_pcm_chunk(&[0u8, 0u8]).unwrap();
    assert_eq!(p.buffered_samples(), TRIGGER_SAMPLES);
    assert!(p.trigger_pending());
}

#[test]
fn raising_the_trigger_twice_equals_raising_it_once() {
    let mut p = Pipeline::new(0);
    p.push_pcm_chunk(&vec![0u8; 2 * TRIGGER_SAMPLES]).unwrap();
    assert!(p.trigger_pending());
    // A chunk arriving after the trigger was raised sets it again: idempotent.
    p.push_pcm_chunk(&[1u8, 0u8]).unwrap();
    assert!(p.trigger_pending());
    let snap = p.worker_poll().expect("a snapshot");
    assert_eq!(snap.len(), TRIGGER_SAMPLES + 1);
    assert!(!p.trigger_pending());
}

#[test]
fn pull_ingest_marks_voice_and_debounces_silence() {
    let mut p = Pipeline::new(0);
    // A voiced check interval at t=100.
    p.ingest_frame(&vec![1000; VAD_WINDOW_SAMPLES], 1, 100).unwrap();
    assert!(!p.trigger_pending());
    // Silent intervals follow; silence is measured from t=100.
    for step in 1..=9u64 {
        p.ingest_frame(&vec![0; VAD_WINDOW_SAMPLES], 1, 100 + step * 100)
            .unwrap();
        assert!(!p.trigger_pending());
    }
    // One millisecond short of the fire point: still quiet.
    p.ingest_frame(&vec![0; VAD_WINDOW_SAMPLES], 1, 99 + MAX_SILENCE_MS)
        .unwrap();
    assert!(!p.trigger_pending());
    // At t=1100 (= 100 + MAX_SILENCE_MS) the trigger fires.
    p.ingest_frame(&vec![0; VAD_WINDOW_SAMPLES], 1, 100 + MAX_SILENCE_MS)
        .unwrap();
    assert!(p.trigger_pending());
}

#[test]
fn pull_ingest_rejects_zero_channels() {
    let mut p = Pipeline::new(0);
    let r = p.ingest_frame(&[1, 2, 3], 0, 10);
    assert!(r.is_err());
    assert_eq!(p.buffered_samples(), 0);
}
