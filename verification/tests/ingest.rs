use voicepipe::errors::PipelineError;
use voicepipe::pipeline::Pipeline;
use voicepipe::pipeline::confirm_input_device;
use voicepipe::sample::center_u16_sample;
use voicepipe::sample::decode_pcm16le;
use voicepipe::sample::downmix_first_channel;

fn int16_le(lo: u8, hi: u8) -> i16 {
    i16::from_le_bytes([lo, hi])
}

#[test]
fn decode_yields_one_sample_per_byte_pair() {
    let chunk: Vec<u8> = vec![0x34, 0x12, 0xFF, 0xFF, 0x00, 0x80, 0xFF, 0x7F];
    let samples = decode_pcm16le(&chunk).unwrap();
    assert_eq!(samples.len(), chunk.len() / 2);
    assert_eq!(samples, vec![0x1234, -1, -32768, 32767]);
}

#[test]
fn decode_matches_scaled_float_samples() {
    let chunk: Vec<u8> = vec![0x00, 0x00, 0x34, 0x12, 0xFF, 0xFF, 0x00, 0x80, 0xFF, 0x7F];
    let samples = decode_pcm16le(&chunk).unwrap();
    assert_eq!(samples.len(), chunk.len() / 2);
    for (i, raw) in samples.iter().enumerate() {
        let expected = int16_le(chunk[2 * i], chunk[2 * i + 1]) as f32 / 32768.0;
        assert_eq!(*raw as f32 / 32768.0, expected);
    }
}

#[test]
fn decode_empty_chunk_yields_no_samples() {
    let samples = decode_pcm16le(&[]).unwrap();
    assert!(samples.is_empty());
}

#[test]
fn decode_rejects_odd_length_chunk() {
    assert_eq!(decode_pcm16le(&[0x01]), Err(PipelineError::MalformedInput));
    assert_eq!(
        decode_pcm16le(&[0x01, 0x02, 0x03]),
        Err(PipelineError::MalformedInput)
    );
}

#[test]
fn push_rejects_odd_chunk_and_leaves_buffer_unchanged() {
    let mut p = Pipeline::new(0);
    p.push_pcm_chunk(&[0x10, 0x00, 0x20, 0x00]).unwrap();
    assert_eq!(p.buffered_samples(), 2);
    let r = p.push_pcm_chunk(&[0x01, 0x02, 0x03]);
    assert_eq!(r, Err(PipelineError::MalformedInput));
    assert_eq!(p.buffered_samples(), 2);
    assert!(!p.trigger_pending());
}

#[test]
fn push_accumulates_len_over_2_samples_per_chunk() {
    let mut p = Pipeline::new(0);
    p.push_pcm_chunk(&vec![0u8; 2000]).unwrap();
    assert_eq!(p.buffered_samples(), 1000);
    p.push_pcm_chunk(&vec![0u8; 600]).unwrap();
    assert_eq!(p.buffered_samples(), 1300);
}

#[test]
fn center_u16_maps_midpoint_to_zero() {
    assert_eq!(center_u16_sample(32768), 0);
    assert_eq!(center_u16_sample(0), -32768);
    assert_eq!(center_u16_sample(65535), 32767);
}

#[test]
fn downmix_takes_first_channel_per_frame() {
    let frame: Vec<i16> = vec![1, 2, 3, 4, 5, 6];
    assert_eq!(downmix_first_channel(&frame, 2), vec![1, 3, 5]);
    assert_eq!(downmix_first_channel(&frame, 3), vec![1, 4]);
    assert_eq!(downmix_first_channel(&frame, 1), frame);
}

#[test]
fn downmix_drops_trailing_partial_frame() {
    let frame: Vec<i16> = vec![7, 8, 9];
    assert_eq!(downmix_first_channel(&frame, 2), vec![7]);
}

#[test]
fn missing_device_is_fatal_to_pull_capture() {
    assert_eq!(
        confirm_input_device(false),
        Err(PipelineError::DeviceUnavailable)
    );
    assert_eq!(confirm_input_device(true), Ok(()));
}

#[test]
fn error_messages_name_their_cause() {
    assert_eq!(
        PipelineError::MalformedInput.message().as_str(),
        "malformed input: expected an even number of PCM16LE bytes"
    );
    assert_eq!(
        PipelineError::EngineNotInitialized.message().as_str(),
        "Whisper not initialized"
    );
    assert_eq!(
        PipelineError::EngineFailure("decode failed".to_string())
            .message()
            .as_str(),
        "transcription failed: decode failed"
    );
    assert_eq!(
        PipelineError::DeviceUnavailable.message().as_str(),
        "no input device available"
    );
}
