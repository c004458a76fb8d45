use commander::endpoint::collect_segments;
use commander::text::{is_white_space_char, trim_text};
use commander::resample::resample_linear;
use commander::transcribe::{
    full_scale_for_bits, int_frame_sums, prepare_wav, PreparedAudio, TranscribeError,
    ENGINE_SAMPLE_RATE_HZ,
};

fn wav_bytes(channels: u16, rate: u32, bits: u16, samples: &[i32]) -> Vec<u8> {
    let spec = hound::WavSpec { channels, sample_rate: rate, bits_per_sample: bits, sample_format: hound::SampleFormat::Int };
    let mut cursor = std::io::Cursor::new(Vec::new());
    {
        let mut w = hound::WavWriter::new(&mut cursor, spec).unwrap();
        for s in samples {
            if bits == 16 {
                w.write_sample(*s as i16).unwrap();
            } else {
                w.write_sample(*s).unwrap();
            }
        }
        w.finalize().unwrap();
    }
    cursor.into_inner()
}

#[test]
fn equal_rates_give_the_input_back() {
    let input: Vec<i64> = vec![5, -7, 9, 0, 32767];
    let r = resample_linear(&input, 16000, 16000);
    assert_eq!(r.scale, 1);
    assert_eq!(r.samples, vec![5i128, -7, 9, 0, 32767]);
}

#[test]
fn empty_input_resamples_to_empty() {
    let r = resample_linear(&Vec::new(), 44100, 16000);
    assert!(r.samples.is_empty());
    assert_eq!(r.scale, 1);
}

#[test]
fn resampled_length_is_rounded_ratio() {
    let input: Vec<i64> = vec![0; 441];
    assert_eq!(resample_linear(&input, 44100, 16000).samples.len(), 160);
    let input: Vec<i64> = vec![0; 3];
    // 3 * 16000 / 48000 = 1
    assert_eq!(resample_linear(&input, 48000, 16000).samples.len(), 1);
    let input: Vec<i64> = vec![0; 1];
    // 1 * 16000 / 32000 = 0.5, rounded up
    assert_eq!(resample_linear(&input, 32000, 16000).samples.len(), 1);
    let input: Vec<i64> = vec![0; 10];
    assert_eq!(resample_linear(&input, 8000, 16000).samples.len(), 20);
}

#[test]
fn upsampling_interpolates_linearly() {
    let r = resample_linear(&vec![0, 100, 200], 8000, 16000);
    assert_eq!(r.scale, 16000);
    let values: Vec<f64> = r.samples.iter().map(|v| *v as f64 / r.scale as f64).collect();
    assert_eq!(values, vec![0.0, 50.0, 100.0, 150.0, 200.0, 200.0]);
}

#[test]
fn downsampling_picks_bracketing_samples() {
    let r = resample_linear(&vec![10, 20, 30, 40], 32000, 16000);
    let values: Vec<i128> = r.samples.iter().map(|v| *v / r.scale as i128).collect();
    assert_eq!(values, vec![10, 30]);
}

#[test]
fn one_second_of_silence_prepares_to_16000_zeros() {
    let bytes = wav_bytes(1, 16000, 16, &vec![0; 16000]);
    match prepare_wav(&bytes) {
        Ok(PreparedAudio::Int(m)) => {
            assert_eq!(m.samples.len(), 16000);
            assert!(m.samples.iter().all(|v| *v == 0));
            assert_eq!(m.denominator, 32767);
        }
        _ => panic!("expected integer audio"),
    }
}

#[test]
fn stereo_44k_is_mixed_and_resampled() {
    let mut samples = Vec::new();
    for _ in 0..441 {
        samples.push(32767);
        samples.push(32767);
    }
    let bytes = wav_bytes(2, 44100, 16, &samples);
    match prepare_wav(&bytes) {
        Ok(PreparedAudio::Int(m)) => {
            assert_eq!(m.samples.len(), 160);
            assert_eq!(m.denominator, 2 * 32767 * ENGINE_SAMPLE_RATE_HZ as u128);
            for v in &m.samples {
                assert_eq!(*v as f64 / m.denominator as f64, 1.0);
            }
        }
        _ => panic!("expected integer audio"),
    }
}

#[test]
fn deep_samples_use_the_32_bit_scale() {
    assert_eq!(full_scale_for_bits(8), 32767);
    assert_eq!(full_scale_for_bits(16), 32767);
    assert_eq!(full_scale_for_bits(24), 2147483647);
    let bytes = wav_bytes(1, 16000, 32, &[i32::MAX, -5]);
    match prepare_wav(&bytes) {
        Ok(PreparedAudio::Int(m)) => {
            assert_eq!(m.samples, vec![i32::MAX as i128, -5]);
            assert_eq!(m.denominator, 2147483647);
        }
        _ => panic!("expected integer audio"),
    }
}

#[test]
fn float_wav_keeps_its_header() {
    let spec = hound::WavSpec { channels: 1, sample_rate: 22050, bits_per_sample: 32, sample_format: hound::SampleFormat::Float };
    let mut cursor = std::io::Cursor::new(Vec::new());
    {
        let mut w = hound::WavWriter::new(&mut cursor, spec).unwrap();
        w.write_sample(0.5f32).unwrap();
        w.finalize().unwrap();
    }
    match prepare_wav(&cursor.into_inner()) {
        Ok(PreparedAudio::Float(h)) => {
            assert_eq!(h.channels, 1);
            assert_eq!(h.sample_rate, 22050);
            assert!(h.is_float);
        }
        _ => panic!("expected float audio"),
    }
}

#[test]
fn garbage_is_invalid_audio() {
    assert!(matches!(prepare_wav(b"not a wav file"), Err(TranscribeError::InvalidAudioFormat)));
    assert!(matches!(prepare_wav(&[]), Err(TranscribeError::InvalidAudioFormat)));
}

#[test]
fn truncated_data_is_invalid_audio() {
    let mut bytes = wav_bytes(1, 16000, 16, &[1, 2, 3, 4]);
    bytes.truncate(bytes.len() - 3);
    assert!(matches!(prepare_wav(&bytes), Err(TranscribeError::InvalidAudioFormat)));
}

#[test]
fn error_messages_are_not_empty() {
    assert_eq!(TranscribeError::InvalidAudioFormat.message(), "invalid WAV data");
    assert_eq!(TranscribeError::InferenceFailure.message(), "whisper inference failed");
}

#[test]
fn int_frames_are_summed() {
    assert_eq!(int_frame_sums(&vec![1, 2, 3, 4, 5, 6], 3), vec![6, 15]);
    assert_eq!(int_frame_sums(&vec![i32::MIN, i32::MIN], 2), vec![2 * i32::MIN as i64]);
}

#[test]
fn segments_are_trimmed_and_joined() {
    let segs = vec![" Hello".to_string(), String::new(), "world. ".to_string(), "  Bye ".to_string()];
    assert_eq!(collect_segments(&segs), "Hello world. Bye");
    assert_eq!(collect_segments(&Vec::new()), "");
    assert_eq!(collect_segments(&vec![String::new(), " x ".to_string()]), "x");
}

#[test]
fn whitespace_only_segments_are_skipped() {
    assert_eq!(collect_segments(&vec!["a".to_string(), " ".to_string()]), "a");
    assert_eq!(collect_segments(&vec!["  ".to_string(), "b".to_string(), "\t\n".to_string(), "c".to_string()]), "b c");
}

#[test]
fn empty_input_needs_no_rates() {
    let r = resample_linear(&Vec::new(), 0, 0);
    assert!(r.samples.is_empty());
    assert!(commander::resample::resample_plan(0, 0, 16000).is_empty());
}

#[test]
fn trimming_follows_unicode_white_space() {
    assert_eq!(trim_text("\u{3000}\u{a0} x y\u{2028}\r\n"), "x y");
    assert_eq!(trim_text(" \t "), "");
    assert_eq!(trim_text("\u{200b}z"), "\u{200b}z");
    for s in ["  a b  ", "\u{85}q\u{205f}", "", "x", "\u{1680}\u{2000}"] {
        assert_eq!(trim_text(s), s.trim());
    }
    assert!(is_white_space_char('\u{202f}'));
    assert!(!is_white_space_char('a'));
}
