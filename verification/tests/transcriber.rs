//! Audio data, and the text made of recognised segments.

use rustler::whisper::transcript::{concat_segments, is_too_short, transcript_text, MIN_AUDIO_SAMPLES};

#[test]
fn test_audio_sample_format() {
    // Whisper expects f32 samples
    let samples: Vec<f32> = vec![0.0, 0.5, -0.5, 1.0, -1.0];
    assert_eq!(samples.len(), 5);

    // Samples should be in range [-1.0, 1.0] for normalized audio
    for sample in &samples {
        assert!(*sample >= -1.0 && *sample <= 1.0);
    }
}

#[test]
fn test_empty_audio_data() {
    let empty_samples: Vec<f32> = vec![];
    assert!(empty_samples.is_empty());
}

#[test]
fn test_silence_audio_data() {
    // Silence is represented as zeros
    let silence: Vec<f32> = vec![0.0; 16000]; // 1 second at 16kHz
    assert_eq!(silence.len(), 16000);
    assert!(silence.iter().all(|&s| s == 0.0));
}

#[test]
fn test_generate_sine_wave() {
    // Helper to generate test audio (440Hz sine wave)
    let sample_rate = 16000.0;
    let frequency = 440.0;
    let duration_secs = 0.1;
    let num_samples = (sample_rate * duration_secs) as usize;

    let samples: Vec<f32> = (0..num_samples)
        .map(|i| {
            let t = i as f32 / sample_rate;
            (2.0 * std::f32::consts::PI * frequency * t).sin()
        })
        .collect();

    assert_eq!(samples.len(), 1600);
    // Sine wave values should be in [-1, 1]
    for sample in &samples {
        assert!(*sample >= -1.0 && *sample <= 1.0);
    }
}

#[test]
fn test_trim_whitespace() {
    let result = "  Hello World  ".trim().to_string();
    assert_eq!(result, "Hello World");
}

#[test]
fn test_concatenate_segments() {
    let segments = vec!["Hello", "World", "Test"];
    let mut result = String::new();

    for (i, segment) in segments.iter().enumerate() {
        result.push_str(segment);
        if i < segments.len() - 1 {
            result.push(' ');
        }
    }

    assert_eq!(result, "Hello World Test");
    let owned: Vec<Option<String>> = segments.iter().map(|s| Some(s.to_string())).collect();
    assert_eq!(concat_segments(&owned), result);
}

#[test]
fn test_empty_segments() {
    let segments: Vec<&str> = vec![];
    let result: String = segments.join(" ").trim().to_string();
    assert!(result.is_empty());
}

#[test]
fn no_segments_give_an_empty_transcript() {
    assert_eq!(concat_segments(&vec![]), "");
    assert_eq!(transcript_text(&vec![]), "");
}

#[test]
fn space_follows_every_readable_segment_but_the_last() {
    let segments = vec![Some("Hello".to_string()), Some("World".to_string())];
    assert_eq!(concat_segments(&segments), "Hello World");

    // An unreadable segment adds nothing, not even its space.
    let segments = vec![Some("Hello".to_string()), None, Some("World".to_string())];
    assert_eq!(concat_segments(&segments), "Hello World");

    // The space after a readable segment stays where the last one is unreadable.
    let segments = vec![Some("Hello".to_string()), None];
    assert_eq!(concat_segments(&segments), "Hello ");
}

#[test]
fn transcript_is_trimmed_at_both_ends() {
    let segments = vec![Some("  Hello".to_string()), Some("World \n".to_string())];
    assert_eq!(concat_segments(&segments), "  Hello World \n");
    assert_eq!(transcript_text(&segments), "Hello World");

    let segments = vec![Some(" Hello".to_string()), None];
    assert_eq!(transcript_text(&segments), "Hello");
    assert_eq!(transcript_text(&vec![Some("   ".to_string())]), "");
}

#[test]
fn quarter_of_a_second_is_long_enough() {
    assert_eq!(MIN_AUDIO_SAMPLES, 4000);
    assert!(is_too_short(0));
    assert!(is_too_short(3999));
    assert!(!is_too_short(4000));
    assert!(!is_too_short(16000));
}
