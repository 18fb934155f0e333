use speakin::audio::{
    capture_format, clean_device_name, device_list, measure_window_ms, pcm_le_bytes, to_mono,
    vad_config_values, CaptureFormat, VadGate,
};

#[test]
fn mono_mix_averages_each_frame() {
    assert_eq!(to_mono(&[1, 2, 3], 1), vec![1, 2, 3]);
    assert_eq!(to_mono(&[10, 20, -7, -8], 2), vec![15, -7]);
    // A short last frame is still divided by the channel count.
    assert_eq!(to_mono(&[30000, 30000, 5], 2), vec![30000, 2]);
    assert_eq!(to_mono(&[-32768, -32768, -32767], 3), vec![-32767]);
    assert_eq!(to_mono(&[], 2), Vec::<i16>::new());
}

#[test]
fn vad_gate_sends_speech_tail_and_first_second() {
    let mut g = VadGate::new();
    // Before speech: the first 49 silent frames go out, the 50th does not.
    for _ in 0..49 {
        assert!(g.step(false));
    }
    assert!(!g.step(false));
    assert!(g.step(true));
    // Ten frames of trailing audio after speech.
    for _ in 0..10 {
        assert!(g.step(false));
    }
    assert!(!g.step(false));
    assert_eq!(g.silent_chunks, 11);
}

#[test]
fn audio_helpers() {
    assert_eq!(vad_config_values(0, 100), (1, 60));
    assert_eq!(vad_config_values(7, 6), (7, 6));
    assert_eq!(pcm_le_bytes(&[1, -2, 256]), vec![1, 0, 254, 255, 0, 1]);
    assert_eq!(capture_format(true, true, 32), CaptureFormat::Silence);
    assert_eq!(capture_format(false, true, 32), CaptureFormat::Float32);
    assert_eq!(capture_format(false, false, 16), CaptureFormat::Pcm16);
    assert_eq!(capture_format(false, false, 24), CaptureFormat::Unsupported);
    assert_eq!(measure_window_ms(None), 3000);
    assert_eq!(measure_window_ms(Some(50000)), 10000);
    assert_eq!(measure_window_ms(Some(1200)), 1200);
}

#[test]
fn device_names() {
    let names = vec!["Mic A".to_string(), "Mic B".to_string(), "Mic".to_string()];
    assert_eq!(
        device_list(Some("Mic A".to_string()), &names),
        vec!["Mic A (默认)".to_string(), "Mic B".to_string()]
    );
    assert_eq!(device_list(None, &names[1..2]), vec!["Mic B".to_string()]);
    assert_eq!(clean_device_name("Mic A (默认)"), "Mic A");
}
