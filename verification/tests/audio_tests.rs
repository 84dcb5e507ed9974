use linux_audio_transcriptor::audio::{
    convert_system_capture, decode_s16le, encode_s16le, find_monitor_device, is_monitor_device_name,
    mix_to_mono, resample_audio, stereo_to_mono, sum_of_squares,
    take_every_third, AudioSource, ChunkAccumulator, CHUNK_SIZE,
};
use linux_audio_transcriptor::vad::{LevelWindow, VadState, SILENCE_SAMPLES};

#[test]
fn audio_source_labels() {
    assert_eq!(AudioSource::Microphone.display_name(), "Mic");
    assert_eq!(AudioSource::System.display_name(), "System");
}

#[test]
fn resample_same_rate_is_a_copy() {
    let s = vec![1i16, -2, 3];
    assert_eq!(resample_audio(&s, 16000, 16000), Some(s.clone()));
    assert_eq!(resample_audio(&s, 0, 0), Some(s));
}

#[test]
fn resample_of_no_samples_is_empty() {
    assert_eq!(resample_audio(&[], 48000, 16000), Some(Vec::new()));
    assert_eq!(resample_audio(&[], 11025, 48000), Some(Vec::new()));
}

#[test]
fn resample_between_unequal_rates_needs_interpolation() {
    let s: Vec<i16> = (0..147).collect();
    assert_eq!(resample_audio(&s, 11025, 48000), None);
    assert_eq!(resample_audio(&s, 44100, 16000), None);
    assert_eq!(resample_audio(&[5], 16000, 0), None);
}

#[test]
fn mix_to_mono_averages_frames() {
    assert_eq!(mix_to_mono(&[1, 3, -1, -2, 5], 2), vec![2, -1, 2]);
    assert_eq!(mix_to_mono(&[7, -7, 9], 1), vec![7, -7, 9]);
    assert_eq!(mix_to_mono(&[32767, 32767, -32768, -32768], 2), vec![32767, -32768]);
}

#[test]
fn mix_to_mono_of_identical_channels() {
    assert_eq!(mix_to_mono(&[5, 5, 5, -9, -9, -9], 3), vec![5, -9]);
}

#[test]
fn decode_s16le_reads_pairs() {
    let bytes = [0x01u8, 0x00, 0xff, 0xff, 0x00, 0x80, 0x7f];
    assert_eq!(decode_s16le(&bytes, 0, bytes.len()), vec![1, -1, -32768]);
    assert_eq!(decode_s16le(&bytes, 2, 6), vec![-1, -32768]);
}

#[test]
fn encode_s16le_writes_pairs() {
    assert_eq!(encode_s16le(&[1, -1, -32768, 32767]), vec![1, 0, 255, 255, 0, 128, 255, 127]);
}

#[test]
fn decode_encode_roundtrip() {
    let s = vec![0i16, 1, -1, 255, 256, -256, 12345, -32768, 32767];
    let bytes = encode_s16le(&s);
    assert_eq!(decode_s16le(&bytes, 0, bytes.len()), s);
}

#[test]
fn stereo_to_mono_halves_pairs() {
    assert_eq!(stereo_to_mono(&[10, 20, -3, -4, 7]), vec![15, -3, 7]);
}

#[test]
fn stereo_of_equal_channels_is_the_channel() {
    assert_eq!(stereo_to_mono(&[4, 4, -8, -8, 32767, 32767]), vec![4, -8, 32767]);
}

#[test]
fn take_every_third_keeps_first_of_each_three() {
    assert_eq!(take_every_third(&[0, 1, 2, 3, 4, 5, 6]), vec![0, 3, 6]);
    assert_eq!(take_every_third(&[]), Vec::<i16>::new());
}

#[test]
fn convert_system_capture_uses_valid_region() {
    let samples: Vec<i16> = vec![10, 20, 30, 40, 50, 60, 70, 80, 90, 100, 110, 120];
    let mut raw = vec![0xaau8, 0xbb];
    raw.extend(encode_s16le(&samples));
    // Valid region: the 24 bytes after the two garbage bytes.
    assert_eq!(convert_system_capture(&raw, 2, 24), vec![15, 75]);
    // An empty or oversized chunk means the whole buffer is used.
    let whole = encode_s16le(&samples);
    assert_eq!(convert_system_capture(&whole, 0, 0), vec![15, 75]);
    assert_eq!(convert_system_capture(&whole, 10, 100), vec![15, 75]);
}

#[test]
fn sum_of_squares_adds_energy() {
    assert_eq!(sum_of_squares(&[3, -4]), 25);
    assert_eq!(sum_of_squares(&[-32768]), 1073741824);
    assert_eq!(sum_of_squares(&[]), 0);
}

#[test]
fn chunk_accumulator_hands_out_full_chunks() {
    let mut acc = ChunkAccumulator::new();
    let first: Vec<i16> = (0..1000).map(|x| x as i16).collect();
    assert!(acc.push_samples(&first).is_empty());
    assert_eq!(acc.pending_len(), 1000);
    let second: Vec<i16> = (1000..3500).map(|x| x as i16).collect();
    let chunks = acc.push_samples(&second);
    assert_eq!(chunks.len(), 2);
    assert_eq!(chunks[0].len(), CHUNK_SIZE);
    assert_eq!(chunks[1].len(), CHUNK_SIZE);
    assert_eq!(acc.pending_len(), 300);
    let mut all: Vec<i16> = chunks.concat();
    assert_eq!(all, (0..3200).map(|x| x as i16).collect::<Vec<_>>());
    let rest = acc.push_samples(&[0; 1300]);
    assert_eq!(rest.len(), 1);
    all.extend(rest.concat());
    assert_eq!(&all[..3500], &(0..3500).map(|x| x as i16).collect::<Vec<_>>()[..]);
    assert_eq!(acc.pending_len(), 0);
}

#[test]
fn monitor_devices_are_recognized() {
    assert!(is_monitor_device_name("Monitor of Built-in Audio"));
    assert!(is_monitor_device_name("alsa_output.MONITOR"));
    assert!(!is_monitor_device_name("Built-in Microphone"));
    assert!(!is_monitor_device_name("monito"));
    let names = vec![
        Some("Built-in Microphone".to_string()),
        None,
        Some("Monitor of Speakers".to_string()),
        Some("Another monitor".to_string()),
    ];
    assert_eq!(find_monitor_device(&names), Some(2));
    assert_eq!(find_monitor_device(&vec![Some("USB Mic".to_string()), None]), None);
}

#[test]
fn vad_finalizes_after_enough_silence() {
    let mut vad = VadState::new();
    assert_eq!(vad.current_segment_id, -1);
    assert!(!vad.observe(false, 16000));
    assert!(!vad.in_speech);
    assert_eq!(vad.silence_samples, 0);
    assert!(!vad.observe(true, 1600));
    assert!(vad.in_speech);
    assert!(!vad.observe(false, 6400));
    assert_eq!(vad.silence_samples, 6400);
    assert!(!vad.observe(false, 6399));
    assert_eq!(vad.silence_samples, 12799);
    assert!(vad.observe(false, 1));
    assert!(!vad.in_speech);
    assert_eq!(vad.silence_samples, 0);
    assert_eq!(SILENCE_SAMPLES, 12800);
}

#[test]
fn vad_speech_restarts_silence() {
    let mut vad = VadState::new();
    vad.observe(true, 100);
    vad.observe(false, 12000);
    assert!(!vad.observe(true, 100));
    assert_eq!(vad.silence_samples, 0);
    assert!(!vad.observe(false, 12000));
}

#[test]
fn level_window_keeps_latest_ten() {
    let mut w: LevelWindow<f32> = LevelWindow::new();
    for i in 0..12 {
        w.push(i as f32);
    }
    assert_eq!(w.levels().len(), 10);
    assert_eq!(w.levels()[0], 2.0);
    assert_eq!(w.levels()[9], 11.0);
    w.clear();
    assert!(w.levels().is_empty());
}
