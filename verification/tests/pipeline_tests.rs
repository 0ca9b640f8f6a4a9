use voice_ambient::audio::{sum_of_squares, AudioAccumulator, CHUNK_SAMPLES, LEVEL_INTERVAL_NS};
use voice_ambient::clock::{display_time, new_transcript_path, stamp_utterance, utterance_record};
use voice_ambient::device::{find_device_containing, find_device_named};
use voice_ambient::whisper::{
    default_model_path, gpu_devices, gpu_disabled, join_segments, parse_free_vram, GpuLoader,
    LoadAction, LoadStage, MIN_VRAM_MB,
};

#[test]
fn model_paths() {
    assert_eq!(default_model_path("/home/u", "large-v3"), "/home/u/.cache/whisper/ggml-large-v3.bin");
    assert_eq!(default_model_path("", "medium"), "/.cache/whisper/ggml-medium.bin");
}

#[test]
fn vram_output() {
    assert_eq!(parse_free_vram("10240\n"), Some(10240));
    assert_eq!(parse_free_vram("  512 "), Some(512));
    assert_eq!(parse_free_vram("N/A"), None);
    assert_eq!(parse_free_vram(""), None);
}

#[test]
fn gpu_variables() {
    assert!(gpu_disabled(Some("1")));
    assert!(gpu_disabled(Some("TRUE")));
    assert!(!gpu_disabled(Some("0")));
    assert!(!gpu_disabled(Some(" 1")));
    assert!(!gpu_disabled(None));
    assert_eq!(gpu_devices(None), vec![1, 0]);
    assert_eq!(gpu_devices(Some("3")), vec![3]);
    assert_eq!(gpu_devices(Some("-2")), vec![-2]);
    assert_eq!(gpu_devices(Some("gpu")), vec![1, 0]);
}

#[test]
fn loader_tries_gpus_in_order_then_cpu() {
    let mut l = GpuLoader::new(None, None);
    assert_eq!(l.start(), LoadAction::QueryVram(1));
    assert_eq!(l.on_vram(Some(MIN_VRAM_MB - 1)), LoadAction::QueryVram(0));
    assert_eq!(l.on_vram(Some(MIN_VRAM_MB)), LoadAction::LoadGpu(0));
    assert_eq!(l.on_load(false), LoadAction::LoadCpu);
    assert_eq!(l.stage, LoadStage::Finished);

    let mut m = GpuLoader::new(None, Some("1"));
    assert_eq!(m.start(), LoadAction::QueryVram(1));
    assert_eq!(m.on_vram(Some(24000)), LoadAction::LoadGpu(1));
    assert_eq!(m.on_load(true), LoadAction::UseGpu(1));

    let mut n = GpuLoader::new(None, None);
    n.start();
    assert_eq!(n.on_vram(None), LoadAction::QueryVram(0));
    assert_eq!(n.on_vram(None), LoadAction::LoadCpu);

    let mut c = GpuLoader::new(Some("true"), None);
    assert_eq!(c.start(), LoadAction::LoadCpu);
}

#[test]
fn segments_join() {
    let segs = vec![" Hello".to_string(), "   ".to_string(), "world. ".to_string()];
    assert_eq!(join_segments(&segs), Some("Hello world.".to_string()));
    assert_eq!(join_segments(&vec![" ".to_string()]), None);
    assert_eq!(join_segments(&Vec::new()), None);
}

#[test]
fn timestamps_and_records() {
    assert_eq!(display_time("2026-05-01T14:32:08.5+00:00"), "14:32:08");
    assert_eq!(display_time("14:32"), "14:32");
    let r = utterance_record("2026-05-01T14:32:08+00:00".to_string(), "i think we should".to_string());
    assert_eq!(r.line, "[14:32:08] i think we should");
    assert_eq!(r.word_count, 4);
    let s = stamp_utterance("hello world".to_string());
    assert_eq!(s.word_count, 2);
    assert_eq!(s.text, "hello world");
    assert!(s.line.ends_with("] hello world"));
    let (dir, path) = new_transcript_path("/home/u");
    assert_eq!(dir, "/home/u/.local/share/voice-input/transcripts");
    assert!(path.starts_with("/home/u/.local/share/voice-input/transcripts/"));
    assert!(path.ends_with(".txt"));
}

#[test]
fn device_choice() {
    let names = vec![
        Some("default".to_string()),
        None,
        Some("PipeWire Sound Server".to_string()),
        Some("pipewire".to_string()),
    ];
    assert_eq!(find_device_named(&names, "pipewire"), Some(3));
    assert_eq!(find_device_containing(&names, "pipewire"), Some(2));
    assert_eq!(find_device_containing(&names, "UC03"), None);
    assert_eq!(find_device_named(&names, "UC03"), None);
}

#[test]
fn accumulator_hands_out_five_second_windows() {
    let mut acc = AudioAccumulator::new(0);
    let first: Vec<i16> = (0..100_000).map(|i| (i % 1000) as i16).collect();
    let f1 = acc.feed(&first, 50_000_000);
    assert!(!f1.send_level);
    assert!(f1.chunks.is_empty());
    let second: Vec<i16> = (0..250_000).map(|i| (i % 7) as i16 - 3).collect();
    let f2 = acc.feed(&second, LEVEL_INTERVAL_NS);
    assert!(f2.send_level);
    assert_eq!(acc.level_last_ns, LEVEL_INTERVAL_NS);
    assert_eq!(f2.chunks.len(), 2);
    assert!(f2.chunks.iter().all(|c| c.len() == CHUNK_SAMPLES));
    let mut all = first.clone();
    all.extend_from_slice(&second);
    let mut out: Vec<i16> = f2.chunks.concat();
    out.extend_from_slice(&acc.buf);
    assert_eq!(out, all);
    assert_eq!(acc.buf.len(), 350_000 - 2 * CHUNK_SAMPLES);
    let f3 = acc.feed(&[], 10 * LEVEL_INTERVAL_NS);
    assert!(!f3.send_level);
}

#[test]
fn squares() {
    assert_eq!(sum_of_squares(&[]), 0);
    assert_eq!(sum_of_squares(&[3, -4]), 25);
    assert_eq!(sum_of_squares(&[i16::MIN, i16::MIN]), 2 * 32768u128 * 32768);
}

#[test]
fn session_time_is_utc_rfc3339() {
    let t = voice_ambient::clock::session_time();
    assert!(t.is_ascii());
    assert!(t.len() >= 25);
    assert!(t.ends_with("+00:00"));
    assert_eq!(&t[10..11], "T");
    let s = stamp_utterance("x".to_string());
    assert!(s.ts.ends_with("+00:00"));
}

#[test]
fn stamped_line_and_file_stamp() {
    let s = stamp_utterance("hello there".to_string());
    assert_eq!(s.line, format!("[{}] hello there", &s.ts[11..19]));
    let (_, path) = new_transcript_path("/h");
    let stamp = &path["/h/.local/share/voice-input/transcripts/".len()..path.len() - 4];
    assert_eq!(stamp.len(), 19);
    let b = stamp.as_bytes();
    for (i, c) in b.iter().enumerate() {
        match i {
            4 | 7 | 13 | 16 => assert_eq!(*c, b'-'),
            10 => assert_eq!(*c, b'_'),
            _ => assert!(c.is_ascii_digit()),
        }
    }
}
