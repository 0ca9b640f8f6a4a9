use voice_ambient::ambient::{
    age_secs, db_label, gauge_color, gauge_percent, rec_indicator, save_label, stats_label,
    transcript_color, visible_start, AmbientApp, KeyOutcome, Update, LEVEL_HISTORY_LEN,
    MAX_UTTERANCES, NANOS_PER_SEC,
};
use voice_ambient::cli::{
    ambient_args, ambient_model_name, copied_message, get_arg, has_flag, plan_delivery, Args,
    Delivery,
};
use voice_ambient::keys::{KeyCode, KeyInput, MOD_CONTROL, MOD_SHIFT};
use voice_ambient::mode::Mode;
use voice_ambient::theme::{theme_at, Color};

fn app() -> AmbientApp {
    AmbientApp::new(None, Some("/t/2026.txt".to_string()), 0, 1_000)
}

#[test]
fn new_app() {
    let a = app();
    assert_eq!(a.level_history, vec![0u64; LEVEL_HISTORY_LEN]);
    assert_eq!(a.status_msg, "Initializing...");
    assert!(a.blink);
    assert_eq!(a.theme().name, "Cyan");
}

#[test]
fn level_history_keeps_latest_hundred() {
    let mut a = app();
    for l in 1..=150u64 {
        a.push_level(l);
    }
    assert_eq!(a.level_history.len(), LEVEL_HISTORY_LEN);
    assert_eq!(a.level_history[0], 51);
    assert_eq!(*a.level_history.last().unwrap(), 150);
    assert_eq!(a.current_level, 150);
}

#[test]
fn utterances_are_counted_and_capped() {
    let mut a = app();
    for i in 0..(MAX_UTTERANCES + 3) {
        a.push_utterance(
            "2026-05-01T14:32:01.000+00:00".to_string(),
            format!("utterance number {}", i),
            i as u64,
        );
    }
    assert_eq!(a.utterances.len(), MAX_UTTERANCES);
    assert_eq!(a.utt_count, (MAX_UTTERANCES + 3) as u64);
    assert_eq!(a.word_count, 3 * (MAX_UTTERANCES + 3) as u64);
    assert_eq!(a.utterances[0].text, "utterance number 3");
    assert_eq!(a.utterances.back().unwrap().timestamp, "14:32:01");
}

#[test]
fn updates() {
    let mut a = app();
    assert!(!a.apply_update(Update::Status("Recording".to_string()), 0));
    assert_eq!(a.status_msg, "Recording");
    assert!(!a.apply_update(Update::Level(42), 0));
    assert_eq!(a.level_history[99], 42);
    assert!(!a.apply_update(Update::Utterance { ts: "x".to_string(), text: "hi there".to_string() }, 0));
    assert_eq!(a.word_count, 2);
    assert!(a.apply_update(Update::Quit, 0));
}

#[test]
fn elapsed_and_blink() {
    let mut a = app();
    assert_eq!(a.elapsed_str(1_000 + 3_725 * NANOS_PER_SEC), "01:02:05");
    assert_eq!(a.elapsed_str(1_000 + 360_000 * NANOS_PER_SEC), "100:00:00");
    assert_eq!(a.elapsed_str(0), "00:00:00");
    a.tick_blink(1_000 + 500_000_000);
    assert!(a.blink);
    a.tick_blink(1_001 + 500_000_000);
    assert!(!a.blink);
}

#[test]
fn keys() {
    let mut a = app();
    let k = |code, modifiers| KeyInput { code, modifiers };
    assert_eq!(a.handle_key(k(KeyCode::Char('t'), 0)), KeyOutcome::ThemeChanged(1));
    assert_eq!(a.theme_idx, 1);
    assert_eq!(a.handle_key(k(KeyCode::Char('c'), MOD_CONTROL)), KeyOutcome::Quit);
    assert_eq!(a.handle_key(k(KeyCode::Char('c'), MOD_CONTROL | MOD_SHIFT)), KeyOutcome::Ignored);
    assert_eq!(a.handle_key(k(KeyCode::Char('q'), 0)), KeyOutcome::Quit);
    assert_eq!(a.handle_key(k(KeyCode::Esc, 0)), KeyOutcome::Quit);
    assert_eq!(a.handle_key(k(KeyCode::Char('x'), 0)), KeyOutcome::Ignored);
}

#[test]
fn display_helpers() {
    assert_eq!(gauge_percent(250), 100);
    assert_eq!(gauge_percent(7), 7);
    assert_eq!(gauge_color(76), Color::Red);
    assert_eq!(gauge_color(75), Color::Yellow);
    assert_eq!(gauge_color(40), Color::Green);
    let t = theme_at(0);
    assert_eq!(transcript_color(&t, 4), t.primary);
    assert_eq!(transcript_color(&t, 5), t.text);
    assert_eq!(transcript_color(&t, 59), Color::Gray);
    assert_eq!(transcript_color(&t, 60), t.dim);
    assert_eq!(age_secs(0, 2_500_000_000), 2);
    assert_eq!(age_secs(10, 0), 0);
    assert_eq!(visible_start(10, 6), 6);
    assert_eq!(visible_start(3, 6), 0);
    assert_eq!(visible_start(3, 1), 3);
    assert_eq!(rec_indicator(true, &t), ("● REC", t.rec_on));
    assert_eq!(db_label(None), "DB: off  ");
    assert_eq!(db_label(Some("/x.db")), "DB: /x.db  ");
    assert_eq!(save_label(Some("/a/b/2026-05-01_10-00-00.txt")), "SAVE: 2026-05-01_10-00-00.txt  ");
    assert_eq!(save_label(Some("/")), "SAVE: /  ");
    assert_eq!(save_label(None), "SAVE: off  ");
    assert_eq!(stats_label(47, 8), "words: 47  utt: 8");
}

#[test]
fn arguments() {
    let args: Vec<String> = ["voice-ambient", "--db", "/x.db", "--no-save", "--model"]
        .iter()
        .map(|s| s.to_string())
        .collect();
    assert_eq!(get_arg(&args, "--db"), Some("/x.db".to_string()));
    assert_eq!(get_arg(&args, "--model"), None);
    assert!(has_flag(&args, "--no-save"));
    assert!(!has_flag(&args, "--save"));
    assert_eq!(ambient_model_name(None, Some("medium".to_string())), "medium");
    assert_eq!(ambient_model_name(Some("small".to_string()), Some("medium".to_string())), "small");
    assert_eq!(ambient_model_name(None, None), "large-v3");
}

#[test]
fn push_to_talk_decisions() {
    let a = Args {
        mode: Mode::Ambient,
        model: "medium".to_string(),
        model_path: None,
        submit: false,
        no_save: true,
        db: Some("/d.db".to_string()),
    };
    assert_eq!(a.resolved_model_path("/h"), "/h/.cache/whisper/ggml-medium.bin");
    assert_eq!(
        ambient_args(&a, "/h"),
        vec!["--model", "medium", "--model-path", "/h/.cache/whisper/ggml-medium.bin", "--db", "/d.db", "--no-save"]
    );
    let b = Args { model_path: Some("/m.bin".to_string()), no_save: false, db: None, ..a };
    assert_eq!(b.resolved_model_path("/h"), "/m.bin");
    assert_eq!(ambient_args(&b, "/h"), vec!["--model", "medium", "--model-path", "/m.bin"]);

    assert!(matches!(plan_delivery(Mode::Print, false, None), Delivery::NoTranscription));
    assert!(matches!(plan_delivery(Mode::Clip, false, Some("  ".to_string())), Delivery::NoTranscription));
    match plan_delivery(Mode::Type, true, Some(" hello ".to_string())) {
        Delivery::Type { text, submit } => {
            assert_eq!(text, "hello");
            assert!(submit);
        }
        _ => panic!("expected typing"),
    }
    match plan_delivery(Mode::Print, false, Some("x\n".to_string())) {
        Delivery::Print(t) => assert_eq!(t, "x"),
        _ => panic!("expected printing"),
    }
    assert_eq!(copied_message("héllo"), "Copied 6 chars to clipboard");
}

#[test]
fn updates_change_only_their_fields() {
    let mut a = app();
    a.apply_update(Update::Utterance { ts: "2026-05-01T09:08:07+00:00".to_string(), text: "one two".to_string() }, 77);
    assert_eq!(a.utterances.len(), 1);
    let u = a.utterances.back().unwrap();
    assert_eq!((u.timestamp.as_str(), u.text.as_str(), u.born_ns), ("09:08:07", "one two", 77));
    assert_eq!(a.status_msg, "Initializing...");
    a.apply_update(Update::Level(5), 0);
    assert_eq!(a.utterances.len(), 1);
    assert_eq!(a.current_level, 5);
}
