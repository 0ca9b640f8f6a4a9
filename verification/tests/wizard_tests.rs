use voice_ambient::keys::{KeyCode, KeyInput, MOD_CONTROL, MOD_SHIFT};
use voice_ambient::mode::Mode;
use voice_ambient::wizard::{
    advance_page, assemble_command, audio_check, binary_check, breadcrumb_label,
    build_option_items, copy_outcome_message, count_with_status, default_model_file,
    find_binary, gpu_check, handle_key, is_error_message, model_check, option_count,
    page_index, retreat_page, step_state, toggle_current_option, CheckResult, CheckStatus,
    Page, StepState, WizardAction, WizardApp,
};

fn key(code: KeyCode) -> KeyInput {
    KeyInput { code, modifiers: 0 }
}

fn app_at_options(mode_row: usize) -> WizardApp {
    let mut a = WizardApp::new(Vec::new());
    handle_key(&mut a, key(KeyCode::Enter));
    handle_key(&mut a, key(KeyCode::Right));
    for _ in 0..mode_row {
        handle_key(&mut a, key(KeyCode::Down));
    }
    handle_key(&mut a, key(KeyCode::Enter));
    a
}

#[test]
fn mode_names_and_option_counts() {
    assert_eq!(Mode::Type.as_str(), "type");
    assert_eq!(Mode::Print.as_str(), "print");
    assert_eq!(Mode::Clip.as_str(), "clip");
    assert_eq!(Mode::Ambient.as_str(), "ambient");
    assert_eq!(option_count(&Mode::Type), 2);
    assert_eq!(option_count(&Mode::Print), 1);
    assert_eq!(option_count(&Mode::Clip), 1);
    assert_eq!(option_count(&Mode::Ambient), 3);
}

#[test]
fn pages_forward_and_back() {
    let mut a = WizardApp::new(Vec::new());
    assert_eq!(a.page, Page::Welcome);
    retreat_page(&mut a);
    assert_eq!(a.page, Page::Welcome);
    advance_page(&mut a);
    assert_eq!(a.page, Page::SystemCheck);
    advance_page(&mut a);
    assert_eq!(a.page, Page::ModeSelect);
    a.mode_cursor = 2;
    advance_page(&mut a);
    assert_eq!(a.page, Page::Options);
    assert_eq!(a.selected_mode, Some(Mode::Clip));
    assert_eq!(a.opt_cursor, 0);
    retreat_page(&mut a);
    assert_eq!(a.page, Page::ModeSelect);
    advance_page(&mut a);
    advance_page(&mut a);
    assert_eq!(a.page, Page::Launch);
    assert!(!a.quit);
    advance_page(&mut a);
    assert!(a.quit);
}

#[test]
fn mode_cursor_is_clamped() {
    let mut a = WizardApp::new(Vec::new());
    handle_key(&mut a, key(KeyCode::Enter));
    handle_key(&mut a, key(KeyCode::Enter));
    handle_key(&mut a, key(KeyCode::Up));
    assert_eq!(a.mode_cursor, 0);
    for _ in 0..10 {
        handle_key(&mut a, key(KeyCode::Down));
    }
    assert_eq!(a.mode_cursor, 3);
    handle_key(&mut a, key(KeyCode::Enter));
    assert_eq!(a.selected_mode, Some(Mode::Ambient));
}

#[test]
fn option_cursor_is_clamped() {
    let mut a = app_at_options(0);
    assert_eq!(a.page, Page::Options);
    for _ in 0..5 {
        handle_key(&mut a, key(KeyCode::Down));
    }
    assert_eq!(a.opt_cursor, 1);
    let mut p = app_at_options(1);
    handle_key(&mut p, key(KeyCode::Down));
    assert_eq!(p.opt_cursor, 0);
}

#[test]
fn quit_keys() {
    let mut a = WizardApp::new(Vec::new());
    handle_key(&mut a, KeyInput { code: KeyCode::Char('c'), modifiers: MOD_CONTROL | MOD_SHIFT });
    assert!(a.quit);
    let mut b = WizardApp::new(Vec::new());
    handle_key(&mut b, key(KeyCode::Esc));
    assert!(b.quit);
    let mut c = WizardApp::new(Vec::new());
    handle_key(&mut c, key(KeyCode::Char('c')));
    assert!(!c.quit);
}

#[test]
fn launch_page_actions() {
    let mut a = app_at_options(1);
    handle_key(&mut a, key(KeyCode::Enter));
    assert_eq!(a.page, Page::Launch);
    assert_eq!(handle_key(&mut a, key(KeyCode::Char('c'))), WizardAction::Copy);
    assert_eq!(handle_key(&mut a, key(KeyCode::Char('l'))), WizardAction::Launch);
    assert_eq!(handle_key(&mut a, key(KeyCode::Enter)), WizardAction::Nothing);
    assert_eq!(a.page, Page::Launch);
    assert!(!a.quit);
    handle_key(&mut a, key(KeyCode::Left));
    assert_eq!(a.page, Page::Options);
}

#[test]
fn toggles() {
    let mut a = app_at_options(3);
    handle_key(&mut a, key(KeyCode::Char(' ')));
    assert!(a.opt_no_save);
    handle_key(&mut a, key(KeyCode::Char(' ')));
    assert!(!a.opt_no_save);
    handle_key(&mut a, key(KeyCode::Down));
    toggle_current_option(&mut a);
    assert!(a.opt_db_enabled);
    handle_key(&mut a, key(KeyCode::Down));
    for expected in [1, 2, 3, 4, 0] {
        toggle_current_option(&mut a);
        assert_eq!(a.opt_model_idx, expected);
    }
}

#[test]
fn commands() {
    let none = WizardApp::new(Vec::new());
    assert_eq!(assemble_command(&none, "/home/u"), "voice-input");

    let mut t = app_at_options(0);
    assert_eq!(assemble_command(&t, "/home/u"), "voice-input --mode type");
    toggle_current_option(&mut t);
    assert_eq!(assemble_command(&t, "/home/u"), "voice-input --mode type --submit");
    t.opt_cursor = 1;
    toggle_current_option(&mut t);
    toggle_current_option(&mut t);
    assert_eq!(assemble_command(&t, "/home/u"), "voice-input --mode type --model medium --submit");

    let mut amb = app_at_options(3);
    amb.opt_no_save = true;
    amb.opt_db_enabled = true;
    amb.opt_submit = true;
    assert_eq!(
        assemble_command(&amb, "/home/u"),
        "voice-input --mode ambient --no-save --db /home/u/.local/share/voice-input/sessions.db"
    );

    let mut p = app_at_options(1);
    p.opt_submit = true;
    p.opt_model_idx = 4;
    assert_eq!(assemble_command(&p, "/h"), "voice-input --mode print --model base");
}

#[test]
fn option_rows() {
    let a = app_at_options(0);
    let rows = build_option_items(&a, &Mode::Type);
    assert_eq!(rows.len(), 2);
    assert!(rows[0].focused && !rows[1].focused);
    assert_eq!(rows[0].text, format!("{}  {:<14}  {}", "▶ ", "--submit", "[ ] do not send Return"));
    assert_eq!(
        rows[1].text,
        format!(
            "{}  {:<14}  {}",
            "  ",
            "--model",
            "[large-v3]  Space to cycle: large-v3 → large-v2 → medium → small → base"
        )
    );
    let rows = build_option_items(&a, &Mode::Ambient);
    assert_eq!(rows.len(), 3);
    assert!(rows[0].text.ends_with("[ ] transcript auto-saved to ~/.local/share/voice-input/"));
}

#[test]
fn breadcrumb() {
    assert_eq!(page_index(Page::ModeSelect), 2);
    assert_eq!(step_state(2, Page::ModeSelect), StepState::Current);
    assert_eq!(step_state(0, Page::ModeSelect), StepState::Done);
    assert_eq!(step_state(4, Page::ModeSelect), StepState::Ahead);
    assert_eq!(breadcrumb_label(3), "4/5 Options");
}

#[test]
fn checks() {
    let g = gpu_check(false, false);
    assert_eq!(g.status, CheckStatus::Warn);
    assert_eq!(g.label, "GPU / CUDA");
    assert_eq!(gpu_check(true, false).detail, "/dev/nvidia0 present");
    assert_eq!(gpu_check(false, true).detail, "nvidia-smi reports GPU");
    assert_eq!(default_model_file("/home/u"), "/home/u/.cache/whisper/ggml-large-v3.bin");
    assert_eq!(default_model_file("/home/u/"), "/home/u/.cache/whisper/ggml-large-v3.bin");
    assert_eq!(default_model_file(""), ".cache/whisper/ggml-large-v3.bin");
    let m = model_check("/x/m.bin", false);
    assert_eq!((m.status, m.detail.as_str()), (CheckStatus::Fail, "not found: /x/m.bin"));
    let a = audio_check(Some("pipewire"), false);
    assert_eq!((a.status, a.detail.as_str()), (CheckStatus::Pass, "found: \"pipewire\""));
    assert_eq!(audio_check(None, true).status, CheckStatus::Warn);
    assert_eq!(audio_check(None, false).status, CheckStatus::Fail);
    assert_eq!(find_binary("voice-input", None, Some("/usr/bin/voice-input\n")), (CheckStatus::Pass, "/usr/bin/voice-input".to_string()));
    assert_eq!(find_binary("voice-input", None, None), (CheckStatus::Warn, "voice-input not found in PATH".to_string()));
    let b = binary_check("voice-ambient binary", "voice-ambient", Some("/opt/voice-ambient"), None);
    assert_eq!((b.status, b.detail.as_str()), (CheckStatus::Pass, "/opt/voice-ambient"));
    let list: Vec<CheckResult> = vec![g, m, a, b];
    assert_eq!(count_with_status(&list, CheckStatus::Pass), 2);
    assert_eq!(count_with_status(&list, CheckStatus::Warn), 1);
    assert_eq!(count_with_status(&list, CheckStatus::Fail), 1);
}

#[test]
fn launch_messages() {
    assert_eq!(copy_outcome_message(None), "Copied to clipboard!");
    let e = copy_outcome_message(Some("no display"));
    assert_eq!(e, "Clipboard error: no display");
    assert!(is_error_message(&e));
    assert!(!is_error_message("Copied to clipboard!"));
    assert!(is_error_message("launch failed"));
}

#[test]
fn command_without_mode_ignores_model() {
    let mut a = WizardApp::new(Vec::new());
    a.opt_model_idx = 99;
    assert_eq!(assemble_command(&a, "/h"), "voice-input");
}

#[test]
fn mode_list_rows() {
    let rows = voice_ambient::wizard::mode_rows(1);
    assert_eq!(rows.len(), 4);
    assert!(rows[1].selected && !rows[0].selected && !rows[2].selected && !rows[3].selected);
    assert_eq!(rows[1].text, format!("{}  {:<8}  —  ", "▶ ", "print  "));
    assert_eq!(rows[3].text, format!("{}  {:<8}  —  ", "  ", "ambient"));
    assert_eq!(rows[0].description, "record speech → transcribe → type into active window (X11)");
}

#[test]
fn check_rows_and_list() {
    let list = voice_ambient::wizard::assemble_checks(
        false, true, "/h/m.bin", true, None, true, Some("/bin/voice-input"), None, None, None,
    );
    assert_eq!(list.len(), 5);
    let labels: Vec<&str> = list.iter().map(|c| c.label).collect();
    assert_eq!(
        labels,
        vec!["GPU / CUDA", "Whisper model", "Audio device", "voice-input binary", "voice-ambient binary"]
    );
    assert_eq!(list[0].detail, "nvidia-smi reports GPU");
    assert_eq!(list[2].status, CheckStatus::Warn);
    assert_eq!(list[4].detail, "voice-ambient not found in PATH");
    let row = voice_ambient::wizard::check_row(&list[4]);
    assert_eq!(row.glyph, "  [!!] ");
    assert_eq!(row.color, voice_ambient::theme::Color::Yellow);
    assert_eq!(row.label, format!("{:<24}", "voice-ambient binary"));
    let ok = voice_ambient::wizard::check_row(&list[1]);
    assert_eq!((ok.glyph.as_str(), ok.color), ("  [OK] ", voice_ambient::theme::Color::Green));
}
