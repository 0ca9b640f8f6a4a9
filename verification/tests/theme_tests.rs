use voice_ambient::ambient::{rec_indicator, transcript_color};
use voice_ambient::theme::{
    load_theme_idx, next_theme_idx, theme_at, theme_dir, theme_file_contents, theme_file_path,
    Color, THEME_COUNT,
};

#[test]
fn themes_in_order() {
    let names: Vec<&str> = (0..THEME_COUNT).map(|i| theme_at(i).name).collect();
    assert_eq!(names, vec!["Cyan", "Amber", "Phosphor", "Neon", "Ocean"]);
    assert_eq!(theme_at(0).primary, Color::Cyan);
    assert_eq!(theme_at(4).hi_fg, Color::White);
    assert_eq!(theme_at(3).hi_bg, Color::Magenta);
}

#[test]
fn theme_file_round_trip() {
    for i in 0..20 {
        assert_eq!(load_theme_idx(theme_file_contents(i)), i % THEME_COUNT);
    }
}

#[test]
fn theme_file_contents_tolerates_space() {
    assert_eq!(load_theme_idx("  Neon\n"), 3);
    assert_eq!(load_theme_idx(""), 0);
    assert_eq!(load_theme_idx("neon"), 0);
    assert_eq!(load_theme_idx("Ocean"), 4);
}

#[test]
fn theme_cycle_returns_home() {
    for start in 0..THEME_COUNT {
        let mut i = start;
        for _ in 0..THEME_COUNT {
            i = next_theme_idx(i);
        }
        assert_eq!(i, start);
    }
    assert_eq!(next_theme_idx(4), 0);
}

#[test]
fn theme_paths() {
    assert_eq!(theme_dir("/home/u"), "/home/u/.config/voice-input");
    assert_eq!(theme_file_path("/home/u"), "/home/u/.config/voice-input/theme");
}

#[test]
fn default_theme_colors() {
    let t = theme_at(0);
    assert_eq!(t.primary, Color::Cyan);
    assert_eq!(t.text, Color::White);
    assert_eq!(t.dim, Color::DarkGray);
    assert_eq!(transcript_color(&t, 0), Color::Cyan);
    assert_eq!(transcript_color(&t, 10), Color::White);
    assert_eq!(transcript_color(&t, 30), Color::Gray);
    assert_eq!(transcript_color(&t, 90), Color::DarkGray);
    assert_eq!(rec_indicator(true, &t), ("● REC", Color::Red));
    assert_eq!(rec_indicator(false, &t), ("○ REC", Color::DarkGray));
    assert_eq!(theme_at(2).text, Color::LightGreen);
    assert_eq!(theme_at(1).rec_on, Color::LightRed);
}
