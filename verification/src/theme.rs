//! Color themes of the terminal interfaces and the persisted theme choice.
use vstd::prelude::*;

use crate::text::{push_str, trim, trim_str};

verus! {

/// The terminal colors the interfaces use.
#[derive(Clone, Copy, Debug, PartialEq, Eq, Structural)]
pub enum Color {
    Reset,
    Black,
    Red,
    Green,
    Yellow,
    Blue,
    Magenta,
    Cyan,
    Gray,
    DarkGray,
    LightRed,
    LightGreen,
    LightYellow,
    LightBlue,
    LightMagenta,
    LightCyan,
    White,
}

/// A named set of colors.
#[derive(Clone, Copy, Debug)]
pub struct Theme {
    pub name: &'static str,
    /// Borders, titles, active breadcrumb.
    pub primary: Color,
    /// Command preview, accent text, stats.
    pub secondary: Color,
    /// Pass indicators, positive states.
    pub success: Color,
    /// Primary body text.
    pub text: Color,
    /// Hints, timestamps, inactive text.
    pub dim: Color,
    /// Warning glyphs.
    pub warn: Color,
    /// Error and failure glyphs.
    pub err: Color,
    /// The "on" state of the blinking REC indicator.
    pub rec_on: Color,
    /// Selected-row foreground.
    pub hi_fg: Color,
    /// Selected-row background.
    pub hi_bg: Color,
}

/// Number of themes.
pub const THEME_COUNT: usize = 5;

/// The name of theme `idx`.
pub open spec fn theme_name(idx: int) -> Seq<char> {
    if idx == 0 {
        "Cyan"@
    } else if idx == 1 {
        "Amber"@
    } else if idx == 2 {
        "Phosphor"@
    } else if idx == 3 {
        "Neon"@
    } else {
        "Ocean"@
    }
}

/// Theme number `idx` with all of its colors.
pub open spec fn theme_spec(idx: int) -> Theme {
    if idx == 0 {
        Theme {
            name: "Cyan",
            primary: Color::Cyan,
            secondary: Color::Yellow,
            success: Color::Green,
            text: Color::White,
            dim: Color::DarkGray,
            warn: Color::Yellow,
            err: Color::Red,
            rec_on: Color::Red,
            hi_fg: Color::Black,
            hi_bg: Color::Cyan,
        }
    } else if idx == 1 {
        Theme {
            name: "Amber",
            primary: Color::Yellow,
            secondary: Color::LightYellow,
            success: Color::LightGreen,
            text: Color::White,
            dim: Color::DarkGray,
            warn: Color::Yellow,
            err: Color::LightRed,
            rec_on: Color::LightRed,
            hi_fg: Color::Black,
            hi_bg: Color::Yellow,
        }
    } else if idx == 2 {
        Theme {
            name: "Phosphor",
            primary: Color::Green,
            secondary: Color::LightGreen,
            success: Color::Green,
            text: Color::LightGreen,
            dim: Color::DarkGray,
            warn: Color::LightYellow,
            err: Color::LightRed,
            rec_on: Color::LightGreen,
            hi_fg: Color::Black,
            hi_bg: Color::Green,
        }
    } else if idx == 3 {
        Theme {
            name: "Neon",
            primary: Color::LightMagenta,
            secondary: Color::LightCyan,
            success: Color::LightGreen,
            text: Color::White,
            dim: Color::DarkGray,
            warn: Color::LightYellow,
            err: Color::LightRed,
            rec_on: Color::LightMagenta,
            hi_fg: Color::Black,
            hi_bg: Color::Magenta,
        }
    } else {
        Theme {
            name: "Ocean",
            primary: Color::LightBlue,
            secondary: Color::Cyan,
            success: Color::LightGreen,
            text: Color::White,
            dim: Color::DarkGray,
            warn: Color::LightYellow,
            err: Color::LightRed,
            rec_on: Color::LightBlue,
            hi_fg: Color::White,
            hi_bg: Color::Blue,
        }
    }
}

/// Theme number `idx`, in the order the interfaces cycle through them.
pub fn theme_at(idx: usize) -> (t: Theme)
    requires
        idx < THEME_COUNT,
    ensures
        t == theme_spec(idx as int),
        t.name@ == theme_name(idx as int),
{
    if idx == 0 {
        Theme {
            name: "Cyan",
            primary: Color::Cyan,
            secondary: Color::Yellow,
            success: Color::Green,
            text: Color::White,
            dim: Color::DarkGray,
            warn: Color::Yellow,
            err: Color::Red,
            rec_on: Color::Red,
            hi_fg: Color::Black,
            hi_bg: Color::Cyan,
        }
    } else if idx == 1 {
        Theme {
            name: "Amber",
            primary: Color::Yellow,
            secondary: Color::LightYellow,
            success: Color::LightGreen,
            text: Color::White,
            dim: Color::DarkGray,
            warn: Color::Yellow,
            err: Color::LightRed,
            rec_on: Color::LightRed,
            hi_fg: Color::Black,
            hi_bg: Color::Yellow,
        }
    } else if idx == 2 {
        Theme {
            name: "Phosphor",
            primary: Color::Green,
            secondary: Color::LightGreen,
            success: Color::Green,
            text: Color::LightGreen,
            dim: Color::DarkGray,
            warn: Color::LightYellow,
            err: Color::LightRed,
            rec_on: Color::LightGreen,
            hi_fg: Color::Black,
            hi_bg: Color::Green,
        }
    } else if idx == 3 {
        Theme {
            name: "Neon",
            primary: Color::LightMagenta,
            secondary: Color::LightCyan,
            success: Color::LightGreen,
            text: Color::White,
            dim: Color::DarkGray,
            warn: Color::LightYellow,
            err: Color::LightRed,
            rec_on: Color::LightMagenta,
            hi_fg: Color::Black,
            hi_bg: Color::Magenta,
        }
    } else {
        Theme {
            name: "Ocean",
            primary: Color::LightBlue,
            secondary: Color::Cyan,
            success: Color::LightGreen,
            text: Color::White,
            dim: Color::DarkGray,
            warn: Color::LightYellow,
            err: Color::LightRed,
            rec_on: Color::LightBlue,
            hi_fg: Color::White,
            hi_bg: Color::Blue,
        }
    }
}

/// The index of the theme that follows `idx` when the user presses `t`.
pub fn next_theme_idx(idx: usize) -> (r: usize)
    requires
        idx < THEME_COUNT,
    ensures
        r == (idx + 1) % (THEME_COUNT as int),
        r < THEME_COUNT,
{
    (idx + 1) % THEME_COUNT
}

/// The index of the first theme named `name`, or 0 when none is.
pub open spec fn spec_theme_index_of(name: Seq<char>) -> int {
    if name == theme_name(0) {
        0
    } else if name == theme_name(1) {
        1
    } else if name == theme_name(2) {
        2
    } else if name == theme_name(3) {
        3
    } else if name == theme_name(4) {
        4
    } else {
        0
    }
}

/// The theme index stored in a theme file whose text is `contents`: the theme
/// whose name equals the trimmed text, or the first theme.
pub fn load_theme_idx(contents: &str) -> (idx: usize)
    ensures
        idx == spec_theme_index_of(trim(contents@)),
        idx < THEME_COUNT,
{
    let name = trim_str(contents);
    let mut i: usize = 0;
    while i < THEME_COUNT
        invariant
            name@ == trim(contents@),
            i <= THEME_COUNT,
            forall|j: int| 0 <= j < i ==> name@ != theme_name(j),
        decreases THEME_COUNT - i,
    {
        let t = theme_at(i);
        let tn = String::from_str(t.name);
        if name == tn {
            return i;
        }
        i = i + 1;
    }
    0
}

/// The text written to the theme file to remember theme `idx`.
pub fn theme_file_contents(idx: usize) -> (s: &'static str)
    ensures
        s@ == theme_name(idx as int % (THEME_COUNT as int)),
{
    theme_at(idx % THEME_COUNT).name
}

/// The directory of the theme file under the home directory `home`.
pub fn theme_dir(home: &str) -> (s: String)
    ensures
        s@ == home@ + "/.config/voice-input"@,
{
    let mut s = String::from_str(home);
    push_str(&mut s, "/.config/voice-input");
    s
}

/// The theme file under the home directory `home`.
pub fn theme_file_path(home: &str) -> (s: String)
    ensures
        s@ == home@ + "/.config/voice-input/theme"@,
{
    let mut s = String::from_str(home);
    push_str(&mut s, "/.config/voice-input/theme");
    s
}

} // verus!

verus! {

/// Writing the theme file for theme `idx` and reading it back gives the same
/// theme: the choice persists across sessions.
pub proof fn lemma_theme_file_round_trip(idx: int)
    requires
        0 <= idx,
    ensures
        spec_theme_index_of(trim(theme_name(idx % (THEME_COUNT as int)))) == idx % (THEME_COUNT as int),
{
    reveal_strlit("Cyan");
    reveal_strlit("Amber");
    reveal_strlit("Phosphor");
    reveal_strlit("Neon");
    reveal_strlit("Ocean");
    let k = idx % (THEME_COUNT as int);
    let n = theme_name(k);
    crate::text::lemma_trim_no_edge_space(n);
    assert(theme_name(0)[0] == 'C');
    assert(theme_name(1)[0] == 'A');
    assert(theme_name(2)[0] == 'P');
    assert(theme_name(3)[0] == 'N');
    assert(theme_name(4)[0] == 'O');
}

/// Pressing `t` once per theme brings the interface back to the theme it
/// started with.
pub proof fn lemma_theme_cycle(idx: int)
    requires
        0 <= idx < THEME_COUNT,
    ensures
        ({
            let step = |i: int| (i + 1) % (THEME_COUNT as int);
            step(step(step(step(step(idx))))) == idx
        }),
{
}

} // verus!
