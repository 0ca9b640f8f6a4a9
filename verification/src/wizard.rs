//! The setup wizard: its pages, options and the command it assembles.
use vstd::prelude::*;

use crate::keys::{has_control, KeyCode, KeyInput};
use crate::mode::{mode_name, Mode};
use crate::text::{join_with_spaces, join_words, push_str, views};
use crate::theme::Color;

verus! {

/// The five pages of the wizard, in order.
#[derive(Clone, Copy, Debug, PartialEq, Eq, Structural)]
pub enum Page {
    Welcome,
    SystemCheck,
    ModeSelect,
    Options,
    Launch,
}

/// The outcome of one prerequisite check.
#[derive(Clone, Copy, Debug, PartialEq, Eq, Structural)]
pub enum CheckStatus {
    Pass,
    Warn,
    Fail,
}

/// One prerequisite check with its outcome and an explanation.
#[derive(Clone, Debug)]
pub struct CheckResult {
    pub label: &'static str,
    pub status: CheckStatus,
    pub detail: String,
}

/// Number of models the options page cycles through.
pub const MODEL_COUNT: usize = 5;

/// Name of model `idx` in the cycle of the options page.
pub open spec fn model_name(idx: int) -> Seq<char> {
    if idx == 0 {
        "large-v3"@
    } else if idx == 1 {
        "large-v2"@
    } else if idx == 2 {
        "medium"@
    } else if idx == 3 {
        "small"@
    } else {
        "base"@
    }
}

/// Name of model `idx` in the cycle of the options page.
pub fn model_at(idx: usize) -> (s: &'static str)
    requires
        idx < MODEL_COUNT,
    ensures
        s@ == model_name(idx as int),
{
    if idx == 0 {
        "large-v3"
    } else if idx == 1 {
        "large-v2"
    } else if idx == 2 {
        "medium"
    } else if idx == 3 {
        "small"
    } else {
        "base"
    }
}

/// The state of the wizard.
#[derive(Clone, Debug)]
pub struct WizardApp {
    pub page: Page,
    pub checks: Vec<CheckResult>,
    /// The highlighted row of the mode list (0 to 3).
    pub mode_cursor: usize,
    pub selected_mode: Option<Mode>,
    pub opt_submit: bool,
    pub opt_no_save: bool,
    pub opt_db_enabled: bool,
    pub opt_model_idx: usize,
    /// The highlighted row of the options list.
    pub opt_cursor: usize,
    pub launch_msg: Option<String>,
    pub quit: bool,
}

/// What the surrounding program must do after a key press.
#[derive(Clone, Copy, Debug, PartialEq, Eq, Structural)]
pub enum WizardAction {
    /// Nothing beyond the new state.
    Nothing,
    /// Copy the assembled command to the clipboard.
    Copy,
    /// Replace the process by the assembled command.
    Launch,
}

/// Number of option rows shown for a mode.
pub open spec fn spec_option_count(m: Mode) -> nat {
    match m {
        Mode::Type => 2,
        Mode::Print => 1,
        Mode::Clip => 1,
        Mode::Ambient => 3,
    }
}

/// Number of option rows shown for a mode.
pub fn option_count(mode: &Mode) -> (n: usize)
    ensures
        n == spec_option_count(*mode),
{
    match mode {
        Mode::Type => 2,
        Mode::Print => 1,
        Mode::Clip => 1,
        Mode::Ambient => 3,
    }
}

/// The states the wizard can reach.
pub open spec fn wf(a: WizardApp) -> bool {
    &&& a.mode_cursor <= 3
    &&& a.opt_model_idx < MODEL_COUNT
    &&& (a.selected_mode matches Some(m) ==> a.opt_cursor < spec_option_count(m))
    &&& ((a.page == Page::Options || a.page == Page::Launch) ==> a.selected_mode is Some)
}

/// The mode of row `idx` of the mode list.
pub open spec fn mode_of_row(idx: usize) -> Mode {
    if idx == 0 {
        Mode::Type
    } else if idx == 1 {
        Mode::Print
    } else if idx == 2 {
        Mode::Clip
    } else {
        Mode::Ambient
    }
}

/// The wizard after moving forward one page; on the last page, it quits.
pub open spec fn spec_advance(a: WizardApp) -> WizardApp {
    match a.page {
        Page::Welcome => WizardApp { page: Page::SystemCheck, ..a },
        Page::SystemCheck => WizardApp { page: Page::ModeSelect, ..a },
        Page::ModeSelect => WizardApp {
            selected_mode: Some(mode_of_row(a.mode_cursor)),
            opt_cursor: 0,
            page: Page::Options,
            ..a
        },
        Page::Options => WizardApp { page: Page::Launch, ..a },
        Page::Launch => WizardApp { quit: true, ..a },
    }
}

/// The wizard after moving back one page; the first page stays.
pub open spec fn spec_retreat(a: WizardApp) -> WizardApp {
    match a.page {
        Page::Welcome => a,
        Page::SystemCheck => WizardApp { page: Page::Welcome, ..a },
        Page::ModeSelect => WizardApp { page: Page::SystemCheck, ..a },
        Page::Options => WizardApp { page: Page::ModeSelect, ..a },
        Page::Launch => WizardApp { page: Page::Options, ..a },
    }
}

/// The next model of the cycle.
pub open spec fn next_model(idx: usize) -> usize {
    ((idx + 1) % (MODEL_COUNT as int)) as usize
}

/// The wizard after the highlighted option is toggled (or, for the model
/// row, after the next model is chosen).
pub open spec fn spec_toggle(a: WizardApp) -> WizardApp {
    match a.selected_mode {
        None => a,
        Some(Mode::Type) => if a.opt_cursor == 0 {
            WizardApp { opt_submit: !a.opt_submit, ..a }
        } else {
            WizardApp { opt_model_idx: next_model(a.opt_model_idx), ..a }
        },
        Some(Mode::Print) | Some(Mode::Clip) => WizardApp {
            opt_model_idx: next_model(a.opt_model_idx),
            ..a
        },
        Some(Mode::Ambient) => if a.opt_cursor == 0 {
            WizardApp { opt_no_save: !a.opt_no_save, ..a }
        } else if a.opt_cursor == 1 {
            WizardApp { opt_db_enabled: !a.opt_db_enabled, ..a }
        } else {
            WizardApp { opt_model_idx: next_model(a.opt_model_idx), ..a }
        },
    }
}

/// Whether the key is `q` or Escape, the keys that leave the wizard.
pub open spec fn is_quit_key(k: KeyInput) -> bool {
    k.code == KeyCode::Char('q') || k.code == KeyCode::Esc
}

/// Whether the key moves forward.
pub open spec fn is_forward_key(k: KeyInput) -> bool {
    k.code == KeyCode::Right || k.code == KeyCode::Enter
}

/// The wizard after a key press, and what the surrounding program must do.
pub open spec fn spec_handle_key(a: WizardApp, k: KeyInput) -> (WizardApp, WizardAction) {
    if k.code == KeyCode::Char('c') && has_control(k) {
        (WizardApp { quit: true, ..a }, WizardAction::Nothing)
    } else if is_quit_key(k) {
        (WizardApp { quit: true, ..a }, WizardAction::Nothing)
    } else if k.code == KeyCode::Left {
        (spec_retreat(a), WizardAction::Nothing)
    } else {
        match a.page {
            Page::Launch => if k.code == KeyCode::Char('c') {
                (a, WizardAction::Copy)
            } else if k.code == KeyCode::Char('l') {
                (a, WizardAction::Launch)
            } else {
                (a, WizardAction::Nothing)
            },
            Page::ModeSelect => if k.code == KeyCode::Up {
                (WizardApp { mode_cursor: if a.mode_cursor > 0 { (a.mode_cursor - 1) as usize } else { a.mode_cursor }, ..a }, WizardAction::Nothing)
            } else if k.code == KeyCode::Down {
                (WizardApp { mode_cursor: if a.mode_cursor < 3 { (a.mode_cursor + 1) as usize } else { a.mode_cursor }, ..a }, WizardAction::Nothing)
            } else if is_forward_key(k) {
                (spec_advance(a), WizardAction::Nothing)
            } else {
                (a, WizardAction::Nothing)
            },
            Page::Options => {
                let max: int = match a.selected_mode {
                    Some(m) => spec_option_count(m) - 1,
                    None => 0,
                };
                if k.code == KeyCode::Up {
                    (WizardApp { opt_cursor: if a.opt_cursor > 0 { (a.opt_cursor - 1) as usize } else { a.opt_cursor }, ..a }, WizardAction::Nothing)
                } else if k.code == KeyCode::Down {
                    (WizardApp { opt_cursor: if a.opt_cursor < max { (a.opt_cursor + 1) as usize } else { a.opt_cursor }, ..a }, WizardAction::Nothing)
                } else if k.code == KeyCode::Char(' ') {
                    (spec_toggle(a), WizardAction::Nothing)
                } else if is_forward_key(k) {
                    (spec_advance(a), WizardAction::Nothing)
                } else {
                    (a, WizardAction::Nothing)
                }
            },
            _ => if is_forward_key(k) {
                (spec_advance(a), WizardAction::Nothing)
            } else {
                (a, WizardAction::Nothing)
            },
        }
    }
}

impl WizardApp {
    /// The wizard on its first page, holding the results of the checks.
    pub fn new(checks: Vec<CheckResult>) -> (a: WizardApp)
        ensures
            a.page == Page::Welcome,
            a.checks == checks,
            a.mode_cursor == 0,
            a.selected_mode is None,
            !a.opt_submit,
            !a.opt_no_save,
            !a.opt_db_enabled,
            a.opt_model_idx == 0,
            a.opt_cursor == 0,
            a.launch_msg is None,
            !a.quit,
            wf(a),
    {
        WizardApp {
            page: Page::Welcome,
            checks,
            mode_cursor: 0,
            selected_mode: None,
            opt_submit: false,
            opt_no_save: false,
            opt_db_enabled: false,
            opt_model_idx: 0,
            opt_cursor: 0,
            launch_msg: None,
            quit: false,
        }
    }

    /// The chosen model's name.
    pub fn model(&self) -> (s: &'static str)
        requires
            self.opt_model_idx < MODEL_COUNT,
        ensures
            s@ == model_name(self.opt_model_idx as int),
    {
        model_at(self.opt_model_idx)
    }
}

/// Moves forward one page (choosing the highlighted mode when leaving the mode
/// list); on the last page, the wizard quits.
pub fn advance_page(app: &mut WizardApp)
    ensures
        *final(app) == spec_advance(*old(app)),
{
    match app.page {
        Page::Welcome => app.page = Page::SystemCheck,
        Page::SystemCheck => app.page = Page::ModeSelect,
        Page::ModeSelect => {
            app.selected_mode = Some(
                if app.mode_cursor == 0 {
                    Mode::Type
                } else if app.mode_cursor == 1 {
                    Mode::Print
                } else if app.mode_cursor == 2 {
                    Mode::Clip
                } else {
                    Mode::Ambient
                },
            );
            app.opt_cursor = 0;
            app.page = Page::Options;
        },
        Page::Options => app.page = Page::Launch,
        Page::Launch => app.quit = true,
    }
}

/// Moves back one page; the first page stays.
pub fn retreat_page(app: &mut WizardApp)
    ensures
        *final(app) == spec_retreat(*old(app)),
{
    match app.page {
        Page::Welcome => {},
        Page::SystemCheck => app.page = Page::Welcome,
        Page::ModeSelect => app.page = Page::SystemCheck,
        Page::Options => app.page = Page::ModeSelect,
        Page::Launch => app.page = Page::Options,
    }
}

/// Toggles the highlighted option, or moves to the next model on the model row.
pub fn toggle_current_option(app: &mut WizardApp)
    ensures
        *final(app) == spec_toggle(*old(app)),
{
    let mode = match app.selected_mode {
        Some(m) => m,
        None => return ,
    };
    match mode {
        Mode::Type => if app.opt_cursor == 0 {
            app.opt_submit = !app.opt_submit;
        } else {
            app.opt_model_idx = (app.opt_model_idx % MODEL_COUNT + 1) % MODEL_COUNT;
        },
        Mode::Print | Mode::Clip => {
            app.opt_model_idx = (app.opt_model_idx % MODEL_COUNT + 1) % MODEL_COUNT;
        },
        Mode::Ambient => if app.opt_cursor == 0 {
            app.opt_no_save = !app.opt_no_save;
        } else if app.opt_cursor == 1 {
            app.opt_db_enabled = !app.opt_db_enabled;
        } else {
            app.opt_model_idx = (app.opt_model_idx % MODEL_COUNT + 1) % MODEL_COUNT;
        },
    }
}

} // verus!

verus! {

/// Applies a key press to the wizard and says what the surrounding program
/// must do: Ctrl-C, `q` and Escape quit, Left goes back, Right and Enter go
/// forward, Up and Down move the highlight, Space toggles an option, and on
/// the last page `c` copies and `l` launches the command.
pub fn handle_key(app: &mut WizardApp, key: KeyInput) -> (act: WizardAction)
    ensures
        (*final(app), act) == spec_handle_key(*old(app), key),
        wf(*old(app)) ==> wf(*final(app)),
{
    if key.code == KeyCode::Char('c') && key.control_held() {
        app.quit = true;
        return WizardAction::Nothing;
    }
    if key.code == KeyCode::Char('q') || key.code == KeyCode::Esc {
        app.quit = true;
        return WizardAction::Nothing;
    }
    if key.code == KeyCode::Left {
        retreat_page(app);
        return WizardAction::Nothing;
    }
    let forward = key.code == KeyCode::Right || key.code == KeyCode::Enter;
    match app.page {
        Page::Launch => {
            if key.code == KeyCode::Char('c') {
                WizardAction::Copy
            } else if key.code == KeyCode::Char('l') {
                WizardAction::Launch
            } else {
                WizardAction::Nothing
            }
        },
        Page::ModeSelect => {
            if key.code == KeyCode::Up {
                if app.mode_cursor > 0 {
                    app.mode_cursor = app.mode_cursor - 1;
                }
            } else if key.code == KeyCode::Down {
                if app.mode_cursor < 3 {
                    app.mode_cursor = app.mode_cursor + 1;
                }
            } else if forward {
                advance_page(app);
            }
            WizardAction::Nothing
        },
        Page::Options => {
            let max: usize = match app.selected_mode {
                Some(m) => {
                    let n = option_count(&m);
                    if n > 0 { n - 1 } else { 0 }
                },
                None => 0,
            };
            if key.code == KeyCode::Up {
                if app.opt_cursor > 0 {
                    app.opt_cursor = app.opt_cursor - 1;
                }
            } else if key.code == KeyCode::Down {
                if app.opt_cursor < max {
                    app.opt_cursor = app.opt_cursor + 1;
                }
            } else if key.code == KeyCode::Char(' ') {
                toggle_current_option(app);
            } else if forward {
                advance_page(app);
            }
            WizardAction::Nothing
        },
        _ => {
            if forward {
                advance_page(app);
            }
            WizardAction::Nothing
        },
    }
}

/// Ctrl-C leaves the wizard from every page and every state.
pub proof fn lemma_control_c_always_quits(a: WizardApp, k: KeyInput)
    requires
        k.code == KeyCode::Char('c'),
        has_control(k),
    ensures
        spec_handle_key(a, k).0.quit,
{
}

/// Going forward one page and then back returns to the page one started on,
/// and, except when leaving the mode list (which records the chosen mode),
/// to exactly the state one started in.
pub proof fn lemma_back_undoes_forward(a: WizardApp)
    requires
        a.page != Page::Launch,
    ensures
        spec_retreat(spec_advance(a)).page == a.page,
        a.page != Page::ModeSelect ==> spec_retreat(spec_advance(a)) == a,
{
}

/// Going back one page and then forward returns to the page one started on.
pub proof fn lemma_forward_undoes_back(a: WizardApp)
    requires
        a.page != Page::Welcome,
    ensures
        spec_advance(spec_retreat(a)).page == a.page,
{
}

/// Toggling a yes/no option twice restores the wizard's state.
pub proof fn lemma_toggle_twice_restores(a: WizardApp)
    requires
        wf(a),
        a.selected_mode matches Some(m) && (
            (m == Mode::Type && a.opt_cursor == 0)
            || (m == Mode::Ambient && a.opt_cursor <= 1)
        ),
    ensures
        spec_toggle(spec_toggle(a)) == a,
{
}

/// Pressing Space on the model row once per model returns to the model one
/// started with.
pub proof fn lemma_model_cycle_restores(a: WizardApp)
    requires
        wf(a),
        a.selected_mode matches Some(m) && (
            (m == Mode::Type && a.opt_cursor == 1)
            || m == Mode::Print || m == Mode::Clip
            || (m == Mode::Ambient && a.opt_cursor == 2)
        ),
    ensures
        spec_toggle(spec_toggle(spec_toggle(spec_toggle(spec_toggle(a))))) == a,
{
}

} // verus!

verus! {

/// The default model, for which the command carries no `--model` flag.
pub open spec fn default_model() -> Seq<char> {
    "large-v3"@
}

proof fn lemma_model_is_default(idx: int)
    requires
        0 <= idx < MODEL_COUNT,
    ensures
        (model_name(idx) == default_model()) == (idx == 0),
{
    reveal_strlit("large-v3");
    reveal_strlit("large-v2");
    reveal_strlit("medium");
    reveal_strlit("small");
    reveal_strlit("base");
    assert(default_model().len() == 8);
    if idx == 1 {
        assert(model_name(1)[7] != default_model()[7]);
    } else if idx == 2 {
        assert(model_name(2).len() == 6);
    } else if idx == 3 {
        assert(model_name(3).len() == 5);
    } else if idx == 4 {
        assert(model_name(4).len() == 4);
    }
}

/// The session database the wizard proposes under the home directory `home`.
pub open spec fn sessions_db_path(home: Seq<char>) -> Seq<char> {
    home + "/.local/share/voice-input/sessions.db"@
}

/// The words of the command the wizard builds for its current choices.
pub open spec fn command_parts(a: WizardApp, home: Seq<char>) -> Seq<Seq<char>> {
    match a.selected_mode {
        None => seq!["voice-input"@],
        Some(m) => {
            let base = seq!["voice-input"@, "--mode"@, mode_name(m)];
            let with_model = if model_name(a.opt_model_idx as int) != default_model() {
                base + seq!["--model"@, model_name(a.opt_model_idx as int)]
            } else {
                base
            };
            let with_submit = if m == Mode::Type && a.opt_submit {
                with_model.push("--submit"@)
            } else {
                with_model
            };
            if m == Mode::Ambient {
                let with_no_save = if a.opt_no_save {
                    with_submit.push("--no-save"@)
                } else {
                    with_submit
                };
                if a.opt_db_enabled {
                    with_no_save + seq!["--db"@, sessions_db_path(home)]
                } else {
                    with_no_save
                }
            } else {
                with_submit
            }
        },
    }
}

fn push_literal(v: &mut Vec<String>, s: &str)
    ensures
        views(final(v)@) == views(old(v)@).push(s@),
{
    v.push(String::from_str(s));
    assert(views(final(v)@) =~= views(old(v)@).push(s@));
}

/// The command line for the current choices, with `home` as the home
/// directory: `voice-input --mode <mode>`, then `--model <name>` unless the
/// model is large-v3, `--submit` for typing with auto-submit, and for ambient
/// mode `--no-save` and `--db <path>` as chosen.
pub fn assemble_command(app: &WizardApp, home: &str) -> (cmd: String)
    requires
        app.selected_mode is Some ==> app.opt_model_idx < MODEL_COUNT,
    ensures
        cmd@ == join_words(command_parts(*app, home@)),
{
    let mut parts: Vec<String> = Vec::new();
    let mode = match app.selected_mode {
        Some(m) => m,
        None => {
            push_literal(&mut parts, "voice-input");
            assert(views(parts@) =~= command_parts(*app, home@));
            return join_with_spaces(&parts);
        },
    };
    push_literal(&mut parts, "voice-input");
    push_literal(&mut parts, "--mode");
    push_literal(&mut parts, mode.as_str());
    proof {
        lemma_model_is_default(app.opt_model_idx as int);
    }
    if app.opt_model_idx != 0 {
        push_literal(&mut parts, "--model");
        push_literal(&mut parts, app.model());
    }
    if mode == Mode::Type && app.opt_submit {
        push_literal(&mut parts, "--submit");
    }
    if mode == Mode::Ambient {
        if app.opt_no_save {
            push_literal(&mut parts, "--no-save");
        }
        if app.opt_db_enabled {
            push_literal(&mut parts, "--db");
            let mut db = String::from_str(home);
            push_str(&mut db, "/.local/share/voice-input/sessions.db");
            let ghost before = views(parts@);
            parts.push(db);
            assert(views(parts@) =~= before.push(sessions_db_path(home@)));
        }
    }
    assert(views(parts@) =~= command_parts(*app, home@));
    join_with_spaces(&parts)
}

} // verus!

verus! {

/// One row of the options list: its text and whether it is highlighted.
#[derive(Clone, Debug)]
pub struct OptionRow {
    pub text: String,
    pub focused: bool,
}

/// The description of the model row, naming the chosen model.
pub open spec fn model_row_value(model: Seq<char>) -> Seq<char> {
    "["@ + model + "]  Space to cycle: large-v3 → large-v2 → medium → small → base"@
}

/// The flag and description of each option row for mode `m`.
pub open spec fn option_fields(a: WizardApp, m: Mode) -> Seq<(Seq<char>, Seq<char>)> {
    let model_row = ("--model"@, model_row_value(model_name(a.opt_model_idx as int)));
    match m {
        Mode::Type => seq![
            ("--submit"@, if a.opt_submit { "[x] send Return after typing"@ } else { "[ ] do not send Return"@ }),
            model_row,
        ],
        Mode::Print | Mode::Clip => seq![model_row],
        Mode::Ambient => seq![
            ("--no-save"@, if a.opt_no_save { "[x] transcript auto-save disabled"@ } else { "[ ] transcript auto-saved to ~/.local/share/voice-input/"@ }),
            ("--db"@, if a.opt_db_enabled { "[x] SQLite session logging on"@ } else { "[ ] SQLite session logging off"@ }),
            model_row,
        ],
    }
}

/// The text of an option row: a pointer when highlighted, the flag padded to
/// fourteen characters, and the description.
pub open spec fn option_row_text(focused: bool, flag: Seq<char>, value: Seq<char>) -> Seq<char> {
    (if focused { "▶ "@ } else { "  "@ }) + "  "@ + crate::text::pad_right(flag, 14) + "  "@ + value
}

fn push_option_row(rows: &mut Vec<OptionRow>, cursor: usize, flag: &str, value: &str)
    ensures
        final(rows)@.len() == old(rows)@.len() + 1,
        forall|i: int| 0 <= i < old(rows)@.len() ==> final(rows)@[i] == old(rows)@[i],
        final(rows)@.last().focused == (cursor == old(rows)@.len()),
        final(rows)@.last().text@ == option_row_text(cursor == old(rows)@.len(), flag@, value@),
{
    let focused = cursor == rows.len();
    let mut text = String::new();
    if focused {
        push_str(&mut text, "▶ ");
    } else {
        push_str(&mut text, "  ");
    }
    push_str(&mut text, "  ");
    crate::text::push_padded(&mut text, flag, 14);
    push_str(&mut text, "  ");
    push_str(&mut text, value);
    assert(text@ =~= option_row_text(focused, flag@, value@));
    rows.push(OptionRow { text, focused });
}

fn model_value(app: &WizardApp) -> (s: String)
    requires
        app.opt_model_idx < MODEL_COUNT,
    ensures
        s@ == model_row_value(model_name(app.opt_model_idx as int)),
{
    let mut s = String::from_str("[");
    push_str(&mut s, app.model());
    push_str(&mut s, "]  Space to cycle: large-v3 → large-v2 → medium → small → base");
    assert(s@ =~= model_row_value(model_name(app.opt_model_idx as int)));
    s
}

/// The rows of the options list for mode `mode`, in order.
pub fn build_option_items(app: &WizardApp, mode: &Mode) -> (rows: Vec<OptionRow>)
    requires
        app.opt_model_idx < MODEL_COUNT,
    ensures
        rows@.len() == option_fields(*app, *mode).len(),
        forall|i: int| 0 <= i < rows@.len() ==> {
            &&& (#[trigger] rows@[i]).focused == (app.opt_cursor == i)
            &&& rows@[i].text@ == option_row_text(
                app.opt_cursor == i,
                option_fields(*app, *mode)[i].0,
                option_fields(*app, *mode)[i].1,
            )
        },
{
    let mut rows: Vec<OptionRow> = Vec::new();
    let mv = model_value(app);
    let c = app.opt_cursor;
    match mode {
        Mode::Type => {
            push_option_row(&mut rows, c, "--submit", if app.opt_submit {
                "[x] send Return after typing"
            } else {
                "[ ] do not send Return"
            });
            push_option_row(&mut rows, c, "--model", mv.as_str());
        },
        Mode::Print | Mode::Clip => {
            push_option_row(&mut rows, c, "--model", mv.as_str());
        },
        Mode::Ambient => {
            push_option_row(&mut rows, c, "--no-save", if app.opt_no_save {
                "[x] transcript auto-save disabled"
            } else {
                "[ ] transcript auto-saved to ~/.local/share/voice-input/"
            });
            push_option_row(&mut rows, c, "--db", if app.opt_db_enabled {
                "[x] SQLite session logging on"
            } else {
                "[ ] SQLite session logging off"
            });
            push_option_row(&mut rows, c, "--model", mv.as_str());
        },
    }
    rows
}

/// The position of a page in the wizard, from 0.
pub open spec fn spec_page_index(p: Page) -> nat {
    match p {
        Page::Welcome => 0,
        Page::SystemCheck => 1,
        Page::ModeSelect => 2,
        Page::Options => 3,
        Page::Launch => 4,
    }
}

/// The position of a page in the wizard, from 0.
pub fn page_index(p: Page) -> (i: usize)
    ensures
        i == spec_page_index(p),
{
    match p {
        Page::Welcome => 0,
        Page::SystemCheck => 1,
        Page::ModeSelect => 2,
        Page::Options => 3,
        Page::Launch => 4,
    }
}

/// How a step of the breadcrumb is shown.
#[derive(Clone, Copy, Debug, PartialEq, Eq, Structural)]
pub enum StepState {
    /// The current page.
    Current,
    /// A page already passed.
    Done,
    /// A page still ahead.
    Ahead,
}

/// How step `step` of the breadcrumb is shown while on page `page`.
pub fn step_state(step: usize, page: Page) -> (s: StepState)
    ensures
        s == (if step == spec_page_index(page) {
            StepState::Current
        } else if step < spec_page_index(page) {
            StepState::Done
        } else {
            StepState::Ahead
        }),
{
    let cur = page_index(page);
    if step == cur {
        StepState::Current
    } else if step < cur {
        StepState::Done
    } else {
        StepState::Ahead
    }
}

/// The label of breadcrumb step `step`.
pub open spec fn spec_breadcrumb_label(step: int) -> Seq<char> {
    if step == 0 {
        "1/5 Welcome"@
    } else if step == 1 {
        "2/5 System Check"@
    } else if step == 2 {
        "3/5 Mode Select"@
    } else if step == 3 {
        "4/5 Options"@
    } else {
        "5/5 Launch"@
    }
}

/// The label of breadcrumb step `step`.
pub fn breadcrumb_label(step: usize) -> (s: &'static str)
    requires
        step < 5,
    ensures
        s@ == spec_breadcrumb_label(step as int),
{
    if step == 0 {
        "1/5 Welcome"
    } else if step == 1 {
        "2/5 System Check"
    } else if step == 2 {
        "3/5 Mode Select"
    } else if step == 3 {
        "4/5 Options"
    } else {
        "5/5 Launch"
    }
}

/// The number of checks in `s` with outcome `st`.
pub open spec fn count_status(s: Seq<CheckResult>, st: CheckStatus) -> nat
    decreases s.len(),
{
    if s.len() == 0 {
        0
    } else {
        count_status(s.drop_last(), st) + if s.last().status == st { 1nat } else { 0nat }
    }
}

proof fn lemma_count_status_bound(s: Seq<CheckResult>, st: CheckStatus)
    ensures
        count_status(s, st) <= s.len(),
    decreases s.len(),
{
    if s.len() > 0 {
        lemma_count_status_bound(s.drop_last(), st);
    }
}

/// The number of checks with outcome `st`.
pub fn count_with_status(checks: &Vec<CheckResult>, st: CheckStatus) -> (n: usize)
    ensures
        n == count_status(checks@, st),
{
    let mut n: usize = 0;
    let mut i: usize = 0;
    while i < checks.len()
        invariant
            i <= checks@.len(),
            n == count_status(checks@.take(i as int), st),
        decreases checks@.len() - i,
    {
        assert(checks@.take(i as int + 1).drop_last() =~= checks@.take(i as int));
        proof {
            lemma_count_status_bound(checks@.take(i as int), st);
        }
        if checks[i].status == st {
            n = n + 1;
        }
        i = i + 1;
    }
    assert(checks@.take(i as int) =~= checks@);
    n
}

/// Whether a message of the launch page reports a failure: it mentions
/// "error", "Error" or "fail".
pub fn is_error_message(msg: &str) -> (r: bool)
    ensures
        r == (crate::text::spec_contains(msg@, "error"@) || crate::text::spec_contains(msg@, "Error"@)
            || crate::text::spec_contains(msg@, "fail"@)),
{
    crate::text::contains(msg, "error") || crate::text::contains(msg, "Error")
        || crate::text::contains(msg, "fail")
}

/// The message shown after copying the command: success, or the clipboard's
/// error text `err`.
pub fn copy_outcome_message(err: Option<&str>) -> (s: String)
    ensures
        s@ == match err {
            None => "Copied to clipboard!"@,
            Some(e) => "Clipboard error: "@ + e@,
        },
{
    match err {
        None => String::from_str("Copied to clipboard!"),
        Some(e) => {
            let mut s = String::from_str("Clipboard error: ");
            push_str(&mut s, e);
            s
        },
    }
}

} // verus!

verus! {

/// A check's label, outcome and explanation as character sequences.
pub open spec fn check_view(c: CheckResult) -> (Seq<char>, CheckStatus, Seq<char>) {
    (c.label@, c.status, c.detail@)
}

/// The characters of an optional string.
pub open spec fn opt_view(o: Option<&str>) -> Option<Seq<char>> {
    match o {
        Some(s) => Some(s@),
        None => None,
    }
}

/// The GPU check: the device node, or else `nvidia-smi` answering, passes;
/// without either the check only warns, as inference falls back to the CPU.
pub open spec fn spec_gpu_check(device_node_present: bool, nvidia_smi_ok: bool) -> (Seq<char>, CheckStatus, Seq<char>) {
    if device_node_present {
        ("GPU / CUDA"@, CheckStatus::Pass, "/dev/nvidia0 present"@)
    } else if nvidia_smi_ok {
        ("GPU / CUDA"@, CheckStatus::Pass, "nvidia-smi reports GPU"@)
    } else {
        ("GPU / CUDA"@, CheckStatus::Warn, "no GPU — whisper-rs will fall back to CPU"@)
    }
}

/// The GPU check.
pub fn gpu_check(device_node_present: bool, nvidia_smi_ok: bool) -> (r: CheckResult)
    ensures
        check_view(r) == spec_gpu_check(device_node_present, nvidia_smi_ok),
{
    let (status, detail) = if device_node_present {
        (CheckStatus::Pass, String::from_str("/dev/nvidia0 present"))
    } else if nvidia_smi_ok {
        (CheckStatus::Pass, String::from_str("nvidia-smi reports GPU"))
    } else {
        (CheckStatus::Warn, String::from_str("no GPU — whisper-rs will fall back to CPU"))
    };
    CheckResult { label: "GPU / CUDA", status, detail }
}

/// `rel` appended to the path `base` the way `Path::join` appends a relative
/// path: after a `/` unless `base` is empty or already ends with one.
pub open spec fn path_join(base: Seq<char>, rel: Seq<char>) -> Seq<char> {
    if base.len() == 0 || base.last() == '/' {
        base + rel
    } else {
        base + seq!['/'] + rel
    }
}

/// The model file the check looks for under the home directory `home`.
pub fn default_model_file(home: &str) -> (p: String)
    ensures
        p@ == path_join(home@, ".cache/whisper/ggml-large-v3.bin"@),
{
    let h = crate::text::chars_of(home);
    let mut p = String::from_str(home);
    if h.len() > 0 && h[h.len() - 1] != '/' {
        crate::text::push_char(&mut p, '/');
    }
    push_str(&mut p, ".cache/whisper/ggml-large-v3.bin");
    p
}

/// The model check: passes when the model file at `path` exists, fails otherwise.
pub open spec fn spec_model_check(path: Seq<char>, exists: bool) -> (Seq<char>, CheckStatus, Seq<char>) {
    if exists {
        ("Whisper model"@, CheckStatus::Pass, path)
    } else {
        ("Whisper model"@, CheckStatus::Fail, "not found: "@ + path)
    }
}

/// The model check.
pub fn model_check(path: &str, exists: bool) -> (r: CheckResult)
    ensures
        check_view(r) == spec_model_check(path@, exists),
{
    if exists {
        CheckResult { label: "Whisper model", status: CheckStatus::Pass, detail: String::from_str(path) }
    } else {
        let mut d = String::from_str("not found: ");
        push_str(&mut d, path);
        CheckResult { label: "Whisper model", status: CheckStatus::Fail, detail: d }
    }
}

/// The audio check: passes with the name of a PipeWire input device; without
/// one it warns when some default input exists and fails otherwise.
pub open spec fn spec_audio_check(pipewire_name: Option<Seq<char>>, default_input_exists: bool) -> (Seq<char>, CheckStatus, Seq<char>) {
    match pipewire_name {
        Some(n) => ("Audio device"@, CheckStatus::Pass, "found: \""@ + n + "\""@),
        None => if default_input_exists {
            ("Audio device"@, CheckStatus::Warn, "pipewire not found; will use default input device"@)
        } else {
            ("Audio device"@, CheckStatus::Fail, "no audio input devices found"@)
        },
    }
}

/// The audio check.
pub fn audio_check(pipewire_name: Option<&str>, default_input_exists: bool) -> (r: CheckResult)
    ensures
        check_view(r) == spec_audio_check(opt_view(pipewire_name), default_input_exists),
{
    match pipewire_name {
        Some(n) => {
            let mut d = String::from_str("found: \"");
            push_str(&mut d, n);
            push_str(&mut d, "\"");
            CheckResult { label: "Audio device", status: CheckStatus::Pass, detail: d }
        },
        None => if default_input_exists {
            CheckResult {
                label: "Audio device",
                status: CheckStatus::Warn,
                detail: String::from_str("pipewire not found; will use default input device"),
            }
        } else {
            CheckResult {
                label: "Audio device",
                status: CheckStatus::Fail,
                detail: String::from_str("no audio input devices found"),
            }
        },
    }
}

/// Where a program was found: beside the wizard (`beside_exe`, when that file
/// exists), else the trimmed answer of `which`, else a warning that it is not
/// on the search path.
pub fn find_binary(name: &str, beside_exe: Option<&str>, which_output: Option<&str>) -> (r: (
    CheckStatus,
    String,
))
    ensures
        (r.0, r.1@) == find_binary_spec(name@, beside_exe, which_output),
{
    match beside_exe {
        Some(p) => (CheckStatus::Pass, String::from_str(p)),
        None => match which_output {
            Some(w) => (CheckStatus::Pass, crate::text::trim_str(w)),
            None => {
                let mut d = String::from_str(name);
                push_str(&mut d, " not found in PATH");
                (CheckStatus::Warn, d)
            },
        },
    }
}

/// The check of one of the tool's programs, named `name`, with the label `label`.
pub fn binary_check(label: &'static str, name: &str, beside_exe: Option<&str>, which_output: Option<&str>) -> (r:
    CheckResult)
    ensures
        r.label == label,
        check_view(r) == spec_binary_check(label@, name@, beside_exe, which_output),
{
    let (status, detail) = find_binary(name, beside_exe, which_output);
    CheckResult { label, status, detail }
}

/// The check of one of the tool's programs.
pub open spec fn spec_binary_check(label: Seq<char>, name: Seq<char>, beside_exe: Option<&str>, which_output: Option<&str>) -> (Seq<char>, CheckStatus, Seq<char>) {
    (label, find_binary_spec(name, beside_exe, which_output).0, find_binary_spec(name, beside_exe, which_output).1)
}

/// What `find_binary` answers.
pub open spec fn find_binary_spec(name: Seq<char>, beside_exe: Option<&str>, which_output: Option<&str>) -> (CheckStatus, Seq<char>) {
    match beside_exe {
        Some(p) => (CheckStatus::Pass, p@),
        None => match which_output {
            Some(w) => (CheckStatus::Pass, crate::text::trim(w@)),
            None => (CheckStatus::Warn, name + " not found in PATH"@),
        },
    }
}

} // verus!

verus! {

/// The prerequisite checks, in the order the wizard shows them, from what was
/// probed: the GPU device node and `nvidia-smi`, the model file at
/// `model_path` and whether it exists, the PipeWire device's name and whether
/// a default input exists, and where the two programs were found (beside the
/// wizard, or by `which`).
pub fn assemble_checks(
    gpu_node: bool,
    smi_ok: bool,
    model_path: &str,
    model_exists: bool,
    pipewire_name: Option<&str>,
    default_input_exists: bool,
    input_beside: Option<&str>,
    input_which: Option<&str>,
    ambient_beside: Option<&str>,
    ambient_which: Option<&str>,
) -> (r: Vec<CheckResult>)
    ensures
        r@.len() == 5,
        check_view(r@[0]) == spec_gpu_check(gpu_node, smi_ok),
        check_view(r@[1]) == spec_model_check(model_path@, model_exists),
        check_view(r@[2]) == spec_audio_check(opt_view(pipewire_name), default_input_exists),
        check_view(r@[3]) == spec_binary_check("voice-input binary"@, "voice-input"@, input_beside, input_which),
        check_view(r@[4]) == spec_binary_check("voice-ambient binary"@, "voice-ambient"@, ambient_beside, ambient_which),
{
    let mut r: Vec<CheckResult> = Vec::new();
    r.push(gpu_check(gpu_node, smi_ok));
    r.push(model_check(model_path, model_exists));
    r.push(audio_check(pipewire_name, default_input_exists));
    r.push(binary_check("voice-input binary", "voice-input", input_beside, input_which));
    r.push(binary_check("voice-ambient binary", "voice-ambient", ambient_beside, ambient_which));
    r
}

/// How a check is shown: its glyph with two spaces before and one after, the
/// glyph's color, and the label padded to 24 characters.
pub struct CheckRow {
    pub glyph: String,
    pub color: Color,
    pub label: String,
}

/// The glyph and color of an outcome.
pub open spec fn status_glyph(st: CheckStatus) -> (Seq<char>, Color) {
    match st {
        CheckStatus::Pass => ("[OK]"@, Color::Green),
        CheckStatus::Warn => ("[!!]"@, Color::Yellow),
        CheckStatus::Fail => ("[XX]"@, Color::Red),
    }
}

/// How the check `c` is shown in the list of checks.
pub fn check_row(c: &CheckResult) -> (r: CheckRow)
    ensures
        r.glyph@ == "  "@ + status_glyph(c.status).0 + " "@,
        r.color == status_glyph(c.status).1,
        r.label@ == crate::text::pad_right(c.label@, 24),
{
    let (g, color) = match c.status {
        CheckStatus::Pass => ("[OK]", Color::Green),
        CheckStatus::Warn => ("[!!]", Color::Yellow),
        CheckStatus::Fail => ("[XX]", Color::Red),
    };
    let mut glyph = String::from_str("  ");
    push_str(&mut glyph, g);
    push_str(&mut glyph, " ");
    let mut label = String::new();
    crate::text::push_padded(&mut label, c.label, 24);
    assert(label@ =~= crate::text::pad_right(c.label@, 24));
    CheckRow { glyph, color, label }
}

/// The name column of row `i` of the mode list.
pub open spec fn mode_label(i: int) -> Seq<char> {
    if i == 0 {
        "type   "@
    } else if i == 1 {
        "print  "@
    } else if i == 2 {
        "clip   "@
    } else {
        "ambient"@
    }
}

/// The description of row `i` of the mode list.
pub open spec fn mode_description(i: int) -> Seq<char> {
    if i == 0 {
        "record speech → transcribe → type into active window (X11)"@
    } else if i == 1 {
        "record speech → transcribe → print to stdout"@
    } else if i == 2 {
        "record speech → transcribe → copy to clipboard"@
    } else {
        "continuous ambient TUI  ·  live transcript  ·  SQLite logging"@
    }
}

/// One row of the mode list.
pub struct ModeRow {
    /// The pointer, the padded name and the dash.
    pub text: String,
    pub description: &'static str,
    pub selected: bool,
}

fn mode_row(i: usize, cursor: usize) -> (r: ModeRow)
    requires
        i < 4,
    ensures
        r.selected == (i == cursor),
        r.text@ == (if i == cursor { "▶ "@ } else { "  "@ }) + "  "@ + crate::text::pad_right(mode_label(i as int), 8)
            + "  —  "@,
        r.description@ == mode_description(i as int),
{
    let (label, description) = if i == 0 {
        ("type   ", "record speech → transcribe → type into active window (X11)")
    } else if i == 1 {
        ("print  ", "record speech → transcribe → print to stdout")
    } else if i == 2 {
        ("clip   ", "record speech → transcribe → copy to clipboard")
    } else {
        ("ambient", "continuous ambient TUI  ·  live transcript  ·  SQLite logging")
    };
    let selected = i == cursor;
    let mut text = String::new();
    if selected {
        push_str(&mut text, "▶ ");
    } else {
        push_str(&mut text, "  ");
    }
    push_str(&mut text, "  ");
    crate::text::push_padded(&mut text, label, 8);
    push_str(&mut text, "  —  ");
    assert(text@ =~= (if selected { "▶ "@ } else { "  "@ }) + "  "@ + crate::text::pad_right(label@, 8) + "  —  "@);
    ModeRow { text, description, selected }
}

/// The four rows of the mode list, the row at `cursor` highlighted.
pub fn mode_rows(cursor: usize) -> (rows: Vec<ModeRow>)
    ensures
        rows@.len() == 4,
        forall|i: int| 0 <= i < 4 ==> {
            &&& (#[trigger] rows@[i]).selected == (i == cursor)
            &&& rows@[i].text@ == (if i == cursor { "▶ "@ } else { "  "@ }) + "  "@ + crate::text::pad_right(
                mode_label(i),
                8,
            ) + "  —  "@
            &&& rows@[i].description@ == mode_description(i)
        },
{
    let mut rows: Vec<ModeRow> = Vec::new();
    let mut i: usize = 0;
    while i < 4
        invariant
            i <= 4,
            rows@.len() == i,
            forall|j: int| 0 <= j < i ==> {
                &&& (#[trigger] rows@[j]).selected == (j == cursor)
                &&& rows@[j].text@ == (if j == cursor { "▶ "@ } else { "  "@ }) + "  "@ + crate::text::pad_right(
                    mode_label(j),
                    8,
                ) + "  —  "@
                &&& rows@[j].description@ == mode_description(j)
            },
        decreases 4 - i,
    {
        rows.push(mode_row(i, cursor));
        i = i + 1;
    }
    rows
}

} // verus!

verus! {

/// In the mode list, Up moves the highlight one row up and changes nothing
/// else; at the top it stays. Down then Up from any row but the last returns
/// to the same state.
pub proof fn lemma_mode_list_up_down(a: WizardApp, up: KeyInput, down: KeyInput)
    requires
        a.page == Page::ModeSelect,
        up.code == KeyCode::Up,
        down.code == KeyCode::Down,
    ensures
        a.mode_cursor > 0 ==> spec_handle_key(a, up) == (
            WizardApp { mode_cursor: (a.mode_cursor - 1) as usize, ..a },
            WizardAction::Nothing,
        ),
        a.mode_cursor == 0 ==> spec_handle_key(a, up).0 == a,
        a.mode_cursor < 3 ==> spec_handle_key(a, down).0.mode_cursor == a.mode_cursor + 1,
        a.mode_cursor >= 3 ==> spec_handle_key(a, down).0 == a,
        a.mode_cursor < 3 ==> spec_handle_key(spec_handle_key(a, down).0, up).0 == a,
{
}

/// In the options list, Up moves the highlight one row up and Down one row
/// down within the rows of the chosen mode, changing nothing else; Down then
/// Up from any row but the last returns to the same state.
pub proof fn lemma_option_list_up_down(a: WizardApp, up: KeyInput, down: KeyInput)
    requires
        wf(a),
        a.page == Page::Options,
        up.code == KeyCode::Up,
        down.code == KeyCode::Down,
    ensures
        a.opt_cursor > 0 ==> spec_handle_key(a, up) == (
            WizardApp { opt_cursor: (a.opt_cursor - 1) as usize, ..a },
            WizardAction::Nothing,
        ),
        a.selected_mode matches Some(m) && a.opt_cursor + 1 < spec_option_count(m) ==> spec_handle_key(
            a,
            down,
        ) == (WizardApp { opt_cursor: (a.opt_cursor + 1) as usize, ..a }, WizardAction::Nothing),
        a.selected_mode matches Some(m) && a.opt_cursor + 1 >= spec_option_count(m) ==> spec_handle_key(
            a,
            down,
        ).0 == a,
        a.selected_mode matches Some(m) && a.opt_cursor + 1 < spec_option_count(m) ==> spec_handle_key(
            spec_handle_key(a, down).0,
            up,
        ).0 == a,
{
}

/// Choosing a mode with Enter selects the mode of the highlighted row.
pub proof fn lemma_enter_selects_highlighted_mode(a: WizardApp, enter: KeyInput)
    requires
        a.page == Page::ModeSelect,
        enter.code == KeyCode::Enter,
    ensures
        spec_handle_key(a, enter).0.page == Page::Options,
        spec_handle_key(a, enter).0.selected_mode == Some(
            if a.mode_cursor == 0 {
                Mode::Type
            } else if a.mode_cursor == 1 {
                Mode::Print
            } else if a.mode_cursor == 2 {
                Mode::Clip
            } else {
                Mode::Ambient
            },
        ),
        spec_handle_key(a, enter).0.opt_cursor == 0,
{
}

/// Whether `w` is among the words `ws`.
pub open spec fn has_word(ws: Seq<Seq<char>>, w: Seq<char>) -> bool {
    exists|i: int| 0 <= i < ws.len() && ws[i] == w
}

/// The command a chosen mode gives: `voice-input --mode <mode>` first; then,
/// whatever the mode, `--model <name>` exactly when the chosen model is not
/// large-v3; `--submit` exactly when typing with auto-submit; `--no-save`
/// exactly when ambient without transcript file; and `--db <home>/...` last,
/// exactly when ambient with the session database.
pub proof fn lemma_command_words(a: WizardApp, home: Seq<char>)
    requires
        a.selected_mode is Some,
        a.opt_model_idx < MODEL_COUNT,
    ensures
        ({
            let w = command_parts(a, home);
            let m = a.selected_mode->0;
            &&& w.len() >= 3
            &&& w[0] == "voice-input"@ && w[1] == "--mode"@ && w[2] == mode_name(m)
            &&& has_word(w, "--model"@) == (a.opt_model_idx != 0)
            &&& a.opt_model_idx != 0 ==> w[3] == "--model"@ && w[4] == model_name(a.opt_model_idx as int)
            &&& has_word(w, "--submit"@) == (m == Mode::Type && a.opt_submit)
            &&& has_word(w, "--no-save"@) == (m == Mode::Ambient && a.opt_no_save)
            &&& has_word(w, "--db"@) == (m == Mode::Ambient && a.opt_db_enabled)
            &&& (m == Mode::Ambient && a.opt_db_enabled) ==> w[w.len() - 2] == "--db"@ && w.last()
                == sessions_db_path(home)
        }),
{
    reveal_strlit("voice-input");
    reveal_strlit("--mode");
    reveal_strlit("--model");
    reveal_strlit("--submit");
    reveal_strlit("--no-save");
    reveal_strlit("--db");
    reveal_strlit("type");
    reveal_strlit("print");
    reveal_strlit("clip");
    reveal_strlit("ambient");
    reveal_strlit("large-v3");
    reveal_strlit("large-v2");
    reveal_strlit("medium");
    reveal_strlit("small");
    reveal_strlit("base");
    reveal_strlit("/.local/share/voice-input/sessions.db");
    lemma_model_is_default(a.opt_model_idx as int);
    let w = command_parts(a, home);
    let m = a.selected_mode->0;
    // every word is one of the fixed words, a mode or model name, or the
    // database path, and the four flags differ from all others but themselves
    assert(sessions_db_path(home).len() > 8);
    assert forall|i: int| 0 <= i < w.len() implies {
        let x = #[trigger] w[i];
        &&& (x == "--model"@ ==> a.opt_model_idx != 0 && i == 3)
        &&& (x == "--submit"@ ==> m == Mode::Type && a.opt_submit)
        &&& (x == "--no-save"@ ==> m == Mode::Ambient && a.opt_no_save)
        &&& (x == "--db"@ ==> m == Mode::Ambient && a.opt_db_enabled)
    } by {
        let x = w[i];
        if x == "--model"@ || x == "--submit"@ || x == "--no-save"@ || x == "--db"@ {
            assert(x.len() >= 4 && x[0] == '-' && x[1] == '-');
            assert(x[2] == 'm' || x[2] == 's' || x[2] == 'n' || x[2] == 'd');
        }
    }
    if a.opt_model_idx != 0 {
        assert(w[3] == "--model"@);
    }
    if m == Mode::Type && a.opt_submit {
        assert(w[w.len() - 1] == "--submit"@);
    }
    if m == Mode::Ambient && a.opt_no_save {
        let k = if a.opt_model_idx != 0 { 5int } else { 3int };
        assert(w[k] == "--no-save"@);
    }
    if m == Mode::Ambient && a.opt_db_enabled {
        assert(w[w.len() - 2] == "--db"@);
    }
}

} // verus!
