//! The state of the continuous ambient interface and what it shows.
use vstd::prelude::*;

use std::collections::VecDeque;

use crate::keys::{only_control, KeyCode, KeyInput};
use crate::text::{push_decimal, push_decimal_pad2, push_str, decimal, decimal_pad2, spec_word_count, word_count};
use crate::theme::{theme_at, next_theme_idx, Color, Theme, THEME_COUNT};

verus! {

/// Number of level readings the waveform shows.
pub const LEVEL_HISTORY_LEN: usize = 100;

/// Number of utterances the interface keeps.
pub const MAX_UTTERANCES: usize = 500;

/// Nanoseconds between two flips of the REC indicator.
pub const BLINK_INTERVAL_NS: u64 = 500_000_000;

/// Nanoseconds per second.
pub const NANOS_PER_SEC: u64 = 1_000_000_000;

/// One transcribed utterance as the interface shows it.
pub struct Utterance {
    /// The clock part of when it was transcribed.
    pub timestamp: String,
    pub text: String,
    /// When it arrived, in nanoseconds on the interface's clock.
    pub born_ns: u64,
}

/// The state of the ambient interface.
pub struct AmbientApp {
    pub utterances: VecDeque<Utterance>,
    /// Recent signal levels, in percent of full scale, oldest first.
    pub level_history: Vec<u64>,
    /// The latest signal level, in percent of full scale.
    pub current_level: u64,
    pub status_msg: String,
    pub word_count: u64,
    pub utt_count: u64,
    pub start_ns: u64,
    pub blink: bool,
    pub last_blink_ns: u64,
    pub db_path: Option<String>,
    pub transcript_path: Option<String>,
    pub theme_idx: usize,
}

/// A message to the interface from the audio and recognition threads.
pub enum Update {
    Status(String),
    /// A signal level in percent of full scale.
    Level(u64),
    Utterance { ts: String, text: String },
    Quit,
}

/// The states the interface can be in.
pub open spec fn wf(a: AmbientApp) -> bool {
    &&& a.level_history@.len() == LEVEL_HISTORY_LEN
    &&& a.utterances@.len() <= MAX_UTTERANCES
    &&& a.theme_idx < THEME_COUNT
}

/// The last `n` elements of `s` (all of it when it is shorter).
pub open spec fn keep_last<T>(s: Seq<T>, n: nat) -> Seq<T> {
    if s.len() > n {
        s.subrange(s.len() - n, s.len() as int)
    } else {
        s
    }
}

/// Whether `new` is `old` after the utterance `text`, transcribed at `ts`,
/// arrived at `now_ns`: the counts grow by its words and by one, it is
/// appended to the log with the clock part of `ts`, the log keeps the latest
/// `MAX_UTTERANCES`, and nothing else changes.
pub open spec fn utterance_added(old: AmbientApp, new: AmbientApp, ts: Seq<char>, text: String, now_ns: u64) -> bool {
    &&& new.utterances@.len() > 0
    &&& ({
        let u = new.utterances@.last();
        &&& u.text == text
        &&& u.born_ns == now_ns
        &&& crate::text::slice_ok(ts, 11, 19) ==> vstd::utf8::encode_utf8(u.timestamp@)
            == vstd::utf8::encode_utf8(ts).subrange(11, 19)
        &&& !crate::text::slice_ok(ts, 11, 19) ==> u.timestamp@ == ts
        &&& new == (AmbientApp {
            utterances: new.utterances,
            word_count: (old.word_count + spec_word_count(text@)) as u64,
            utt_count: (old.utt_count + 1) as u64,
            ..old
        })
        &&& new.utterances@ == keep_last(old.utterances@.push(u), MAX_UTTERANCES as nat)
    })
}

impl AmbientApp {
    /// The interface at time `now_ns`, logging to `db_path` and
    /// `transcript_path` when given, in theme `theme_idx`.
    pub fn new(db_path: Option<String>, transcript_path: Option<String>, theme_idx: usize, now_ns: u64) -> (a:
        AmbientApp)
        requires
            theme_idx < THEME_COUNT,
        ensures
            wf(a),
            a.utterances@.len() == 0,
            forall|i: int| 0 <= i < LEVEL_HISTORY_LEN ==> a.level_history@[i] == 0,
            a.current_level == 0,
            a.status_msg@ == "Initializing..."@,
            a.word_count == 0,
            a.utt_count == 0,
            a.start_ns == now_ns,
            a.blink,
            a.last_blink_ns == now_ns,
            a.db_path == db_path,
            a.transcript_path == transcript_path,
            a.theme_idx == theme_idx,
    {
        let mut level_history: Vec<u64> = Vec::new();
        let mut i: usize = 0;
        while i < LEVEL_HISTORY_LEN
            invariant
                i <= LEVEL_HISTORY_LEN,
                level_history@.len() == i,
                forall|j: int| 0 <= j < i ==> level_history@[j] == 0,
            decreases LEVEL_HISTORY_LEN - i,
        {
            level_history.push(0);
            i = i + 1;
        }
        AmbientApp {
            utterances: VecDeque::new(),
            level_history,
            current_level: 0,
            status_msg: String::from_str("Initializing..."),
            word_count: 0,
            utt_count: 0,
            start_ns: now_ns,
            blink: true,
            last_blink_ns: now_ns,
            db_path,
            transcript_path,
            theme_idx,
        }
    }

    /// The current theme.
    pub fn theme(&self) -> (t: Theme)
        requires
            self.theme_idx < THEME_COUNT,
        ensures
            t == crate::theme::theme_spec(self.theme_idx as int),
            t.name@ == crate::theme::theme_name(self.theme_idx as int),
    {
        theme_at(self.theme_idx)
    }

    /// Records a signal level; the waveform keeps the latest
    /// `LEVEL_HISTORY_LEN` readings.
    pub fn push_level(&mut self, level: u64)
        ensures
            final(self).current_level == level,
            old(self).level_history@.len() <= LEVEL_HISTORY_LEN ==> final(self).level_history@ == keep_last(
                old(self).level_history@.push(level),
                LEVEL_HISTORY_LEN as nat,
            ),
            *final(self) == (AmbientApp {
                current_level: level,
                level_history: final(self).level_history,
                ..*old(self)
            }),
    {
        self.current_level = level;
        self.level_history.push(level);
        if self.level_history.len() > LEVEL_HISTORY_LEN {
            self.level_history.remove(0);
        }
        proof {
            let p = old(self).level_history@.push(level);
            if old(self).level_history@.len() <= LEVEL_HISTORY_LEN {
                if p.len() > LEVEL_HISTORY_LEN {
                    assert(self.level_history@ =~= keep_last(p, LEVEL_HISTORY_LEN as nat));
                }
            }
        }
    }

    /// Records an utterance transcribed at time `ts`, arriving at `now_ns`;
    /// the word and utterance counts grow and the latest `MAX_UTTERANCES`
    /// utterances are kept.
    pub fn push_utterance(&mut self, ts: String, text: String, now_ns: u64)
        requires
            old(self).word_count + spec_word_count(text@) <= u64::MAX,
            old(self).utt_count < u64::MAX,
        ensures
            utterance_added(*old(self), *final(self), ts@, text, now_ns),
    {
        let wc = word_count(text.as_str());
        self.word_count = self.word_count + wc as u64;
        self.utt_count = self.utt_count + 1;
        let timestamp = crate::clock::display_time(ts.as_str());
        let u = Utterance { timestamp, text, born_ns: now_ns };
        let ghost gu = u;
        self.utterances.push_back(u);
        let ghost full = old(self).utterances@.push(gu);
        let ghost mut k: int = 0;
        while self.utterances.len() > MAX_UTTERANCES
            invariant
                0 <= k <= full.len(),
                full.len() > 0,
                k > 0 ==> full.len() - k >= MAX_UTTERANCES,
                self.word_count == old(self).word_count + spec_word_count(text@),
                self.utt_count == old(self).utt_count + 1,
                *self == (AmbientApp {
                    utterances: self.utterances,
                    word_count: self.word_count,
                    utt_count: self.utt_count,
                    ..*old(self)
                }),
                self.utterances@ == full.subrange(k, full.len() as int),
            decreases self.utterances@.len(),
        {
            self.utterances.pop_front();
            proof {
                k = k + 1;
            }
            assert(self.utterances@ =~= full.subrange(k, full.len() as int));
        }
        proof {
            assert(self.utterances@.last() == gu);
            if full.len() > MAX_UTTERANCES {
                assert(k == full.len() - MAX_UTTERANCES);
            } else {
                assert(k == 0);
                assert(self.utterances@ =~= full);
            }
        }
    }
}

} // verus!

verus! {

/// Seconds elapsed from `start` to `now` (nanoseconds), zero if `now` is earlier.
pub open spec fn elapsed_secs(start: u64, now: u64) -> nat {
    if now >= start { ((now - start) / (NANOS_PER_SEC as int)) as nat } else { 0 }
}

/// A duration in seconds as `HH:MM:SS`, each field at least two digits.
pub open spec fn hms(s: nat) -> Seq<char> {
    decimal_pad2(s / 3600) + seq![':'] + decimal_pad2((s % 3600) / 60) + seq![':'] + decimal_pad2(s % 60)
}

/// Whether, at `now` (nanoseconds), more than a blink interval has passed
/// since `last`.
pub open spec fn blink_due(last: u64, now: u64) -> bool {
    now > last + BLINK_INTERVAL_NS
}

/// Whether a key press leaves the ambient interface: `q`, Escape, or Ctrl-C
/// with no other modifier.
pub open spec fn is_ambient_quit(key: KeyInput) -> bool {
    key.code == KeyCode::Char('q') || key.code == KeyCode::Esc || (key.code == KeyCode::Char('c')
        && only_control(key))
}

/// What the main loop does after a key press.
#[derive(Clone, Copy, Debug, PartialEq, Eq, Structural)]
pub enum KeyOutcome {
    /// Leave the interface.
    Quit,
    /// The theme changed; remember the new one.
    ThemeChanged(usize),
    /// Nothing.
    Ignored,
}

impl AmbientApp {
    /// Flips the REC indicator when more than half a second passed since the
    /// last flip.
    pub fn tick_blink(&mut self, now_ns: u64)
        ensures
            blink_due(old(self).last_blink_ns, now_ns) ==> final(self).blink == !old(self).blink
                && final(self).last_blink_ns == now_ns,
            !blink_due(old(self).last_blink_ns, now_ns) ==> final(self).blink == old(self).blink
                && final(self).last_blink_ns == old(self).last_blink_ns,
            *final(self) == (AmbientApp {
                blink: final(self).blink,
                last_blink_ns: final(self).last_blink_ns,
                ..*old(self)
            }),
    {
        if now_ns >= self.last_blink_ns && now_ns - self.last_blink_ns > BLINK_INTERVAL_NS {
            self.blink = !self.blink;
            self.last_blink_ns = now_ns;
        }
    }

    /// The running time at `now_ns` as `HH:MM:SS`.
    pub fn elapsed_str(&self, now_ns: u64) -> (s: String)
        ensures
            s@ == hms(elapsed_secs(self.start_ns, now_ns)),
    {
        let secs: u64 = if now_ns >= self.start_ns { (now_ns - self.start_ns) / NANOS_PER_SEC } else { 0 };
        let mut s = String::new();
        push_decimal_pad2(&mut s, secs / 3600);
        crate::text::push_char(&mut s, ':');
        push_decimal_pad2(&mut s, (secs % 3600) / 60);
        crate::text::push_char(&mut s, ':');
        push_decimal_pad2(&mut s, secs % 60);
        assert(s@ =~= hms(elapsed_secs(self.start_ns, now_ns)));
        s
    }

    /// Applies a message, received at `now_ns`; answers whether the interface
    /// must close.
    pub fn apply_update(&mut self, u: Update, now_ns: u64) -> (quit: bool)
        requires
            wf(*old(self)),
            u matches Update::Utterance { text, .. } ==> old(self).word_count + spec_word_count(text@) <= u64::MAX
                && old(self).utt_count < u64::MAX,
        ensures
            wf(*final(self)),
            quit == (u is Quit),
            u matches Update::Status(m) ==> *final(self) == (AmbientApp { status_msg: m, ..*old(self) }),
            u matches Update::Level(l) ==> *final(self) == (AmbientApp {
                current_level: l,
                level_history: final(self).level_history,
                ..*old(self)
            }) && final(self).level_history@ == old(self).level_history@.push(l).drop_first(),
            u matches Update::Utterance { ts, text } ==> utterance_added(*old(self), *final(self), ts@, text, now_ns),
            u is Quit ==> *final(self) == *old(self),
    {
        match u {
            Update::Status(m) => {
                self.status_msg = m;
                false
            },
            Update::Level(l) => {
                self.push_level(l);
                assert(keep_last(old(self).level_history@.push(l), LEVEL_HISTORY_LEN as nat)
                    =~= old(self).level_history@.push(l).drop_first());
                false
            },
            Update::Utterance { ts, text } => {
                self.push_utterance(ts, text, now_ns);
                false
            },
            Update::Quit => true,
        }
    }

    /// Applies a key press: `q`, Escape and Ctrl-C quit, `t` moves to the next
    /// theme.
    pub fn handle_key(&mut self, key: KeyInput) -> (r: KeyOutcome)
        requires
            old(self).theme_idx < THEME_COUNT,
        ensures
            is_ambient_quit(key) ==> r == KeyOutcome::Quit && *final(self) == *old(self),
            !is_ambient_quit(key) && key.code == KeyCode::Char('t') ==> final(self).theme_idx == (old(self).theme_idx
                + 1) % (THEME_COUNT as int) && r == KeyOutcome::ThemeChanged(final(self).theme_idx),
            !is_ambient_quit(key) && key.code != KeyCode::Char('t') ==> r == KeyOutcome::Ignored && *final(self)
                == *old(self),
            final(self).theme_idx < THEME_COUNT,
            *final(self) == (AmbientApp { theme_idx: final(self).theme_idx, ..*old(self) }),
    {
        if key.code == KeyCode::Char('q') || key.code == KeyCode::Esc || key.is_only_control_char('c') {
            KeyOutcome::Quit
        } else if key.code == KeyCode::Char('t') {
            self.theme_idx = next_theme_idx(self.theme_idx);
            KeyOutcome::ThemeChanged(self.theme_idx)
        } else {
            KeyOutcome::Ignored
        }
    }
}

/// The gauge's fill in percent for a level: the level, at most 100.
pub fn gauge_percent(level: u64) -> (p: u16)
    ensures
        p == if level > 100 { 100 } else { level },
{
    if level > 100 { 100 } else { level as u16 }
}

/// The gauge's color: green up to 40 %, yellow up to 75 %, red above.
pub fn gauge_color(pct: u16) -> (c: Color)
    ensures
        c == if pct > 75 { Color::Red } else if pct > 40 { Color::Yellow } else { Color::Green },
{
    if pct > 75 {
        Color::Red
    } else if pct > 40 {
        Color::Yellow
    } else {
        Color::Green
    }
}

/// The color of a transcript line `age_secs` seconds old: it fades from the
/// theme's primary color through its text color and gray to its dim color.
pub fn transcript_color(t: &Theme, age_secs: u64) -> (c: Color)
    ensures
        c == if age_secs <= 4 {
            t.primary
        } else if age_secs <= 19 {
            t.text
        } else if age_secs <= 59 {
            Color::Gray
        } else {
            t.dim
        },
{
    if age_secs <= 4 {
        t.primary
    } else if age_secs <= 19 {
        t.text
    } else if age_secs <= 59 {
        Color::Gray
    } else {
        t.dim
    }
}

/// The age in whole seconds at `now_ns` of something born at `born_ns`.
pub fn age_secs(born_ns: u64, now_ns: u64) -> (s: u64)
    ensures
        s == elapsed_secs(born_ns, now_ns),
{
    if now_ns >= born_ns { (now_ns - born_ns) / NANOS_PER_SEC } else { 0 }
}

/// The index of the first of `len` utterances that fits a transcript area
/// `area_height` rows high (two rows go to the border): the latest ones are
/// shown.
pub fn visible_start(len: usize, area_height: u16) -> (start: usize)
    ensures
        ({
            let h: int = if area_height >= 2 { area_height - 2 } else { 0 };
            start == if len <= h { 0 } else { len - h }
        }),
{
    let h: usize = if area_height >= 2 { (area_height - 2) as usize } else { 0 };
    if len <= h { 0 } else { len - h }
}

/// The REC indicator: a filled dot in the theme's recording color when on, a
/// hollow one in its dim color when off.
pub fn rec_indicator(blink: bool, t: &Theme) -> (r: (&'static str, Color))
    ensures
        blink ==> r.0@ == "● REC"@ && r.1 == t.rec_on,
        !blink ==> r.0@ == "○ REC"@ && r.1 == t.dim,
{
    if blink { ("● REC", t.rec_on) } else { ("○ REC", t.dim) }
}

/// The database part of the status line.
pub fn db_label(db_path: Option<&str>) -> (s: String)
    ensures
        db_path matches Some(p) ==> s@ == "DB: "@ + p@ + "  "@,
        db_path is None ==> s@ == "DB: off  "@,
{
    match db_path {
        Some(p) => {
            let mut s = String::from_str("DB: ");
            push_str(&mut s, p);
            push_str(&mut s, "  ");
            s
        },
        None => String::from_str("DB: off  "),
    }
}

/// The last component of the path `p`, as `Path::file_name` finds it.
pub uninterp spec fn file_name_of(p: Seq<char>) -> Option<Seq<char>>;

/// The last component of the path `p` (`Path::file_name`, then
/// `OsStr::to_str`); it depends on `p` alone.
#[verifier::external_body]
fn path_file_name(p: &str) -> (r: Option<String>)
    ensures
        r matches Some(n) ==> file_name_of(p@) == Some(n@),
        r is None ==> file_name_of(p@) is None,
{
    std::path::Path::new(p).file_name().and_then(|n| n.to_str()).map(|n| n.to_string())
}

/// The transcript-file part of the status line: the file's name, or the
/// whole path when it has none.
pub fn save_label(transcript_path: Option<&str>) -> (s: String)
    ensures
        transcript_path is None ==> s@ == "SAVE: off  "@,
        transcript_path matches Some(p) ==> s@ == "SAVE: "@ + (match file_name_of(p@) {
            Some(n) => n,
            None => p@,
        }) + "  "@,
{
    match transcript_path {
        Some(p) => {
            let mut s = String::from_str("SAVE: ");
            match path_file_name(p) {
                Some(n) => push_str(&mut s, n.as_str()),
                None => push_str(&mut s, p),
            }
            push_str(&mut s, "  ");
            s
        },
        None => String::from_str("SAVE: off  "),
    }
}

/// The counters part of the status line: `words: <w>  utt: <u>`.
pub fn stats_label(words: u64, utts: u64) -> (s: String)
    ensures
        s@ == "words: "@ + decimal(words as nat) + "  utt: "@ + decimal(utts as nat),
{
    let mut s = String::from_str("words: ");
    push_decimal(&mut s, words);
    push_str(&mut s, "  utt: ");
    push_decimal(&mut s, utts);
    s
}

} // verus!
