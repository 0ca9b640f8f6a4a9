//! Command-line arguments of the programs and the decisions taken from them.
use vstd::prelude::*;

use crate::mode::Mode;
use crate::text::{push_str, spec_word_count, trim, trim_str, views};
use crate::whisper::{default_model_path, spec_default_model_path};

verus! {

/// Whether argument `i` is the first occurrence of `flag` that has a value
/// after it, as `args.windows(2).find(|w| w[0] == flag)` finds it.
pub open spec fn is_first_flag(args: Seq<String>, flag: Seq<char>, i: int) -> bool {
    &&& 0 <= i && i + 1 < args.len()
    &&& args[i]@ == flag
    &&& forall|j: int| 0 <= j < i ==> (#[trigger] args[j])@ != flag
}

/// The value following the first `flag` among the arguments `args`.
pub fn get_arg(args: &Vec<String>, flag: &str) -> (r: Option<String>)
    ensures
        match r {
            Some(v) => exists|i: int| #[trigger] is_first_flag(args@, flag@, i) && v@ == args@[i + 1]@,
            None => forall|i: int| 0 <= i && i + 1 < args@.len() ==> (#[trigger] args@[i])@ != flag@,
        },
{
    let f = String::from_str(flag);
    let n = args.len();
    let mut i: usize = 0;
    while n > 0 && i < n - 1
        invariant
            n == args@.len(),
            f@ == flag@,
            forall|j: int| 0 <= j < i ==> (#[trigger] args@[j])@ != flag@,
        decreases n - i,
    {
        if args[i] == f {
            assert(is_first_flag(args@, flag@, i as int));
            return Some(args[i + 1].clone());
        }
        i = i + 1;
    }
    None
}

/// Whether `flag` is among the arguments `args`.
pub fn has_flag(args: &Vec<String>, flag: &str) -> (r: bool)
    ensures
        r == exists|i: int| 0 <= i < args@.len() && (#[trigger] args@[i])@ == flag@,
{
    let f = String::from_str(flag);
    let mut i: usize = 0;
    while i < args.len()
        invariant
            i <= args@.len(),
            f@ == flag@,
            forall|j: int| 0 <= j < i ==> (#[trigger] args@[j])@ != flag@,
        decreases args@.len() - i,
    {
        if args[i] == f {
            return true;
        }
        i = i + 1;
    }
    false
}

/// The model the ambient interface uses: the `--model` value, else the value
/// of the model variable, else large-v3.
pub fn ambient_model_name(arg: Option<String>, env_value: Option<String>) -> (m: String)
    ensures
        m@ == match arg {
            Some(a) => a@,
            None => match env_value {
                Some(e) => e@,
                None => "large-v3"@,
            },
        },
{
    match arg {
        Some(a) => a,
        None => match env_value {
            Some(e) => e,
            None => String::from_str("large-v3"),
        },
    }
}

/// The arguments of the push-to-talk program.
pub struct Args {
    pub mode: Mode,
    /// Model name (e.g. large-v3, medium).
    pub model: String,
    /// A model file given instead of the default one.
    pub model_path: Option<String>,
    /// After typing, also press Return.
    pub submit: bool,
    /// Ambient mode: no transcript file.
    pub no_save: bool,
    /// Ambient mode: database for session logging.
    pub db: Option<String>,
}

impl Args {
    /// The model file to load: the one given, else the default file of the
    /// model under the home directory `home`.
    pub fn resolved_model_path(&self, home: &str) -> (p: String)
        ensures
            p@ == match self.model_path {
                Some(mp) => mp@,
                None => spec_default_model_path(home@, self.model@),
            },
    {
        match &self.model_path {
            Some(mp) => mp.clone(),
            None => default_model_path(home, self.model.as_str()),
        }
    }
}

/// The arguments handed to the ambient program when the push-to-talk program
/// starts it: the model, the model file, and the logging options.
pub open spec fn spec_ambient_args(a: Args, model_path: Seq<char>) -> Seq<Seq<char>> {
    let base = seq!["--model"@, a.model@, "--model-path"@, model_path];
    let with_db = match a.db {
        Some(d) => base + seq!["--db"@, d@],
        None => base,
    };
    if a.no_save { with_db.push("--no-save"@) } else { with_db }
}

/// The arguments handed to the ambient program, with `home` as the home
/// directory.
pub fn ambient_args(args: &Args, home: &str) -> (v: Vec<String>)
    ensures
        views(v@) == spec_ambient_args(*args, match args.model_path {
            Some(mp) => mp@,
            None => spec_default_model_path(home@, args.model@),
        }),
{
    let mp = args.resolved_model_path(home);
    let mut v: Vec<String> = Vec::new();
    v.push(String::from_str("--model"));
    v.push(args.model.clone());
    v.push(String::from_str("--model-path"));
    v.push(mp);
    match &args.db {
        Some(d) => {
            v.push(String::from_str("--db"));
            v.push(d.clone());
        },
        None => {},
    }
    if args.no_save {
        v.push(String::from_str("--no-save"));
    }
    assert(views(v@) =~= spec_ambient_args(*args, match args.model_path {
        Some(mp) => mp@,
        None => spec_default_model_path(home@, args.model@),
    }));
    v
}

/// What the push-to-talk program does with a transcription.
pub enum Delivery {
    /// Nothing was recognized.
    NoTranscription,
    Print(String),
    /// Type the text, then press Return when `submit`.
    Type { text: String, submit: bool },
    Clip(String),
}

/// What to do with the recognized text `recognized` (none when the recording
/// was silent) in mode `mode`: its trimmed text goes where the mode says,
/// unless it is empty.
pub fn plan_delivery(mode: Mode, submit: bool, recognized: Option<String>) -> (d: Delivery)
    requires
        mode != Mode::Ambient,
    ensures
        ({
            let t = trim(match recognized { Some(r) => r@, None => Seq::empty() });
            match d {
                Delivery::NoTranscription => t.len() == 0,
                Delivery::Print(x) => t.len() > 0 && mode == Mode::Print && x@ == t,
                Delivery::Type { text, submit: s } => t.len() > 0 && mode == Mode::Type && text@ == t && s == submit,
                Delivery::Clip(x) => t.len() > 0 && mode == Mode::Clip && x@ == t,
            }
        }),
{
    let raw = match recognized {
        Some(r) => r,
        None => String::new(),
    };
    let text = trim_str(raw.as_str());
    if text.as_str().is_empty() {
        return Delivery::NoTranscription;
    }
    match mode {
        Mode::Print => Delivery::Print(text),
        Mode::Type => Delivery::Type { text, submit },
        _ => Delivery::Clip(text),
    }
}

/// The report after copying `text`: `Copied <n> chars to clipboard`, where
/// `n` is its length in UTF-8 bytes (`str::len`).
pub fn copied_message(text: &str) -> (s: String)
    ensures
        s@ == "Copied "@ + crate::text::decimal(text.len() as nat) + " chars to clipboard"@,
{
    let n = text.len();
    let mut s = String::from_str("Copied ");
    crate::text::push_decimal(&mut s, n as u64);
    push_str(&mut s, " chars to clipboard");
    s
}

} // verus!

verus! {

/// The arguments handed to the ambient program: always `--model <model>
/// --model-path <path>` first; then `--db <db>` exactly when a database was
/// given; and `--no-save` last exactly when saving was turned off, whether or
/// not a database was given.
pub proof fn lemma_ambient_args_shape(a: Args, model_path: Seq<char>)
    ensures
        ({
            let w = spec_ambient_args(a, model_path);
            &&& w.len() == 4 + (if a.db is Some { 2int } else { 0int }) + (if a.no_save { 1int } else { 0int })
            &&& w[0] == "--model"@ && w[1] == a.model@ && w[2] == "--model-path"@ && w[3] == model_path
            &&& a.db matches Some(d) ==> w[4] == "--db"@ && w[5] == d@
            &&& a.no_save ==> w.last() == "--no-save"@
        }),
{
}

/// Starting the ambient program keeps every logging choice: turning saving
/// off adds exactly one argument, `--no-save`, at the end, and giving a
/// database adds exactly `--db <db>` after the model arguments.
pub proof fn lemma_ambient_args_choices(a: Args, model_path: Seq<char>)
    ensures
        spec_ambient_args(Args { no_save: true, ..a }, model_path) == spec_ambient_args(
            Args { no_save: false, ..a },
            model_path,
        ).push("--no-save"@),
        a.db matches Some(d) ==> spec_ambient_args(a, model_path).subrange(4, 6) == seq!["--db"@, d@],
        a.db is None ==> spec_ambient_args(Args { no_save: false, ..a }, model_path).len() == 4,
{
    let w = spec_ambient_args(a, model_path);
    if a.db is Some {
        assert(w.subrange(4, 6) =~= seq!["--db"@, a.db->0@]);
    }
}

} // verus!
