//! The four ways a transcript can be delivered.
use vstd::prelude::*;

verus! {

/// Where a transcript goes.
#[derive(Clone, Copy, Debug, PartialEq, Eq, Structural)]
pub enum Mode {
    /// Typed into the active window.
    Type,
    /// Printed to standard output.
    Print,
    /// Copied to the clipboard.
    Clip,
    /// Continuous transcription in a full-screen interface.
    Ambient,
}

/// The command-line name of a mode.
pub open spec fn mode_name(m: Mode) -> Seq<char> {
    match m {
        Mode::Type => "type"@,
        Mode::Print => "print"@,
        Mode::Clip => "clip"@,
        Mode::Ambient => "ambient"@,
    }
}

impl Mode {
    /// The command-line name of this mode.
    pub fn as_str(&self) -> (s: &'static str)
        ensures
            s@ == mode_name(*self),
    {
        match self {
            Mode::Type => "type",
            Mode::Print => "print",
            Mode::Clip => "clip",
            Mode::Ambient => "ambient",
        }
    }
}

} // verus!
