//! Choosing the audio input device by name.
use vstd::prelude::*;

use crate::text::{contains, spec_contains};

verus! {

/// The lower-case form of `s` under Unicode case mapping.
pub uninterp spec fn lowercase(s: Seq<char>) -> Seq<char>;

/// Lower-cases `s` with `str::to_lowercase`; the result depends on `s` alone.
#[verifier::external_body]
fn to_lowercase(s: &str) -> (r: String)
    ensures
        r@ == lowercase(s@),
{
    s.to_lowercase()
}

/// The name of the PipeWire virtual input device.
pub open spec fn pipewire_name() -> Seq<char> {
    "pipewire"@
}

/// Whether the device name `o` was read and equals `wanted`.
pub open spec fn named(o: Option<String>, wanted: Seq<char>) -> bool {
    o matches Some(m) && m@ == wanted
}

/// Whether the device name `o` was read and matches `hint` ignoring case.
pub open spec fn hinted(o: Option<String>, hint: Seq<char>) -> bool {
    o matches Some(m) && name_matches_hint(m@, hint)
}

/// The index of the first device whose name is `wanted`; devices whose name
/// could not be read (`None`) never match.
pub fn find_device_named(names: &Vec<Option<String>>, wanted: &str) -> (r: Option<usize>)
    ensures
        match r {
            Some(i) => i < names@.len() && named(names@[i as int], wanted@)
                && forall|j: int| 0 <= j < i ==> !named(#[trigger] names@[j], wanted@),
            None => forall|j: int| 0 <= j < names@.len() ==> !named(#[trigger] names@[j], wanted@),
        },
{
    let w = String::from_str(wanted);
    let mut i: usize = 0;
    while i < names.len()
        invariant
            i <= names@.len(),
            w@ == wanted@,
            forall|j: int| 0 <= j < i ==> !named(#[trigger] names@[j], wanted@),
        decreases names@.len() - i,
    {
        match &names[i] {
            Some(n) => {
                if *n == w {
                    return Some(i);
                }
            },
            None => {},
        }
        i = i + 1;
    }
    None
}

/// Whether a device name matches `hint` ignoring case.
pub open spec fn name_matches_hint(name: Seq<char>, hint: Seq<char>) -> bool {
    spec_contains(lowercase(name), lowercase(hint))
}

/// The index of the first device whose name contains `hint`, both lower-cased;
/// devices whose name could not be read (`None`) never match.
pub fn find_device_containing(names: &Vec<Option<String>>, hint: &str) -> (r: Option<usize>)
    ensures
        match r {
            Some(i) => i < names@.len() && hinted(names@[i as int], hint@)
                && forall|j: int| 0 <= j < i ==> !hinted(#[trigger] names@[j], hint@),
            None => forall|j: int| 0 <= j < names@.len() ==> !hinted(#[trigger] names@[j], hint@),
        },
{
    let h = to_lowercase(hint);
    let mut i: usize = 0;
    while i < names.len()
        invariant
            i <= names@.len(),
            h@ == lowercase(hint@),
            forall|j: int| 0 <= j < i ==> !hinted(#[trigger] names@[j], hint@),
        decreases names@.len() - i,
    {
        match &names[i] {
            Some(n) => {
                let l = to_lowercase(n.as_str());
                if contains(l.as_str(), h.as_str()) {
                    return Some(i);
                }
            },
            None => {},
        }
        i = i + 1;
    }
    None
}

} // verus!
