//! Model location, device choice for loading the model, and assembling the
//! transcript from the recognizer's segments.
use vstd::prelude::*;

use crate::text::{
    eq_ignore_ascii_case, join_with_spaces, join_words, parse_i32, parse_u64, push_str,
    spec_eq_ignore_ascii_case, spec_parse_i32, spec_parse_u64, trim, trim_str, views,
};

verus! {

/// Free video memory (MiB) a GPU needs before the model is loaded onto it.
pub const MIN_VRAM_MB: u64 = 3800;

/// The model file of the model `name` under the home directory `home`:
/// `<home>/.cache/whisper/ggml-<name>.bin`.
pub open spec fn spec_default_model_path(home: Seq<char>, name: Seq<char>) -> Seq<char> {
    home + "/.cache/whisper/ggml-"@ + name + ".bin"@
}

/// The model file of the model `model_name` under the home directory `home`.
pub fn default_model_path(home: &str, model_name: &str) -> (p: String)
    ensures
        p@ == spec_default_model_path(home@, model_name@),
{
    let mut p = String::from_str(home);
    push_str(&mut p, "/.cache/whisper/ggml-");
    push_str(&mut p, model_name);
    push_str(&mut p, ".bin");
    p
}

/// The free memory reported by `nvidia-smi` in CSV without header or units.
pub fn parse_free_vram(output: &str) -> (r: Option<u64>)
    ensures
        r == spec_parse_u64(trim(output@)),
{
    let t = trim_str(output);
    parse_u64(t.as_str())
}

/// Whether the value of the variable that disables the GPU asks for the CPU:
/// `1` or `true` in any ASCII case.
pub open spec fn spec_gpu_disabled(value: Option<Seq<char>>) -> bool {
    match value {
        Some(v) => v == "1"@ || spec_eq_ignore_ascii_case(v, "true"@),
        None => false,
    }
}

/// Whether the value of the variable that disables the GPU asks for the CPU.
pub fn gpu_disabled(value: Option<&str>) -> (r: bool)
    ensures
        r == spec_gpu_disabled(match value { Some(v) => Some(v@), None => None }),
{
    match value {
        Some(v) => {
            let s = String::from_str(v);
            let one = String::from_str("1");
            s == one || eq_ignore_ascii_case(v, "true")
        },
        None => false,
    }
}

/// The GPUs to try in order: the device named by the override variable when
/// its value is a number, otherwise device 1 and then device 0.
pub open spec fn spec_gpu_devices(value: Option<Seq<char>>) -> Seq<i32> {
    match value {
        Some(v) => match spec_parse_i32(v) {
            Some(d) => seq![d],
            None => seq![1i32, 0i32],
        },
        None => seq![1i32, 0i32],
    }
}

/// The GPUs to try in order.
pub fn gpu_devices(value: Option<&str>) -> (d: Vec<i32>)
    ensures
        d@ == spec_gpu_devices(match value { Some(v) => Some(v@), None => None }),
{
    let parsed = match value {
        Some(v) => parse_i32(v),
        None => None,
    };
    match parsed {
        Some(x) => {
            let mut d = Vec::new();
            d.push(x);
            assert(d@ =~= seq![x]);
            d
        },
        None => {
            let mut d = Vec::new();
            d.push(1i32);
            d.push(0i32);
            assert(d@ =~= seq![1i32, 0i32]);
            d
        },
    }
}

/// Where the loading of the model stands.
#[derive(Clone, Copy, Debug, PartialEq, Eq, Structural)]
pub enum LoadStage {
    /// Nothing done yet.
    Idle,
    /// Waiting for the free memory of the current GPU.
    AwaitVram,
    /// Waiting for the model to load onto the current GPU.
    AwaitLoad,
    /// The model is loaded, or loading on the CPU was asked for.
    Finished,
}

/// What the surrounding program must do next to load the model.
#[derive(Clone, Copy, Debug, PartialEq, Eq, Structural)]
pub enum LoadAction {
    /// Query the free memory of this GPU.
    QueryVram(i32),
    /// Load the model onto this GPU.
    LoadGpu(i32),
    /// Load the model on the CPU.
    LoadCpu,
    /// The model is loaded on this GPU.
    UseGpu(i32),
}

/// The decisions of loading the model: the GPUs are tried in order, each
/// only when it has enough free memory, and the CPU is the last resort.
pub struct GpuLoader {
    pub force_cpu: bool,
    pub devices: Vec<i32>,
    /// The GPU being tried, as an index into `devices`.
    pub pos: usize,
    pub stage: LoadStage,
}

impl GpuLoader {
    /// The step taken when GPU number `pos` is next: query it, or load on the
    /// CPU when none is left.
    pub open spec fn next_from(self, pos: int) -> (LoadStage, LoadAction) {
        if pos < self.devices@.len() {
            (LoadStage::AwaitVram, LoadAction::QueryVram(self.devices@[pos]))
        } else {
            (LoadStage::Finished, LoadAction::LoadCpu)
        }
    }

    /// A loader for the values of the variables that disable the GPU and name
    /// the GPU to use.
    pub fn new(no_gpu: Option<&str>, device: Option<&str>) -> (l: GpuLoader)
        ensures
            l.force_cpu == spec_gpu_disabled(match no_gpu { Some(v) => Some(v@), None => None }),
            l.devices@ == spec_gpu_devices(match device { Some(v) => Some(v@), None => None }),
            l.pos == 0,
            l.stage == LoadStage::Idle,
    {
        GpuLoader { force_cpu: gpu_disabled(no_gpu), devices: gpu_devices(device), pos: 0, stage: LoadStage::Idle }
    }

    fn advance_to(&mut self, pos: usize) -> (a: LoadAction)
        requires
            pos <= old(self).devices@.len(),
        ensures
            final(self).devices == old(self).devices,
            final(self).force_cpu == old(self).force_cpu,
            final(self).pos == pos,
            (final(self).stage, a) == old(self).next_from(pos as int),
    {
        self.pos = pos;
        if pos < self.devices.len() {
            self.stage = LoadStage::AwaitVram;
            LoadAction::QueryVram(self.devices[pos])
        } else {
            self.stage = LoadStage::Finished;
            LoadAction::LoadCpu
        }
    }

    /// The first step: the CPU when the GPU is disabled, else the first GPU.
    pub fn start(&mut self) -> (a: LoadAction)
        requires
            old(self).stage == LoadStage::Idle,
            old(self).pos == 0,
        ensures
            final(self).devices == old(self).devices,
            final(self).force_cpu == old(self).force_cpu,
            old(self).force_cpu ==> a == LoadAction::LoadCpu && final(self).stage == LoadStage::Finished,
            !old(self).force_cpu ==> (final(self).stage, a) == old(self).next_from(0) && final(self).pos == 0,
    {
        if self.force_cpu {
            self.stage = LoadStage::Finished;
            LoadAction::LoadCpu
        } else {
            self.advance_to(0)
        }
    }

    /// The step after learning the free memory (MiB) of the current GPU, or
    /// that it could not be queried: load onto it when it has at least
    /// `MIN_VRAM_MB`, otherwise skip to the next GPU.
    pub fn on_vram(&mut self, free: Option<u64>) -> (a: LoadAction)
        requires
            old(self).stage == LoadStage::AwaitVram,
            old(self).pos < old(self).devices@.len(),
        ensures
            final(self).devices == old(self).devices,
            final(self).force_cpu == old(self).force_cpu,
            (free matches Some(f) && f >= MIN_VRAM_MB) ==> a == LoadAction::LoadGpu(
                old(self).devices@[old(self).pos as int],
            ) && final(self).stage == LoadStage::AwaitLoad && final(self).pos == old(self).pos,
            !(free matches Some(f) && f >= MIN_VRAM_MB) ==> final(self).pos == old(self).pos + 1
                && (final(self).stage, a) == old(self).next_from(old(self).pos + 1),
    {
        let enough = match free {
            Some(f) => f >= MIN_VRAM_MB,
            None => false,
        };
        if enough {
            self.stage = LoadStage::AwaitLoad;
            LoadAction::LoadGpu(self.devices[self.pos])
        } else {
            let n = self.devices.len();
            assert(self.pos < n);
            let p = self.pos + 1;
            self.advance_to(p)
        }
    }

    /// The step after trying to load onto the current GPU: use it when the
    /// load succeeded, otherwise go on to the next GPU.
    pub fn on_load(&mut self, loaded: bool) -> (a: LoadAction)
        requires
            old(self).stage == LoadStage::AwaitLoad,
            old(self).pos < old(self).devices@.len(),
        ensures
            final(self).devices == old(self).devices,
            final(self).force_cpu == old(self).force_cpu,
            loaded ==> a == LoadAction::UseGpu(old(self).devices@[old(self).pos as int])
                && final(self).stage == LoadStage::Finished,
            !loaded ==> final(self).pos == old(self).pos + 1
                && (final(self).stage, a) == old(self).next_from(old(self).pos + 1),
    {
        if loaded {
            self.stage = LoadStage::Finished;
            LoadAction::UseGpu(self.devices[self.pos])
        } else {
            let n = self.devices.len();
            assert(self.pos < n);
            let p = self.pos + 1;
            self.advance_to(p)
        }
    }
}

} // verus!

verus! {

/// The trimmed segments of a recognition that are not empty, in order.
pub open spec fn kept_segments(segs: Seq<Seq<char>>) -> Seq<Seq<char>>
    decreases segs.len(),
{
    if segs.len() == 0 {
        Seq::empty()
    } else {
        let k = kept_segments(segs.drop_last());
        let t = trim(segs.last());
        if t.len() > 0 { k.push(t) } else { k }
    }
}

/// The transcript of a recognition: its non-empty trimmed segments joined by
/// single spaces, or nothing when there are none.
pub open spec fn spec_join_segments(segs: Seq<Seq<char>>) -> Option<Seq<char>> {
    let k = kept_segments(segs);
    if k.len() == 0 { None } else { Some(join_words(k)) }
}

/// The transcript of a recognition whose segments read `segments`.
pub fn join_segments(segments: &Vec<String>) -> (r: Option<String>)
    ensures
        match r {
            Some(t) => spec_join_segments(views(segments@)) == Some(t@),
            None => spec_join_segments(views(segments@)) is None,
        },
{
    let mut parts: Vec<String> = Vec::new();
    let mut i: usize = 0;
    while i < segments.len()
        invariant
            i <= segments@.len(),
            views(parts@) == kept_segments(views(segments@).take(i as int)),
        decreases segments@.len() - i,
    {
        let ghost s = views(segments@).take(i as int + 1);
        assert(s.drop_last() =~= views(segments@).take(i as int));
        let t = trim_str(segments[i].as_str());
        if !t.as_str().is_empty() {
            let ghost before = views(parts@);
            parts.push(t);
            assert(views(parts@) =~= before.push(t@));
        } else {
            assert(t@.len() == 0);
        }
        i = i + 1;
    }
    assert(views(segments@).take(i as int) =~= views(segments@));
    if parts.len() == 0 {
        None
    } else {
        Some(join_with_spaces(&parts))
    }
}

} // verus!

verus! {

proof fn lemma_kept_tight(segs: Seq<Seq<char>>)
    ensures
        forall|i: int| 0 <= i < kept_segments(segs).len() ==> crate::text::tight(#[trigger] kept_segments(segs)[i]),
    decreases segs.len(),
{
    if segs.len() > 0 {
        lemma_kept_tight(segs.drop_last());
        crate::text::lemma_trim_is_tight(segs.last());
        let k = kept_segments(segs.drop_last());
        let t = trim(segs.last());
        if t.len() > 0 {
            assert forall|i: int| 0 <= i < k.push(t).len() implies crate::text::tight(#[trigger] k.push(t)[i]) by {
                if i < k.len() {
                    assert(k.push(t)[i] == k[i]);
                }
            }
        }
    }
}

/// A transcript, when there is one, is non-empty and has no white space at
/// either end, so trimming it again changes nothing.
pub proof fn lemma_transcript_is_trimmed(segs: Seq<Seq<char>>)
    requires
        spec_join_segments(segs) is Some,
    ensures
        crate::text::tight(spec_join_segments(segs)->0),
        trim(spec_join_segments(segs)->0) == spec_join_segments(segs)->0,
{
    lemma_kept_tight(segs);
    crate::text::lemma_join_tight(kept_segments(segs));
    crate::text::lemma_trim_no_edge_space(spec_join_segments(segs)->0);
}

} // verus!

verus! {

/// The GPU named by the override variable is the only one tried: when its
/// value reads as the number `d`, the list is exactly `[d]`; in particular a
/// value written as `d` in decimal names `d`. Without the variable, device 1
/// is tried before device 0.
pub proof fn lemma_named_gpu_is_the_only_one(v: Seq<char>, d: i32)
    ensures
        spec_parse_i32(v) == Some(d) ==> spec_gpu_devices(Some(v)) == seq![d],
        spec_gpu_devices(Some(crate::text::signed_decimal(d as int))) == seq![d],
        spec_gpu_devices(None) == seq![1i32, 0i32],
{
    crate::text::lemma_parse_i32_of_decimal(d);
}

/// A loader whose only GPU is `d` first asks for the free memory of `d`, and
/// after `d` is refused or fails to load it loads on the CPU.
pub proof fn lemma_single_gpu_loader(l: GpuLoader, d: i32)
    requires
        l.devices@ == seq![d],
    ensures
        l.next_from(0) == (LoadStage::AwaitVram, LoadAction::QueryVram(d)),
        l.next_from(1) == (LoadStage::Finished, LoadAction::LoadCpu),
{
}

/// The free memory `nvidia-smi` reports as `n` on a line of its own reads as `n`.
pub proof fn lemma_free_vram_reads_back(n: u64)
    ensures
        spec_parse_u64(trim(crate::text::decimal(n as nat).push('\n'))) == Some(n),
{
    let s = crate::text::decimal(n as nat);
    crate::text::lemma_decimal_reads_back(n as nat);
    let t = s.push('\n');
    assert(t.drop_last() =~= s);
    assert(crate::text::trim_end(t) == crate::text::trim_end(s));
    assert(crate::text::is_digit(s[0]));
    assert(crate::text::is_digit(s.last()));
    assert(crate::text::trim_start(t) == t);
    crate::text::lemma_trim_no_edge_space(s);
    crate::text::lemma_parse_u64_of_decimal(n);
}

proof fn lemma_kept_concat(a: Seq<Seq<char>>, b: Seq<Seq<char>>)
    ensures
        kept_segments(a + b) == kept_segments(a) + kept_segments(b),
    decreases b.len(),
{
    if b.len() == 0 {
        assert(a + b =~= a);
        assert(kept_segments(a) + kept_segments(b) =~= kept_segments(a));
    } else {
        lemma_kept_concat(a, b.drop_last());
        assert((a + b).drop_last() =~= a + b.drop_last());
        assert((a + b).last() == b.last());
        let t = trim(b.last());
        if t.len() > 0 {
            assert(kept_segments(a) + kept_segments(b.drop_last()).push(t) =~= (kept_segments(a) + kept_segments(
                b.drop_last(),
            )).push(t));
        }
    }
}

proof fn lemma_join_concat(a: Seq<Seq<char>>, b: Seq<Seq<char>>)
    requires
        a.len() > 0,
        b.len() > 0,
    ensures
        join_words(a + b) == join_words(a) + seq![' '] + join_words(b),
    decreases b.len(),
{
    if b.len() == 1 {
        assert((a + b).drop_last() =~= a);
        assert((a + b).last() == b[0]);
    } else {
        lemma_join_concat(a, b.drop_last());
        assert((a + b).drop_last() =~= a + b.drop_last());
        assert((a + b).last() == b.last());
        assert(join_words(a + b) =~= join_words(a) + seq![' '] + join_words(b));
    }
}

/// The transcript of one segment is that segment trimmed, or nothing when it
/// is only white space.
pub proof fn lemma_transcript_of_one_segment(x: Seq<char>)
    ensures
        trim(x).len() > 0 ==> spec_join_segments(seq![x]) == Some(trim(x)),
        trim(x).len() == 0 ==> spec_join_segments(seq![x]) is None,
{
    let s = seq![x];
    assert(s.drop_last() =~= Seq::<Seq<char>>::empty());
    assert(s.last() == x);
    assert(kept_segments(s.drop_last()) =~= Seq::<Seq<char>>::empty());
    if trim(x).len() > 0 {
        assert(kept_segments(s) =~= seq![trim(x)]);
        assert(join_words(seq![trim(x)]) == trim(x));
    } else {
        assert(kept_segments(s).len() == 0);
    }
}

/// Recognizing two runs of segments one after the other gives their two
/// transcripts joined by a space; a run with no words adds nothing. So every
/// segment with words reaches the transcript, in order, however many there are.
pub proof fn lemma_transcript_of_concatenation(a: Seq<Seq<char>>, b: Seq<Seq<char>>)
    ensures
        spec_join_segments(a + b) == match (spec_join_segments(a), spec_join_segments(b)) {
            (Some(ta), Some(tb)) => Some(ta + seq![' '] + tb),
            (Some(ta), None) => Some(ta),
            (None, Some(tb)) => Some(tb),
            (None, None) => None,
        },
{
    lemma_kept_concat(a, b);
    let ka = kept_segments(a);
    let kb = kept_segments(b);
    if ka.len() > 0 && kb.len() > 0 {
        lemma_join_concat(ka, kb);
    } else if ka.len() > 0 {
        assert(ka + kb =~= ka);
    } else {
        assert(ka + kb =~= kb);
    }
}

} // verus!
