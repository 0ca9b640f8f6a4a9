//! Batching captured samples into fixed transcription windows, and the
//! integer part of the signal level.
use vstd::prelude::*;

verus! {

/// The capture rate in samples per second (mono).
pub const SAMPLE_RATE: u32 = 32000;

/// Samples per transcription window: five seconds.
pub const CHUNK_SAMPLES: usize = 160000;

/// Nanoseconds between two level reports.
pub const LEVEL_INTERVAL_NS: u64 = 100_000_000;

/// The sample sequences of a list of sample buffers.
pub open spec fn chunk_views(c: Seq<Vec<i16>>) -> Seq<Seq<i16>> {
    c.map_values(|v: Vec<i16>| v@)
}

/// Samples waiting to fill a window, and when the level was last reported.
pub struct AudioAccumulator {
    pub buf: Vec<i16>,
    pub level_last_ns: u64,
}

/// What one batch of new samples yields.
pub struct Feed {
    /// Whether to report the level of the batch now.
    pub send_level: bool,
    /// Complete windows, oldest first.
    pub chunks: Vec<Vec<i16>>,
}

/// Whether, at time `now` (nanoseconds), at least a level interval has passed
/// since `last`.
pub open spec fn level_due(last: u64, now: u64) -> bool {
    now >= last + LEVEL_INTERVAL_NS
}

fn copy_range(src: &Vec<i16>, start: usize, end: usize) -> (v: Vec<i16>)
    requires
        start <= end <= src@.len(),
    ensures
        v@ == src@.subrange(start as int, end as int),
{
    let mut v: Vec<i16> = Vec::new();
    let mut i = start;
    while i < end
        invariant
            start <= i <= end <= src@.len(),
            v@ == src@.subrange(start as int, i as int),
        decreases end - i,
    {
        v.push(src[i]);
        i = i + 1;
        assert(v@ =~= src@.subrange(start as int, i as int));
    }
    v
}

impl AudioAccumulator {
    /// An empty accumulator whose level clock starts at `now_ns`.
    pub fn new(now_ns: u64) -> (a: AudioAccumulator)
        ensures
            a.buf@.len() == 0,
            a.level_last_ns == now_ns,
    {
        AudioAccumulator { buf: Vec::new(), level_last_ns: now_ns }
    }

    /// Takes the samples `new` captured by time `now_ns`: reports the level
    /// when samples arrived and a level interval has passed, and hands out
    /// every complete window. The windows, followed by what stays buffered,
    /// are exactly the buffered samples followed by the new ones, in order.
    pub fn feed(&mut self, new: &[i16], now_ns: u64) -> (f: Feed)
        ensures
            chunk_views(f.chunks@).flatten() + final(self).buf@ == old(self).buf@ + new@,
            forall|i: int| 0 <= i < f.chunks@.len() ==> (#[trigger] f.chunks@[i])@.len() == CHUNK_SAMPLES,
            final(self).buf@.len() < CHUNK_SAMPLES,
            f.send_level == (new@.len() > 0 && level_due(old(self).level_last_ns, now_ns)),
            final(self).level_last_ns == if f.send_level { now_ns } else { old(self).level_last_ns },
    {
        let send_level = new.len() > 0 && now_ns >= self.level_last_ns
            && now_ns - self.level_last_ns >= LEVEL_INTERVAL_NS;
        if send_level {
            self.level_last_ns = now_ns;
        }
        let mut all: Vec<i16> = Vec::new();
        let mut i: usize = 0;
        while i < self.buf.len()
            invariant
                i <= self.buf@.len(),
                self.buf@ == old(self).buf@,
                all@ == self.buf@.take(i as int),
            decreases self.buf@.len() - i,
        {
            all.push(self.buf[i]);
            i = i + 1;
            assert(all@ =~= self.buf@.take(i as int));
        }
        let mut j: usize = 0;
        while j < new.len()
            invariant
                j <= new@.len(),
                self.buf@ == old(self).buf@,
                all@ == old(self).buf@ + new@.take(j as int),
            decreases new@.len() - j,
        {
            all.push(new[j]);
            j = j + 1;
            assert(all@ =~= old(self).buf@ + new@.take(j as int));
        }
        assert(new@.take(new@.len() as int) =~= new@);
        let n = all.len();
        let mut chunks: Vec<Vec<i16>> = Vec::new();
        let mut start: usize = 0;
        while n - start >= CHUNK_SAMPLES
            invariant
                start <= n == all@.len(),
                chunk_views(chunks@).flatten() == all@.subrange(0, start as int),
                forall|i: int| 0 <= i < chunks@.len() ==> (#[trigger] chunks@[i])@.len() == CHUNK_SAMPLES,
            decreases n - start,
        {
            let c = copy_range(&all, start, start + CHUNK_SAMPLES);
            let ghost before = chunk_views(chunks@);
            chunks.push(c);
            proof {
                assert(chunk_views(chunks@) =~= before.push(c@));
                before.lemma_flatten_push(c@);
                assert(all@.subrange(0, start as int) + all@.subrange(start as int, start + CHUNK_SAMPLES)
                    =~= all@.subrange(0, start + CHUNK_SAMPLES));
            }
            start = start + CHUNK_SAMPLES;
        }
        let rest = copy_range(&all, start, n);
        assert(all@.subrange(0, start as int) + rest@ =~= all@);
        self.buf = rest;
        Feed { send_level, chunks }
    }
}

/// The sum of the squares of the samples of `s`.
pub open spec fn sum_of_squares_spec(s: Seq<i16>) -> int
    decreases s.len(),
{
    if s.len() == 0 {
        0
    } else {
        sum_of_squares_spec(s.drop_last()) + s.last() * s.last()
    }
}

proof fn lemma_sum_of_squares_bound(s: Seq<i16>)
    ensures
        0 <= sum_of_squares_spec(s) <= s.len() * 0x4000_0000,
    decreases s.len(),
{
    if s.len() > 0 {
        lemma_sum_of_squares_bound(s.drop_last());
        let x = s.last();
        assert(x * x <= 0x4000_0000) by (nonlinear_arith)
            requires -32768 <= x <= 32767;
        assert(0 <= x * x) by (nonlinear_arith);
    }
}

/// The sum of the squares of the samples, from which the level (the root
/// mean square) is computed.
pub fn sum_of_squares(samples: &[i16]) -> (r: u128)
    ensures
        r == sum_of_squares_spec(samples@),
{
    let mut acc: u128 = 0;
    let mut i: usize = 0;
    while i < samples.len()
        invariant
            i <= samples@.len(),
            acc == sum_of_squares_spec(samples@.take(i as int)),
        decreases samples@.len() - i,
    {
        let x = samples[i] as i64;
        proof {
            assert(samples@.take(i as int + 1).drop_last() =~= samples@.take(i as int));
            lemma_sum_of_squares_bound(samples@.take(i as int));
            assert(x * x <= 0x4000_0000) by (nonlinear_arith)
                requires -32768 <= x <= 32767;
            assert(0 <= x * x) by (nonlinear_arith);
            assert(i * 0x4000_0000 + 0x4000_0000 < 0x1_0000_0000_0000_0000_0000_0000_0000_0000) by (nonlinear_arith)
                requires i < 0x1_0000_0000_0000_0000;
        }
        let sq = (x * x) as u128;
        acc = acc + sq;
        i = i + 1;
    }
    assert(samples@.take(i as int) =~= samples@);
    acc
}

} // verus!
