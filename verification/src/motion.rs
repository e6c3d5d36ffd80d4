//! Relative motion tracker: per-tick cursor deltas.
//!
//! On each tick the current cursor position is sampled and diffed against the
//! position sampled at the previous tick, so the emitted motion is
//! independent of the raw event rate. The first tick emits `(0, 0)`.

use vstd::prelude::*;
use crate::input::CURSOR_BOUND;

verus! {

/// Retains the cursor position sampled at the previous tick, if any.
#[derive(Clone, Copy, Debug)]
pub struct RelativeMotion {
    pub previous: Option<(i64, i64)>,
}

/// Samples the tracker accepts: cursor coordinates within `CURSOR_BOUND`.
pub open spec fn sample_wf(s: (i64, i64)) -> bool {
    &&& -CURSOR_BOUND <= s.0 <= CURSOR_BOUND
    &&& -CURSOR_BOUND <= s.1 <= CURSOR_BOUND
}

/// A retained sample, if present, is a well-formed sample.
pub open spec fn motion_wf(m: RelativeMotion) -> bool {
    match m.previous {
        Some(p) => sample_wf(p),
        None => true,
    }
}

/// The delta one tick emits: zero on the first tick, otherwise the sampled
/// position minus the position sampled at the previous tick.
pub open spec fn motion_delta_spec(m: RelativeMotion, s: (i64, i64)) -> (int, int) {
    match m.previous {
        Some(p) => (s.0 - p.0, s.1 - p.1),
        None => (0int, 0int),
    }
}

/// The deltas emitted over a whole sequence of tick samples, in order.
pub open spec fn deltas_of(samples: Seq<(i64, i64)>, m: RelativeMotion) -> Seq<(int, int)>
    decreases samples.len(),
{
    if samples.len() == 0 {
        Seq::empty()
    } else {
        seq![motion_delta_spec(m, samples[0])].add(
            deltas_of(samples.skip(1), RelativeMotion { previous: Some(samples[0]) }),
        )
    }
}

/// A tracker emits one delta per tick sample.
pub proof fn lemma_deltas_len(samples: Seq<(i64, i64)>, m: RelativeMotion)
    ensures
        deltas_of(samples, m).len() == samples.len(),
    decreases samples.len(),
{
    if samples.len() > 0 {
        lemma_deltas_len(samples.skip(1), RelativeMotion { previous: Some(samples[0]) });
    }
}

/// From a fresh tracker, the first emitted delta is always `(0, 0)`, and
/// every later delta is the sample at that tick minus the sample at the
/// previous tick.
pub proof fn lemma_deltas_characterized(samples: Seq<(i64, i64)>, m: RelativeMotion, n: int)
    requires
        m.previous.is_none(),
        0 <= n < samples.len(),
    ensures
        deltas_of(samples, m).len() == samples.len(),
        n == 0 ==> deltas_of(samples, m)[n] == (0int, 0int),
        n >= 1 ==> deltas_of(samples, m)[n]
            == (samples[n].0 - samples[n - 1].0, samples[n].1 - samples[n - 1].1),
{
    lemma_deltas_len(samples, m);
    if n >= 1 {
        lemma_deltas_tail(samples, m, n);
    }
}

/// Past the first tick, the emitted delta does not depend on the tracker's
/// starting state: it is the difference of two adjacent samples.
proof fn lemma_deltas_tail(samples: Seq<(i64, i64)>, m: RelativeMotion, n: int)
    requires
        1 <= n < samples.len(),
    ensures
        deltas_of(samples, m).len() == samples.len(),
        deltas_of(samples, m)[n]
            == (samples[n].0 - samples[n - 1].0, samples[n].1 - samples[n - 1].1),
    decreases n,
{
    lemma_deltas_len(samples, m);
    let rest = samples.skip(1);
    let m1 = RelativeMotion { previous: Some(samples[0]) };
    lemma_deltas_len(rest, m1);
    assert(deltas_of(samples, m)[n] == deltas_of(rest, m1)[n - 1]);
    if n == 1 {
        assert(deltas_of(rest, m1)[0] == motion_delta_spec(m1, rest[0]));
        assert(rest[0] == samples[1]);
    } else {
        lemma_deltas_tail(rest, m1, n - 1);
        assert(rest[n - 1] == samples[n]);
        assert(rest[n - 2] == samples[n - 1]);
    }
}

impl RelativeMotion {
    /// A fresh tracker with no prior sample.
    pub fn new() -> (m: RelativeMotion)
        ensures
            m.previous.is_none(),
            motion_wf(m),
    {
        RelativeMotion { previous: None }
    }

    /// Sample the cursor at a tick: emit the delta against the previous
    /// tick's sample and retain the new sample.
    pub fn tick(&mut self, sample: (i64, i64)) -> (delta: (i64, i64))
        requires
            motion_wf(*old(self)),
            sample_wf(sample),
        ensures
            (delta.0 as int, delta.1 as int) == motion_delta_spec(*old(self), sample),
            final(self).previous == Some::<(i64, i64)>(sample),
            motion_wf(*final(self)),
            old(self).previous.is_none() ==> delta == (0i64, 0i64),
    {
        let delta: (i64, i64) = match self.previous {
            Some(p) => (sample.0 - p.0, sample.1 - p.1),
            None => (0, 0),
        };
        self.previous = Some(sample);
        delta
    }

    /// Track a whole sequence of tick samples, returning every delta in
    /// order.
    pub fn track(&mut self, samples: &Vec<(i64, i64)>) -> (deltas: Vec<(i64, i64)>)
        requires
            motion_wf(*old(self)),
            forall|i: int| 0 <= i < samples@.len() ==> sample_wf(#[trigger] samples@[i]),
        ensures
            deltas@.len() == samples@.len(),
            deltas@.map_values(|d: (i64, i64)| (d.0 as int, d.1 as int))
                == deltas_of(samples@, *old(self)),
            motion_wf(*final(self)),
            samples@.len() == 0 ==> final(self).previous == old(self).previous,
            samples@.len() > 0 ==> final(self).previous
                == Some::<(i64, i64)>(samples@[samples@.len() - 1]),
    {
        let ghost start = *self;
        let mut deltas: Vec<(i64, i64)> = Vec::new();
        let mut i: usize = 0;
        proof {
            assert(samples@.skip(0) =~= samples@);
            assert(deltas@.map_values(|d: (i64, i64)| (d.0 as int, d.1 as int)).add(
                deltas_of(samples@, start)) =~= deltas_of(samples@, start));
        }
        while i < samples.len()
            invariant
                0 <= i <= samples@.len(),
                deltas@.len() == i as int,
                motion_wf(*self),
                i == 0 ==> self.previous == start.previous,
                i > 0 ==> self.previous == Some::<(i64, i64)>(samples@[i - 1]),
                forall|k: int| 0 <= k < samples@.len() ==> sample_wf(#[trigger] samples@[k]),
                deltas@.map_values(|d: (i64, i64)| (d.0 as int, d.1 as int)).add(
                    deltas_of(samples@.skip(i as int), *self))
                    == deltas_of(samples@, start),
            decreases samples@.len() - i,
        {
            proof {
                assert(samples@.skip(i as int)[0] == samples@[i as int]);
                assert(samples@.skip(i as int).skip(1) == samples@.skip(i as int + 1));
            }
            let d = self.tick(samples[i]);
            deltas.push(d);
            i = i + 1;
            proof {
                let f = |d: (i64, i64)| (d.0 as int, d.1 as int);
                assert(deltas@.map_values(f)
                    == deltas@.subrange(0, deltas@.len() - 1).map_values(f).push(
                        f(deltas@[deltas@.len() - 1])));
                assert(deltas@.subrange(0, deltas@.len() - 1) =~= deltas@.drop_last());
                assert(deltas@.map_values(f).add(deltas_of(samples@.skip(i as int), *self))
                    =~= deltas@.drop_last().map_values(f).add(
                        seq![f(deltas@.last())].add(deltas_of(samples@.skip(i as int), *self))));
            }
        }
        proof {
            assert(samples@.skip(samples@.len() as int) =~= Seq::<(i64, i64)>::empty());
            assert(deltas@.map_values(|d: (i64, i64)| (d.0 as int, d.1 as int)).add(
                Seq::empty()) =~= deltas@.map_values(|d: (i64, i64)| (d.0 as int, d.1 as int)));
        }
        deltas
    }
}

} // verus!
