//! Bounded snapshot history for remote interpolation, kept in server-tick
//! order.
//!
//! Samples are the caller's (positions are floats). Each push gives the
//! sample's server tick and whether its remote poses repeat those of the
//! newest stored sample; this module decides what is skipped, replaced,
//! inserted or evicted.

use vstd::prelude::*;

verus! {

/// Snapshot intervals the render timeline lags behind estimated server time.
pub const INTERPOLATION_DELAY_TICKS: u64 = 3;

/// Bounded history depth. The oldest sample is evicted first.
pub const INTERPOLATION_HISTORY_CAP: usize = 16;

/// What a push did.
#[derive(Clone, Copy, Debug, PartialEq, Eq, Structural)]
pub enum HistoryPush {
    /// The next tick repeated the newest sample's remote poses; dropped.
    DuplicateSkipped,
    /// A sample of the same tick was replaced.
    Replaced,
    /// The sample went in at its place by tick.
    Inserted,
}

/// Ticks strictly increase along the history.
pub open spec fn ticks_increasing<S>(s: Seq<(u64, S)>) -> bool {
    forall|i: int, j: int| 0 <= i < j < s.len() ==> s[i].0 < s[j].0
}

/// Index of the first sample whose tick is at least `t`.
pub open spec fn first_at_or_after<S>(s: Seq<(u64, S)>, t: u64) -> nat
    decreases s.len(),
{
    if s.len() == 0 {
        0
    } else if s[0].0 >= t {
        0
    } else {
        1 + first_at_or_after(s.drop_first(), t)
    }
}

/// `s` with `(t, x)` at its place by tick, replacing a sample of tick `t`.
pub open spec fn place_by_tick<S>(s: Seq<(u64, S)>, t: u64, x: S) -> Seq<(u64, S)> {
    let i = first_at_or_after(s, t) as int;
    if i < s.len() && s[i].0 == t {
        s.update(i, (t, x))
    } else {
        s.insert(i, (t, x))
    }
}

/// The newest `INTERPOLATION_HISTORY_CAP` samples of `s`.
pub open spec fn keep_newest<S>(s: Seq<(u64, S)>) -> Seq<(u64, S)> {
    if s.len() > INTERPOLATION_HISTORY_CAP {
        s.subrange(s.len() - INTERPOLATION_HISTORY_CAP, s.len() as int)
    } else {
        s
    }
}

/// Whether a push of tick `t` repeating the newest remote poses is dropped:
/// only when `t` directly follows the newest tick.
pub open spec fn is_duplicate<S>(s: Seq<(u64, S)>, t: u64, repeats_newest: bool) -> bool {
    s.len() > 0 && repeats_newest && (if s.last().0 == u64::MAX {
        t == u64::MAX
    } else {
        s.last().0 + 1 == t
    })
}

/// Samples by server tick, at most `INTERPOLATION_HISTORY_CAP` of them.
pub struct InterpolationHistory<S> {
    samples: Vec<(u64, S)>,
    dup_skips: u64,
}

impl<S> View for InterpolationHistory<S> {
    type V = Seq<(u64, S)>;

    closed spec fn view(&self) -> Seq<(u64, S)> {
        self.samples@
    }
}

proof fn lemma_first_at_or_after<S>(s: Seq<(u64, S)>, t: u64, k: int)
    requires
        0 <= k <= s.len(),
        forall|j: int| 0 <= j < k ==> s[j].0 < t,
        k == s.len() || s[k].0 >= t,
    ensures
        first_at_or_after(s, t) == k,
    decreases s.len(),
{
    if s.len() > 0 && k > 0 {
        lemma_first_at_or_after(s.drop_first(), t, k - 1);
    }
}

proof fn lemma_place_keeps_order<S>(s: Seq<(u64, S)>, t: u64, x: S)
    requires
        ticks_increasing(s),
    ensures
        ticks_increasing(place_by_tick(s, t, x)),
        place_by_tick(s, t, x).len() <= s.len() + 1,
        place_by_tick(s, t, x).contains((t, x)),
{
    let i = first_at_or_after(s, t) as int;
    lemma_first_at_or_after_bounds(s, t);
    let p = place_by_tick(s, t, x);
    if i < s.len() && s[i].0 == t {
        assert(p[i] == (t, x));
    } else {
        assert(p[i] == (t, x));
        assert forall|a: int, b: int| 0 <= a < b < p.len() implies p[a].0 < p[b].0 by {
            if b < i {
            } else if a < i && b == i {
                lemma_first_at_or_after_below(s, t, a);
            } else if a < i {
            } else if a == i {
                if i < s.len() {
                    assert(s[i].0 >= t);
                    assert(s[i].0 != t);
                    assert(s[b - 1].0 >= s[i].0);
                }
            } else {
            }
        }
    }
}

proof fn lemma_first_at_or_after_bounds<S>(s: Seq<(u64, S)>, t: u64)
    ensures
        first_at_or_after(s, t) <= s.len(),
        first_at_or_after(s, t) < s.len() ==> s[first_at_or_after(s, t) as int].0 >= t,
    decreases s.len(),
{
    if s.len() > 0 && s[0].0 < t {
        lemma_first_at_or_after_bounds(s.drop_first(), t);
    }
}

proof fn lemma_first_at_or_after_below<S>(s: Seq<(u64, S)>, t: u64, a: int)
    requires
        0 <= a < first_at_or_after(s, t),
    ensures
        s[a].0 < t,
    decreases s.len(),
{
    lemma_first_at_or_after_bounds(s, t);
    assert(s.len() > 0 && s[0].0 < t);
    if a > 0 {
        lemma_first_at_or_after_below(s.drop_first(), t, a - 1);
        assert(s.drop_first()[a - 1] == s[a]);
    }
}

impl<S> InterpolationHistory<S> {
    /// Well-formed: ordered by tick, at most the cap.
    pub open spec fn wf(&self) -> bool {
        &&& ticks_increasing(self@)
        &&& self@.len() <= INTERPOLATION_HISTORY_CAP
    }

    /// Duplicate pushes dropped since the last clear.
    pub closed spec fn dup_skip_count(&self) -> u64 {
        self.dup_skips
    }

    /// The history as a push of `(t, x)` leaves it.
    pub open spec fn pushed(s: Seq<(u64, S)>, t: u64, x: S, repeats_newest: bool) -> Seq<(u64, S)> {
        if is_duplicate(s, t, repeats_newest) {
            s
        } else {
            keep_newest(place_by_tick(s, t, x))
        }
    }

    pub fn new() -> (h: Self)
        ensures
            h.wf(),
            h@ == Seq::<(u64, S)>::empty(),
            h.dup_skip_count() == 0,
    {
        InterpolationHistory { samples: Vec::new(), dup_skips: 0 }
    }

    pub fn depth(&self) -> (n: usize)
        ensures
            n == self@.len(),
    {
        self.samples.len()
    }

    pub fn dup_skips(&self) -> (n: u64)
        ensures
            n == self.dup_skip_count(),
    {
        self.dup_skips
    }

    /// The newest sample's tick.
    pub fn newest_tick(&self) -> (t: Option<u64>)
        ensures
            t == (if self@.len() == 0 { None } else { Some(self@.last().0) }),
    {
        let n = self.samples.len();
        if n == 0 {
            None
        } else {
            Some(self.samples[n - 1].0)
        }
    }

    /// The newest sample.
    pub fn newest(&self) -> (x: Option<&S>)
        ensures
            x == (if self@.len() == 0 { None } else { Some(&self@.last().1) }),
    {
        let n = self.samples.len();
        if n == 0 {
            None
        } else {
            Some(&self.samples[n - 1].1)
        }
    }

    /// The sample at position `i`, oldest first.
    pub fn get(&self, i: usize) -> (e: &(u64, S))
        requires
            i < self@.len(),
        ensures
            *e == self@[i as int],
    {
        &self.samples[i]
    }

    /// The ticks, oldest first.
    pub fn ticks(&self) -> (v: Vec<u64>)
        ensures
            v@ == self@.map_values(|e: (u64, S)| e.0),
    {
        let mut v: Vec<u64> = Vec::new();
        let mut i: usize = 0;
        while i < self.samples.len()
            invariant
                i <= self.samples@.len(),
                v@ == self.samples@.take(i as int).map_values(|e: (u64, S)| e.0),
            decreases self.samples@.len() - i,
        {
            v.push(self.samples[i].0);
            proof {
                assert(self.samples@.take(i + 1) =~= self.samples@.take(i as int).push(self.samples@[i as int]));
            }
            i = i + 1;
            assert(v@ =~= self.samples@.take(i as int).map_values(|e: (u64, S)| e.0));
        }
        assert(self.samples@.take(i as int) =~= self.samples@);
        v
    }

    /// Store an authoritative sample of server tick `tick`. `repeats_newest`
    /// says whether its remote poses equal those of the newest stored sample.
    /// A sample of the tick right after the newest that repeats it is dropped
    /// and counted; otherwise the sample takes its place by tick (replacing one
    /// of the same tick), and the oldest is evicted past the cap.
    pub fn push_sample(&mut self, tick: u64, sample: S, repeats_newest: bool) -> (r: HistoryPush)
        requires
            old(self).wf(),
        ensures
            final(self).wf(),
            final(self)@ == Self::pushed(old(self)@, tick, sample, repeats_newest),
            r == (if is_duplicate(old(self)@, tick, repeats_newest) {
                HistoryPush::DuplicateSkipped
            } else if first_at_or_after(old(self)@, tick) < old(self)@.len()
                && old(self)@[first_at_or_after(old(self)@, tick) as int].0 == tick {
                HistoryPush::Replaced
            } else {
                HistoryPush::Inserted
            }),
            final(self).dup_skip_count() == (if r == HistoryPush::DuplicateSkipped {
                if old(self).dup_skip_count() == u64::MAX {
                    u64::MAX
                } else {
                    (old(self).dup_skip_count() + 1) as u64
                }
            } else {
                old(self).dup_skip_count()
            }),
    {
        let ghost s0 = self@;
        let n = self.samples.len();
        if n > 0 {
            let back = self.samples[n - 1].0;
            if repeats_newest && back.saturating_add(1) == tick {
                self.dup_skips = self.dup_skips.saturating_add(1);
                return HistoryPush::DuplicateSkipped;
            }
        }
        proof {
            lemma_place_keeps_order(s0, tick, sample);
            lemma_first_at_or_after_bounds(s0, tick);
        }
        let r;
        if n > 0 && self.samples[n - 1].0 > tick {
            let mut i: usize = 0;
            while i < n && self.samples[i].0 < tick
                invariant
                    n == self.samples@.len(),
                    self.samples@ == s0,
                    i <= n,
                    forall|j: int| 0 <= j < i ==> s0[j].0 < tick,
                decreases n - i,
            {
                i = i + 1;
            }
            proof { lemma_first_at_or_after(s0, tick, i as int); }
            if i < n && self.samples[i].0 == tick {
                self.samples.set(i, (tick, sample));
                r = HistoryPush::Replaced;
            } else {
                self.samples.insert(i, (tick, sample));
                r = HistoryPush::Inserted;
            }
        } else if n > 0 && self.samples[n - 1].0 == tick {
            proof {
                assert forall|j: int| 0 <= j < n - 1 implies s0[j].0 < tick by {}
                lemma_first_at_or_after(s0, tick, n - 1);
            }
            self.samples.set(n - 1, (tick, sample));
            r = HistoryPush::Replaced;
        } else {
            proof {
                assert forall|j: int| 0 <= j < n implies s0[j].0 < tick by {
                    if j < n - 1 {
                        assert(s0[j].0 < s0[n - 1].0);
                    }
                }
                lemma_first_at_or_after(s0, tick, n as int);
            }
            self.samples.push((tick, sample));
            proof { assert(self.samples@ =~= s0.insert(n as int, (tick, sample))); }
            r = HistoryPush::Inserted;
        }
        let ghost placed = self.samples@;
        assert(placed == place_by_tick(s0, tick, sample));
        if self.samples.len() > INTERPOLATION_HISTORY_CAP {
            self.samples.remove(0);
            assert(self.samples@ =~= keep_newest(placed));
        }
        proof {
            let k = self.samples@;
            assert forall|a: int, b: int| 0 <= a < b < k.len() implies k[a].0 < k[b].0 by {
                if placed.len() > INTERPOLATION_HISTORY_CAP {
                    assert(k[a] == placed[a + 1]);
                    assert(k[b] == placed[b + 1]);
                }
            }
        }
        r
    }

    /// Drop every sample; the duplicate count starts over.
    pub fn clear(&mut self)
        ensures
            final(self).wf(),
            final(self)@ == Seq::<(u64, S)>::empty(),
            final(self).dup_skip_count() == 0,
    {
        self.samples.clear();
        self.dup_skips = 0;
    }
}

/// A push keeps the history ordered by tick and within the cap.
pub proof fn lemma_push_keeps_history_wf<S>(s: Seq<(u64, S)>, t: u64, x: S, repeats_newest: bool)
    requires
        ticks_increasing(s),
        s.len() <= INTERPOLATION_HISTORY_CAP,
    ensures
        ticks_increasing(InterpolationHistory::<S>::pushed(s, t, x, repeats_newest)),
        InterpolationHistory::<S>::pushed(s, t, x, repeats_newest).len() <= INTERPOLATION_HISTORY_CAP,
{
    if !is_duplicate(s, t, repeats_newest) {
        lemma_place_keeps_order(s, t, x);
        let p = place_by_tick(s, t, x);
        let k = keep_newest(p);
        assert forall|a: int, b: int| 0 <= a < b < k.len() implies k[a].0 < k[b].0 by {
            if p.len() > INTERPOLATION_HISTORY_CAP {
                assert(k[a] == p[a + 1]);
                assert(k[b] == p[b + 1]);
            }
        }
    }
}

/// A sample newer than every stored one, and not a repeat of the newest,
/// becomes the newest sample.
pub proof fn lemma_newer_sample_becomes_newest<S>(s: Seq<(u64, S)>, t: u64, x: S, repeats_newest: bool)
    requires
        ticks_increasing(s),
        s.len() <= INTERPOLATION_HISTORY_CAP,
        s.len() == 0 || s.last().0 < t,
        !is_duplicate(s, t, repeats_newest),
    ensures
        InterpolationHistory::<S>::pushed(s, t, x, repeats_newest).last() == (t, x),
{
    assert forall|j: int| 0 <= j < s.len() implies s[j].0 < t by {
        if j < s.len() - 1 {
            assert(s[j].0 < s.last().0);
        }
    }
    lemma_first_at_or_after(s, t, s.len() as int);
}

} // verus!
