//! Distinct-pose history of one remote entity.
//!
//! Snapshots repeat an unchanged pose as cadence padding. The caller walks
//! the snapshots that hold the entity and says, for each, whether its
//! position equals the previous one; this module decides which samples are
//! distinct poses and which tick each distinct pose is stamped with.

use vstd::prelude::*;

verus! {

/// One snapshot that holds the entity.
#[derive(Clone, Copy, Debug, PartialEq, Eq, Structural)]
pub struct PresentSample {
    pub tick: u64,
    /// The entity's position equals its position in the previous such
    /// snapshot (ignored for the first one).
    pub same_as_previous: bool,
}

pub struct UniqueState {
    /// Distinct poses so far: stamped tick and index of the sample.
    pub out: Seq<(u64, usize)>,
    pub last_tick: Option<u64>,
    /// The current rest included a gapped (non-consecutive) repeat.
    pub gapped_hold: bool,
}

pub open spec fn sat_add1(t: u64) -> int {
    if t == u64::MAX {
        u64::MAX as int
    } else {
        t + 1
    }
}

/// Distinct poses of the samples, oldest first.
///
/// A repeat of the same pose is dropped. A repeat after a tick gap marks
/// the rest as gapped; when a new pose then starts, the rest pose is
/// stamped with the latest hold tick. Consecutive repeats keep the first
/// tick so cadence gaps stay visible.
pub open spec fn unique_fold(s: Seq<PresentSample>) -> UniqueState
    decreases s.len(),
{
    if s.len() == 0 {
        UniqueState { out: Seq::empty(), last_tick: None, gapped_hold: false }
    } else {
        let st = unique_fold(s.drop_last());
        let j = s.len() - 1;
        let smp = s.last();
        if j > 0 && smp.same_as_previous {
            UniqueState {
                gapped_hold: st.gapped_hold || (st.last_tick is Some && smp.tick > sat_add1(
                    st.last_tick->0,
                )),
                last_tick: Some(smp.tick),
                out: st.out,
            }
        } else {
            let out1 = if st.gapped_hold && st.out.len() > 0 && st.last_tick is Some {
                st.out.update(st.out.len() - 1, (st.last_tick->0, st.out.last().1))
            } else {
                st.out
            };
            UniqueState {
                out: out1.push((smp.tick, j as usize)),
                last_tick: Some(smp.tick),
                gapped_hold: false,
            }
        }
    }
}

/// Distinct poses of the entity: stamped tick and index into `samples`.
pub fn unique_poses(samples: &[PresentSample]) -> (out: Vec<(u64, usize)>)
    ensures
        out@ == unique_fold(samples@).out,
{
    let mut out: Vec<(u64, usize)> = Vec::new();
    let mut last_tick: Option<u64> = None;
    let mut gapped_hold = false;
    let mut j: usize = 0;
    while j < samples.len()
        invariant
            j <= samples@.len(),
            out@ == unique_fold(samples@.take(j as int)).out,
            last_tick == unique_fold(samples@.take(j as int)).last_tick,
            gapped_hold == unique_fold(samples@.take(j as int)).gapped_hold,
            forall|k: int| 0 <= k < out@.len() ==> #[trigger] out@[k].1 < j,
        decreases samples@.len() - j,
    {
        assert(samples@.take(j + 1).drop_last() =~= samples@.take(j as int));
        assert(samples@.take(j + 1).last() == samples@[j as int]);
        let smp = samples[j];
        if j > 0 && smp.same_as_previous {
            match last_tick {
                Some(prev) => {
                    if smp.tick > prev.saturating_add(1) {
                        gapped_hold = true;
                    }
                },
                None => {},
            }
            last_tick = Some(smp.tick);
        } else {
            if gapped_hold && out.len() > 0 {
                match last_tick {
                    Some(held) => {
                        let k = out.len() - 1;
                        let idx = out[k].1;
                        out.set(k, (held, idx));
                    },
                    None => {},
                }
            }
            out.push((smp.tick, j));
            last_tick = Some(smp.tick);
            gapped_hold = false;
        }
        j = j + 1;
    }
    assert(samples@.take(j as int) =~= samples@);
    out
}

/// Sample `j` starts a new pose (it is the first sample, or its position
/// differs from the previous one).
pub open spec fn is_new_pose(s: Seq<PresentSample>, j: int) -> bool {
    j == 0 || !s[j].same_as_previous
}

/// Sample `j` repeats the previous pose after a tick gap (more than one tick
/// after the previous sample).
pub open spec fn gapped_repeat(s: Seq<PresentSample>, j: int) -> bool {
    0 < j && s[j].same_as_previous && s[j].tick > sat_add1(s[j - 1].tick)
}

/// Where the rest of pose `k` ends: the next pose's sample, or the end.
pub open spec fn pose_end(s: Seq<PresentSample>, out: Seq<(u64, usize)>, k: int) -> int {
    if k + 1 < out.len() {
        out[k + 1].1 as int
    } else {
        s.len() as int
    }
}

/// The rest of pose `k` held a repeat after a tick gap.
pub open spec fn rest_gapped(s: Seq<PresentSample>, out: Seq<(u64, usize)>, k: int) -> bool {
    exists|j: int| out[k].1 < j < pose_end(s, out, k) && #[trigger] gapped_repeat(s, j)
}

/// What the poses of `s` are, sample by sample: each starts at a new-pose
/// sample, in order, with only repeats in between; a pose is stamped with
/// the tick of its first sample, unless a later pose follows and its rest
/// held a gapped repeat, in which case it is stamped with the tick of the
/// rest's last sample.
pub open spec fn poses_described(s: Seq<PresentSample>, out: Seq<(u64, usize)>) -> bool {
    &&& poses_ordered(s, out)
    &&& rests_are_repeats(s, out)
    &&& poses_stamped(s, out)
}

/// The poses start at new-pose samples, in sample order, from the first.
pub open spec fn poses_ordered(s: Seq<PresentSample>, out: Seq<(u64, usize)>) -> bool {
    &&& (s.len() == 0) == (out.len() == 0)
    &&& out.len() > 0 ==> out[0].1 == 0
    &&& forall|k: int| 0 <= k < out.len() ==> (#[trigger] out[k]).1 < s.len() && is_new_pose(s, out[k].1 as int)
    &&& forall|k: int| 0 <= k < out.len() - 1 ==> (#[trigger] out[k]).1 < out[k + 1].1
}

/// Between a pose and the next (or the end) there are only repeats.
pub open spec fn rests_are_repeats(s: Seq<PresentSample>, out: Seq<(u64, usize)>) -> bool {
    forall|k: int, j: int|
        0 <= k < out.len() && (#[trigger] out[k]).1 < j < pose_end(s, out, k) ==> !#[trigger] is_new_pose(s, j)
}

/// A pose carries its first sample's tick, unless a later pose follows and
/// its rest held a gapped repeat: then it carries the rest's last tick.
pub open spec fn poses_stamped(s: Seq<PresentSample>, out: Seq<(u64, usize)>) -> bool {
    forall|k: int|
        0 <= k < out.len() ==> (#[trigger] out[k]).0 == (if k + 1 < out.len() && rest_gapped(s, out, k) {
            s[pose_end(s, out, k) - 1].tick
        } else {
            s[out[k].1 as int].tick
        })
}

spec fn fold_state_ok(s: Seq<PresentSample>) -> bool {
    let st = unique_fold(s);
    &&& poses_described(s, st.out)
    &&& st.last_tick == (if s.len() == 0 { None } else { Some(s.last().tick) })
    &&& st.gapped_hold == (st.out.len() > 0 && rest_gapped(s, st.out, st.out.len() - 1))
}

proof fn lemma_fold_repeat_step(s: Seq<PresentSample>)
    requires
        s.len() <= usize::MAX,
        s.len() > 1,
        s.last().same_as_previous,
        fold_state_ok(s.drop_last()),
    ensures
        fold_state_ok(s),
{
    let p = s.drop_last();
    let st = unique_fold(p);
    let out = st.out;
    let n = p.len() as int;
    let x = s.last();
    assert forall|j: int| 0 <= j < n implies #[trigger] s[j] == p[j] by {}
    assert forall|j: int| 0 <= j < n implies #[trigger] is_new_pose(s, j) == is_new_pose(p, j) by {}
    assert forall|j: int| 0 <= j < n implies #[trigger] gapped_repeat(s, j) == gapped_repeat(p, j) by {
        if j > 0 {
            assert(s[j - 1] == p[j - 1]);
        }
    }
        // A repeat: the poses stay; the open rest may become gapped.
        assert(unique_fold(s).out == out);
        assert(out.len() > 0);
        let last = out.len() - 1;
        assert forall|k: int| 0 <= k < last implies rest_gapped(s, out, k) == rest_gapped(p, out, k) by {
            assert(pose_end(s, out, k) == pose_end(p, out, k));
            assert(out[k + 1].1 < n) by {
                assert(out[k + 1] == out[k + 1]);
            }
            if rest_gapped(s, out, k) {
                let j = choose|j: int| out[k].1 < j < pose_end(s, out, k) && #[trigger] gapped_repeat(s, j);
                assert(gapped_repeat(p, j));
            }
            if rest_gapped(p, out, k) {
                let j = choose|j: int| out[k].1 < j < pose_end(p, out, k) && #[trigger] gapped_repeat(p, j);
                assert(gapped_repeat(s, j));
            }
        }
        assert(rest_gapped(s, out, last) == (rest_gapped(p, out, last) || gapped_repeat(s, n))) by {
            if rest_gapped(s, out, last) {
                let j = choose|j: int| out[last].1 < j < pose_end(s, out, last) && #[trigger] gapped_repeat(s, j);
                if j < n {
                    assert(gapped_repeat(p, j));
                }
            }
            if rest_gapped(p, out, last) {
                let j = choose|j: int| out[last].1 < j < pose_end(p, out, last) && #[trigger] gapped_repeat(p, j);
                assert(gapped_repeat(s, j));
            }
            assert(out[last].1 < n) by {
                assert(out[last] == out[last]);
            }
        }
        assert(p.last() == s[n - 1]);
        assert forall|k: int| 0 <= k < out.len() implies (#[trigger] out[k]).1 < s.len() && is_new_pose(s, out[k].1 as int) by {
            assert(out[k].1 < n);
        }
        assert forall|k: int, j: int|
            0 <= k < out.len() && (#[trigger] out[k]).1 < j < pose_end(s, out, k) implies !#[trigger] is_new_pose(s, j) by {
            if j < n {
                assert(is_new_pose(p, j) == is_new_pose(s, j));
                assert(pose_end(p, out, k) == if k + 1 < out.len() { pose_end(s, out, k) } else { n });
            }
        }
        assert forall|k: int| 0 <= k < out.len() implies (#[trigger] out[k]).0 == (if k + 1 < out.len() && rest_gapped(s, out, k) {
            s[pose_end(s, out, k) - 1].tick
        } else {
            s[out[k].1 as int].tick
        }) by {
            assert(out[k].1 < n);
            if k + 1 < out.len() {
                assert(out[k + 1].1 < n) by {
                    assert(out[k + 1] == out[k + 1]);
                }
                assert(pose_end(s, out, k) == pose_end(p, out, k));
                assert(pose_end(s, out, k) - 1 < n);
            }
        }
}

/// How the poses after a new-pose sample relate to the poses before it.
spec fn new_step_shape(
    p: Seq<PresentSample>,
    x: PresentSample,
    out: Seq<(u64, usize)>,
    o: Seq<(u64, usize)>,
) -> bool {
    &&& o.len() == out.len() + 1
    &&& forall|k: int| 0 <= k < out.len() ==> #[trigger] o[k].1 == out[k].1
    &&& forall|k: int| 0 <= k < out.len() - 1 ==> #[trigger] o[k] == out[k]
    &&& o[out.len() as int] == (x.tick, p.len() as usize)
    &&& out.len() > 0 ==> o[out.len() - 1].0 == (if rest_gapped(p, out, out.len() - 1) {
        p.last().tick
    } else {
        out[out.len() - 1].0
    })
}

proof fn lemma_push_indices(p: Seq<PresentSample>, x: PresentSample)
    ensures
        forall|j: int| 0 <= j < p.len() ==> #[trigger] p.push(x)[j] == p[j],
        forall|j: int| 0 <= j < p.len() ==> #[trigger] is_new_pose(p.push(x), j) == is_new_pose(p, j),
        forall|j: int| 0 <= j < p.len() ==> #[trigger] gapped_repeat(p.push(x), j) == gapped_repeat(p, j),
        p.push(x)[p.len() as int] == x,
{
    let s = p.push(x);
    assert forall|j: int| 0 <= j < p.len() implies #[trigger] gapped_repeat(s, j) == gapped_repeat(p, j) by {
        if j > 0 {
            assert(s[j - 1] == p[j - 1]);
        }
    }
}

proof fn lemma_new_step_ends(p: Seq<PresentSample>, x: PresentSample, out: Seq<(u64, usize)>, o: Seq<(u64, usize)>)
    requires
        p.len() < usize::MAX,
        poses_ordered(p, out),
        new_step_shape(p, x, out, o),
    ensures
        forall|k: int| 0 <= k < out.len() ==> #[trigger] pose_end(p.push(x), o, k) == pose_end(p, out, k),
        forall|k: int| 0 <= k < out.len() ==> #[trigger] pose_end(p, out, k) <= p.len(),
        pose_end(p.push(x), o, out.len() as int) == p.len() + 1,
{
    assert forall|k: int| 0 <= k < out.len() implies #[trigger] pose_end(p.push(x), o, k) == pose_end(p, out, k) by {
        if k + 1 < out.len() {
            assert(o[k + 1].1 == out[k + 1].1);
        } else {
            assert(k + 1 == out.len());
            assert(o[k + 1] == o[out.len() as int]);
        }
    }
    assert forall|k: int| 0 <= k < out.len() implies #[trigger] pose_end(p, out, k) <= p.len() by {
        if k + 1 < out.len() {
            assert(out[k + 1].1 < p.len());
        }
    }
}

proof fn lemma_new_step_gaps(p: Seq<PresentSample>, x: PresentSample, out: Seq<(u64, usize)>, o: Seq<(u64, usize)>)
    requires
        p.len() < usize::MAX,
        poses_ordered(p, out),
        new_step_shape(p, x, out, o),
    ensures
        forall|k: int| 0 <= k < out.len() ==> #[trigger] rest_gapped(p.push(x), o, k) == rest_gapped(p, out, k),
        !rest_gapped(p.push(x), o, out.len() as int),
{
    let s = p.push(x);
    lemma_push_indices(p, x);
    lemma_new_step_ends(p, x, out, o);
    assert(o[out.len() as int].1 == p.len());
    assert forall|k: int| 0 <= k < out.len() implies #[trigger] rest_gapped(s, o, k) == rest_gapped(p, out, k) by {
        assert(o[k].1 == out[k].1);
        assert(pose_end(s, o, k) == pose_end(p, out, k));
        assert(pose_end(p, out, k) <= p.len());
        if rest_gapped(s, o, k) {
            let j = choose|j: int| o[k].1 < j < pose_end(s, o, k) && #[trigger] gapped_repeat(s, j);
            assert(gapped_repeat(p, j));
        }
        if rest_gapped(p, out, k) {
            let j = choose|j: int| out[k].1 < j < pose_end(p, out, k) && #[trigger] gapped_repeat(p, j);
            assert(gapped_repeat(s, j));
        }
    }
}

proof fn lemma_new_step_structure(p: Seq<PresentSample>, x: PresentSample, out: Seq<(u64, usize)>, o: Seq<(u64, usize)>)
    requires
        p.len() < usize::MAX,
        poses_ordered(p, out),
        new_step_shape(p, x, out, o),
        p.len() == 0 || !x.same_as_previous,
    ensures
        ({
            let s = p.push(x);
            &&& (s.len() == 0) == (o.len() == 0)
            &&& o.len() > 0 ==> o[0].1 == 0
            &&& forall|k: int| 0 <= k < o.len() ==> (#[trigger] o[k]).1 < s.len() && is_new_pose(s, o[k].1 as int)
            &&& forall|k: int| 0 <= k < o.len() - 1 ==> (#[trigger] o[k]).1 < o[k + 1].1
        }),
{
    let s = p.push(x);
    let n = p.len() as int;
    lemma_push_indices(p, x);
    assert(is_new_pose(s, n));
    assert forall|k: int| 0 <= k < o.len() implies (#[trigger] o[k]).1 < s.len() && is_new_pose(s, o[k].1 as int) by {
        if k < out.len() {
            assert(o[k].1 == out[k].1);
            assert(out[k].1 < n);
            assert(is_new_pose(p, out[k].1 as int));
        }
    }
    assert forall|k: int| 0 <= k < o.len() - 1 implies (#[trigger] o[k]).1 < o[k + 1].1 by {
        assert(o[k].1 == out[k].1);
        if k + 1 < out.len() {
            assert(o[k + 1].1 == out[k + 1].1);
            assert(out[k].1 < out[k + 1].1);
        } else {
            assert(out[k].1 < n);
        }
    }
    if out.len() > 0 {
        assert(o[0].1 == out[0].1);
    }
}

proof fn lemma_new_step_between(p: Seq<PresentSample>, x: PresentSample, out: Seq<(u64, usize)>, o: Seq<(u64, usize)>)
    requires
        p.len() < usize::MAX,
        poses_ordered(p, out),
        rests_are_repeats(p, out),
        new_step_shape(p, x, out, o),
    ensures
        forall|k: int, j: int|
            0 <= k < o.len() && (#[trigger] o[k]).1 < j < pose_end(p.push(x), o, k) ==> !#[trigger] is_new_pose(p.push(x), j),
{
    let s = p.push(x);
    lemma_push_indices(p, x);
    lemma_new_step_ends(p, x, out, o);
    assert forall|k: int, j: int|
        0 <= k < o.len() && (#[trigger] o[k]).1 < j < pose_end(s, o, k) implies !#[trigger] is_new_pose(s, j) by {
        if k < out.len() {
            assert(o[k].1 == out[k].1);
            assert(pose_end(s, o, k) == pose_end(p, out, k));
            assert(pose_end(p, out, k) <= p.len());
            assert(!is_new_pose(p, j));
        } else {
            assert(k == out.len());
            assert(o[k] == o[out.len() as int]);
        }
    }
}

proof fn lemma_new_step_stamps(p: Seq<PresentSample>, x: PresentSample, out: Seq<(u64, usize)>, o: Seq<(u64, usize)>)
    requires
        p.len() < usize::MAX,
        poses_ordered(p, out),
        poses_stamped(p, out),
        new_step_shape(p, x, out, o),
    ensures
        forall|k: int|
            0 <= k < o.len() ==> (#[trigger] o[k]).0 == (if k + 1 < o.len() && rest_gapped(p.push(x), o, k) {
                p.push(x)[pose_end(p.push(x), o, k) - 1].tick
            } else {
                p.push(x)[o[k].1 as int].tick
            }),
{
    let s = p.push(x);
    let n = p.len() as int;
    lemma_push_indices(p, x);
    lemma_new_step_ends(p, x, out, o);
    lemma_new_step_gaps(p, x, out, o);
    assert forall|k: int| 0 <= k < o.len() implies (#[trigger] o[k]).0 == (if k + 1 < o.len() && rest_gapped(s, o, k) {
        s[pose_end(s, o, k) - 1].tick
    } else {
        s[o[k].1 as int].tick
    }) by {
        if k < out.len() {
            assert(o[k].1 == out[k].1);
            assert(out[k].1 < n);
            assert(rest_gapped(s, o, k) == rest_gapped(p, out, k));
            assert(pose_end(s, o, k) == pose_end(p, out, k));
            assert(pose_end(p, out, k) <= n);
            if k + 1 < out.len() {
                assert(o[k] == out[k]);
                assert(out[k + 1].1 < n);
            } else {
                assert(pose_end(p, out, k) == n);
                assert(p.last() == s[n - 1]);
            }
        }
    }
}

proof fn lemma_fold_new_step(s: Seq<PresentSample>)
    requires
        s.len() <= usize::MAX,
        s.len() > 0,
        s.len() == 1 || !s.last().same_as_previous,
        fold_state_ok(s.drop_last()),
    ensures
        fold_state_ok(s),
{
    let p = s.drop_last();
    let st = unique_fold(p);
    let out = st.out;
    let x = s.last();
    assert(s == p.push(x));
    let o = unique_fold(s).out;
    assert(new_step_shape(p, x, out, o));
    lemma_new_step_structure(p, x, out, o);
    lemma_new_step_between(p, x, out, o);
    lemma_new_step_stamps(p, x, out, o);
    lemma_new_step_gaps(p, x, out, o);
    assert(poses_described(s, o));
}

proof fn lemma_fold_state(s: Seq<PresentSample>)
    requires
        s.len() <= usize::MAX,
    ensures
        fold_state_ok(s),
    decreases s.len(),
{
    if s.len() == 0 {
        return;
    }
    lemma_fold_state(s.drop_last());
    if s.len() > 1 && s.last().same_as_previous {
        lemma_fold_repeat_step(s);
    } else {
        lemma_fold_new_step(s);
    }
}

/// The distinct poses of any samples are exactly as [`poses_described`]
/// says. In particular a pose whose repeats all came one tick after the
/// sample before them keeps the tick of its first sample.
pub proof fn lemma_unique_poses_described(s: Seq<PresentSample>)
    requires
        s.len() <= usize::MAX,
    ensures
        poses_described(s, unique_fold(s).out),
        forall|k: int|
            0 <= k < unique_fold(s).out.len() && !rest_gapped(s, unique_fold(s).out, k)
                ==> (#[trigger] unique_fold(s).out[k]).0 == s[unique_fold(s).out[k].1 as int].tick,
{
    lemma_fold_state(s);
    let out = unique_fold(s).out;
    assert forall|k: int|
        0 <= k < out.len() && !rest_gapped(s, out, k) implies (#[trigger] out[k]).0 == s[out[k].1 as int].tick by {}
}

/// Number of recent distinct ticks kept in a span.
pub const SPAN_TICKS: usize = 8;

/// Distinct-position history for one remote (cadence-padded copies removed).
#[derive(Clone, Copy, Debug)]
pub struct EntityTransformSpan {
    pub unique_count: u32,
    pub oldest_tick: Option<u64>,
    pub newest_tick: Option<u64>,
    pub last_gap: Option<u64>,
    /// The newest distinct ticks, oldest first, zero-padded.
    pub ticks: [u64; 8],
    pub ticks_len: u8,
}

impl Default for EntityTransformSpan {
    fn default() -> (s: Self)
        ensures
            s.unique_count == 0,
            s.oldest_tick is None,
            s.newest_tick is None,
            s.last_gap is None,
            s.ticks@ == Seq::new(8, |i: int| 0u64),
            s.ticks_len == 0,
    {
        let s = EntityTransformSpan {
            unique_count: 0,
            oldest_tick: None,
            newest_tick: None,
            last_gap: None,
            ticks: [0u64, 0u64, 0u64, 0u64, 0u64, 0u64, 0u64, 0u64],
            ticks_len: 0,
        };
        assert(s.ticks@ =~= Seq::new(8, |i: int| 0u64));
        s
    }
}

/// The last `SPAN_TICKS` ticks of `t` (all of them when fewer).
pub open spec fn recent_ticks(t: Seq<u64>) -> Seq<u64> {
    if t.len() <= SPAN_TICKS {
        t
    } else {
        t.subrange(t.len() - SPAN_TICKS, t.len() as int)
    }
}

/// The span of the distinct-pose ticks `t`, oldest first.
pub open spec fn span_of(t: Seq<u64>, s: EntityTransformSpan) -> bool {
    &&& s.unique_count == (if t.len() <= u32::MAX {
        t.len()
    } else {
        u32::MAX as nat
    })
    &&& s.oldest_tick == (if t.len() > 0 {
        Some(t[0])
    } else {
        None
    })
    &&& s.newest_tick == (if t.len() > 0 {
        Some(t.last())
    } else {
        None
    })
    &&& s.last_gap == (if t.len() >= 2 {
        Some(
            (if t[t.len() - 1] >= t[t.len() - 2] {
                t[t.len() - 1] - t[t.len() - 2]
            } else {
                0
            }) as u64,
        )
    } else {
        None
    })
    &&& s.ticks_len == recent_ticks(t).len()
    &&& s.ticks@ == recent_ticks(t) + Seq::new(
        (SPAN_TICKS - recent_ticks(t).len()) as nat,
        |i: int| 0u64,
    )
}

impl EntityTransformSpan {
    /// Summarizes distinct poses (as from [`unique_poses`]).
    pub fn from_unique(poses: &[(u64, usize)]) -> (s: Self)
        ensures
            span_of(poses@.map_values(|p: (u64, usize)| p.0), s),
    {
        let ghost t = poses@.map_values(|p: (u64, usize)| p.0);
        let n = poses.len();
        let start = if n > SPAN_TICKS {
            n - SPAN_TICKS
        } else {
            0
        };
        let mut ticks = [0u64, 0u64, 0u64, 0u64, 0u64, 0u64, 0u64, 0u64];
        let mut i: usize = start;
        while i < n
            invariant
                t == poses@.map_values(|p: (u64, usize)| p.0),
                n == poses@.len(),
                start <= i <= n,
                n - start <= SPAN_TICKS,
                start == (if n > SPAN_TICKS { n - SPAN_TICKS } else { 0 }),
                ticks@.len() == SPAN_TICKS,
                forall|k: int| 0 <= k < i - start ==> ticks@[k] == t[start + k],
                forall|k: int| i - start <= k < SPAN_TICKS ==> ticks@[k] == 0,
            decreases n - i,
        {
            ticks[i - start] = poses[i].0;
            i = i + 1;
        }
        let unique_count: u32 = if n <= 0xFFFF_FFFF {
            n as u32
        } else {
            0xFFFF_FFFFu32
        };
        let oldest_tick = if n > 0 {
            Some(poses[0].0)
        } else {
            None
        };
        let newest_tick = if n > 0 {
            Some(poses[n - 1].0)
        } else {
            None
        };
        let last_gap = if n >= 2 {
            Some(poses[n - 1].0.saturating_sub(poses[n - 2].0))
        } else {
            None
        };
        let s = EntityTransformSpan {
            unique_count,
            oldest_tick,
            newest_tick,
            last_gap,
            ticks,
            ticks_len: (n - start) as u8,
        };
        proof {
            let r = recent_ticks(t);
            assert(r.len() == n - start);
            assert forall|k: int| 0 <= k < r.len() implies r[k] == t[start + k] by {}
            assert(s.ticks@ =~= r + Seq::new((SPAN_TICKS - r.len()) as nat, |i: int| 0u64));
        }
        s
    }
}

/// A render time `r ≥ 0` given as its integer part and whether it is whole
/// (`r == floor`). Ticks are integers, so this decides every comparison of
/// `r` with a tick.
#[derive(Clone, Copy, Debug, PartialEq, Eq, Structural)]
pub struct RenderTick {
    pub floor: u64,
    pub exact: bool,
}

/// The distinct-pose ticks that bracket a render time. The caller derives
/// the lerp fraction from them.
#[derive(Clone, Copy, Debug, PartialEq, Eq, Structural)]
pub struct EntityInterpBracket {
    pub sample_a: Option<u64>,
    pub sample_b: Option<u64>,
    /// The render time is at or past the newest pose.
    pub clamped_newest: bool,
}

/// `r <= t`.
pub open spec fn render_at_or_before(r: RenderTick, t: u64) -> bool {
    r.floor < t || (r.floor == t && r.exact)
}

/// Index of the first pose whose tick is after the render time, or the
/// number of poses when there is none.
pub open spec fn first_after(poses: Seq<(u64, usize)>, floor: u64) -> nat
    decreases poses.len(),
{
    if poses.len() == 0 {
        0
    } else if poses[0].0 > floor {
        0
    } else {
        1 + first_after(poses.drop_first(), floor)
    }
}

/// No poses: no bracket. One pose: that pose, clamped when the render time
/// has reached it. Otherwise the oldest pose at or before it, the newest at
/// or after it (clamped), and in between the last pose not after it and the
/// next one.
pub open spec fn bracket_spec(poses: Seq<(u64, usize)>, r: RenderTick) -> EntityInterpBracket {
    let n = poses.len();
    if n == 0 {
        EntityInterpBracket { sample_a: None, sample_b: None, clamped_newest: false }
    } else if n == 1 {
        EntityInterpBracket {
            sample_a: Some(poses[0].0),
            sample_b: Some(poses[0].0),
            clamped_newest: r.floor >= poses[0].0,
        }
    } else if render_at_or_before(r, poses[0].0) {
        EntityInterpBracket {
            sample_a: Some(poses[0].0),
            sample_b: Some(poses[0].0),
            clamped_newest: false,
        }
    } else if r.floor >= poses[n - 1].0 {
        EntityInterpBracket {
            sample_a: Some(poses[n - 1].0),
            sample_b: Some(poses[n - 1].0),
            clamped_newest: true,
        }
    } else {
        let k = first_after(poses, r.floor) as int;
        EntityInterpBracket {
            sample_a: Some(poses[k - 1].0),
            sample_b: Some(poses[k].0),
            clamped_newest: false,
        }
    }
}

proof fn lemma_first_after_at(poses: Seq<(u64, usize)>, floor: u64, k: int)
    requires
        0 <= k <= poses.len(),
        forall|j: int| 0 <= j < k ==> poses[j].0 <= floor,
        k == poses.len() || poses[k].0 > floor,
    ensures
        first_after(poses, floor) == k,
    decreases poses.len(),
{
    if poses.len() > 0 && k > 0 {
        lemma_first_after_at(poses.drop_first(), floor, k - 1);
    }
}

/// The lerp bracket of one remote's distinct poses at render time `r`.
pub fn entity_interp_bracket(poses: &[(u64, usize)], r: RenderTick) -> (b: EntityInterpBracket)
    ensures
        b == bracket_spec(poses@, r),
        poses@.len() > 1 && b.sample_a is Some && b.sample_b is Some && b.sample_a != b.sample_b
            ==> !render_at_or_before(r, poses@[0].0) && r.floor < poses@[poses@.len() - 1].0,
{
    let n = poses.len();
    if n == 0 {
        return EntityInterpBracket { sample_a: None, sample_b: None, clamped_newest: false };
    }
    if n == 1 {
        let t = poses[0].0;
        return EntityInterpBracket {
            sample_a: Some(t),
            sample_b: Some(t),
            clamped_newest: r.floor >= t,
        };
    }
    let oldest = poses[0].0;
    let newest = poses[n - 1].0;
    if r.floor < oldest || (r.floor == oldest && r.exact) {
        return EntityInterpBracket {
            sample_a: Some(oldest),
            sample_b: Some(oldest),
            clamped_newest: false,
        };
    }
    if r.floor >= newest {
        return EntityInterpBracket {
            sample_a: Some(newest),
            sample_b: Some(newest),
            clamped_newest: true,
        };
    }
    let mut k: usize = 0;
    while k < n && poses[k].0 <= r.floor
        invariant
            n == poses@.len(),
            k <= n,
            forall|j: int| 0 <= j < k ==> poses@[j].0 <= r.floor,
        decreases n - k,
    {
        k = k + 1;
    }
    proof {
        lemma_first_after_at(poses@, r.floor, k as int);
    }
    EntityInterpBracket {
        sample_a: Some(poses[k - 1].0),
        sample_b: Some(poses[k].0),
        clamped_newest: false,
    }
}

} // verus!
