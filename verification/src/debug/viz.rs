//! World gizmo budgeting. Presentation only.

use vstd::prelude::*;

verus! {

/// How many scene quads are dropped from the front so that the gizmos fit.
pub open spec fn gizmo_overflow_drop(world_len: nat, gizmo_len: nat, max: nat) -> nat {
    let sum = world_len + gizmo_len;
    let total = if sum > usize::MAX {
        usize::MAX as nat
    } else {
        sum
    };
    if total > max {
        let overflow = (total - max) as nat;
        if overflow < world_len {
            overflow
        } else {
            world_len
        }
    } else {
        0
    }
}

/// Scene quads after appending gizmos under the quad budget.
pub open spec fn append_gizmos_spec<T>(world: Seq<T>, gizmos: Seq<T>, max: nat) -> Seq<T> {
    let kept = world.skip(gizmo_overflow_drop(world.len(), gizmos.len(), max) as int) + gizmos;
    if kept.len() > max {
        kept.take(max as int)
    } else {
        kept
    }
}

/// Prefer debug gizmos over earlier scene quads when the quad budget would
/// otherwise drop them (gizmos are appended last).
pub fn append_debug_gizmos<T>(world_quads: &mut Vec<T>, gizmos: Vec<T>, max: usize)
    ensures
        final(world_quads)@ == append_gizmos_spec(old(world_quads)@, gizmos@, max as nat),
{
    let world_len = world_quads.len();
    let gizmo_len = gizmos.len();
    let total: usize = if world_len > usize::MAX - gizmo_len {
        usize::MAX
    } else {
        world_len + gizmo_len
    };
    let mut gizmos = gizmos;
    if total > max {
        let overflow = total - max;
        let drop: usize = if overflow < world_len {
            overflow
        } else {
            world_len
        };
        let rest = world_quads.split_off(drop);
        *world_quads = rest;
        assert(world_quads@ =~= old(world_quads)@.skip(drop as int));
    } else {
        assert(old(world_quads)@.skip(0) =~= old(world_quads)@);
    }
    world_quads.append(&mut gizmos);
    world_quads.truncate(max);
}

/// The budget is never exceeded, and when the gizmos alone fit they are all
/// kept, at the end.
pub proof fn lemma_gizmos_win_the_budget<T>(world: Seq<T>, gizmos: Seq<T>, max: nat)
    requires
        world.len() + gizmos.len() <= usize::MAX,
    ensures
        append_gizmos_spec(world, gizmos, max).len() <= max,
        gizmos.len() <= max ==> ({
            let r = append_gizmos_spec(world, gizmos, max);
            &&& r.len() >= gizmos.len()
            &&& r.skip(r.len() - gizmos.len()) == gizmos
        }),
{
    let d = gizmo_overflow_drop(world.len(), gizmos.len(), max);
    let kept = world.skip(d as int) + gizmos;
    if gizmos.len() <= max {
        assert(kept.len() <= max);
        assert(kept.skip(kept.len() - gizmos.len()) =~= gizmos);
    }
}

} // verus!
