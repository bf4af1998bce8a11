//! Per-slot rate limiting for the NDJSON debug ingest.
//!
//! Decisions only: the caller reads the clock and writes the line.

use vstd::prelude::*;

verus! {

/// Number of independent rate-limit slots.
pub const EMIT_SLOTS: usize = 4;

/// Last emission time (milliseconds) of each slot; all start at zero.
pub struct EmitGate {
    last_ms: Vec<u64>,
}

/// `now - prev`, saturating at zero.
pub open spec fn elapsed_ms(now: u64, prev: u64) -> int {
    if now >= prev {
        now - prev
    } else {
        0
    }
}

/// One rate-limit decision on the slot table `last`: whether to emit, and
/// the table afterwards.
pub open spec fn gate_step(last: Seq<u64>, slot: int, min_ms: u64, now: u64) -> (bool, Seq<u64>) {
    if slot >= EMIT_SLOTS {
        (true, last)
    } else if elapsed_ms(now, last[slot]) < min_ms {
        (false, last)
    } else {
        (true, last.update(slot, now))
    }
}

impl EmitGate {
    #[verifier::type_invariant]
    spec fn inv(self) -> bool {
        self.last_ms@.len() == EMIT_SLOTS
    }

    /// Last emission time of each slot.
    pub closed spec fn view(&self) -> Seq<u64> {
        self.last_ms@
    }

    pub fn new() -> (g: Self)
        ensures
            g@ == seq![0u64, 0u64, 0u64, 0u64],
    {
        let g = EmitGate { last_ms: vec![0u64, 0u64, 0u64, 0u64] };
        assert(g.last_ms@ =~= seq![0u64, 0u64, 0u64, 0u64]);
        g
    }

    /// True when `slot` has not emitted within `min_ms` of `now`; a `true`
    /// answer records `now` as the slot's last emission. Slots past the
    /// table are never limited.
    pub fn should_emit(&mut self, slot: usize, min_ms: u64, now: u64) -> (emit: bool)
        ensures
            final(self)@.len() == EMIT_SLOTS,
            (emit, final(self)@) == gate_step(old(self)@, slot as int, min_ms, now),
    {
        proof {
            use_type_invariant(&*self);
        }
        if slot >= self.last_ms.len() {
            return true;
        }
        let prev = self.last_ms[slot];
        let elapsed = now.saturating_sub(prev);
        if elapsed < min_ms {
            return false;
        }
        let mut table = self.last_ms.clone();
        assert(table@ =~= self.last_ms@);
        table.set(slot, now);
        self.last_ms = table;
        true
    }
}

/// Once a slot has emitted at `now`, asking again for the same slot at the
/// same instant with a positive interval is refused, and other slots are
/// unaffected by the first emission.
pub proof fn lemma_emit_then_quiet(last: Seq<u64>, slot: int, other: int, min_ms: u64, now: u64)
    requires
        last.len() == EMIT_SLOTS,
        0 <= slot < EMIT_SLOTS,
        0 <= other,
        other != slot,
        min_ms > 0,
        gate_step(last, slot, min_ms, now).0,
    ensures
        !gate_step(gate_step(last, slot, min_ms, now).1, slot, min_ms, now).0,
        gate_step(gate_step(last, slot, min_ms, now).1, other, min_ms, now).0 == gate_step(
            last,
            other,
            min_ms,
            now,
        ).0,
{
}

} // verus!
