//! Bounded collision / discontinuity event history for the debug overlay.
//!
//! A fixed-capacity ring buffer: pushing past the capacity forgets the
//! oldest event. Events are opaque to the buffer.

use vstd::prelude::*;

verus! {

pub const COLLISION_HISTORY_CAP: usize = 16;

#[derive(Clone, Copy, Debug, PartialEq, Eq, Structural)]
pub enum DiscSubject {
    Player,
    Camera,
}

impl Default for DiscSubject {
    fn default() -> (r: Self)
        ensures
            r == DiscSubject::Player,
    {
        DiscSubject::Player
    }
}

/// Buffer slot holding the `i`-th newest event when the write cursor is at
/// `next`.
pub open spec fn newest_slot(next: int, i: int) -> int {
    (next + COLLISION_HISTORY_CAP - 1 - i) % (COLLISION_HISTORY_CAP as int)
}

/// The last `COLLISION_HISTORY_CAP` events of `s`, oldest first.
pub open spec fn keep_recent<E>(s: Seq<E>) -> Seq<E> {
    if s.len() <= COLLISION_HISTORY_CAP {
        s
    } else {
        s.subrange(s.len() - COLLISION_HISTORY_CAP, s.len() as int)
    }
}

/// Fixed-capacity ring buffer of recent diagnostic events.
pub struct CollisionHistory<E> {
    buf: Vec<Option<E>>,
    next: usize,
    len: usize,
    /// Retained events, oldest first.
    events: Ghost<Seq<E>>,
}

impl<E: Copy> CollisionHistory<E> {
    /// Retained events, oldest first.
    pub closed spec fn view(&self) -> Seq<E> {
        self.events@
    }

    pub closed spec fn wf(&self) -> bool {
        &&& self.buf@.len() == COLLISION_HISTORY_CAP
        &&& self.next < COLLISION_HISTORY_CAP
        &&& self.len <= COLLISION_HISTORY_CAP
        &&& self.events@.len() == self.len
        &&& forall|i: int|
            0 <= i < self.len ==> self.buf@[#[trigger] newest_slot(self.next as int, i)] == Some(
                self.events@[self.len - 1 - i],
            )
    }

    pub fn new() -> (h: Self)
        ensures
            h.wf(),
            h@ == Seq::<E>::empty(),
    {
        let mut buf: Vec<Option<E>> = Vec::new();
        let mut k: usize = 0;
        while k < COLLISION_HISTORY_CAP
            invariant
                k <= COLLISION_HISTORY_CAP,
                buf@.len() == k,
            decreases COLLISION_HISTORY_CAP - k,
        {
            buf.push(None);
            k = k + 1;
        }
        CollisionHistory { buf, next: 0, len: 0, events: Ghost(Seq::empty()) }
    }

    pub fn clear(&mut self)
        ensures
            final(self).wf(),
            final(self)@ == Seq::<E>::empty(),
    {
        *self = Self::new();
    }

    /// Records `event`; once full, the oldest event is dropped.
    pub fn push(&mut self, event: E)
        requires
            old(self).wf(),
        ensures
            final(self).wf(),
            final(self)@ == keep_recent(old(self)@.push(event)),
    {
        let ghost old_events = self.events@;
        let ghost old_next = self.next as int;
        let ghost old_len = self.len as int;
        self.buf.set(self.next, Some(event));
        self.next = if self.next + 1 == COLLISION_HISTORY_CAP {
            0
        } else {
            self.next + 1
        };
        if self.len < COLLISION_HISTORY_CAP {
            self.len = self.len + 1;
            self.events = Ghost(old_events.push(event));
        } else {
            self.events = Ghost(old_events.drop_first().push(event));
        }
        proof {
            assert(newest_slot(self.next as int, 0) == old_next);
            assert forall|i: int| 0 <= i < self.len implies self.buf@[#[trigger] newest_slot(
                self.next as int,
                i,
            )] == Some(self.events@[self.len - 1 - i]) by {
                if i > 0 {
                    assert(newest_slot(self.next as int, i) == newest_slot(old_next, i - 1));
                    assert(newest_slot(old_next, i - 1) != old_next);
                    assert(self.buf@[newest_slot(old_next, i - 1)] == Some(
                        old_events[old_len - 1 - (i - 1)],
                    ));
                }
            }
            assert(self.events@ =~= keep_recent(old_events.push(event)));
        }
    }

    /// Retained events, newest first.
    pub fn newest_first(&self) -> (v: Vec<E>)
        requires
            self.wf(),
        ensures
            v@ == self@.reverse(),
    {
        let mut v: Vec<E> = Vec::new();
        let mut i: usize = 0;
        while i < self.len
            invariant
                self.wf(),
                i <= self.len,
                v@.len() == i,
                forall|k: int| 0 <= k < i ==> v@[k] == self@[self.len - 1 - k],
            decreases self.len - i,
        {
            let idx = (self.next + COLLISION_HISTORY_CAP - 1 - i) % COLLISION_HISTORY_CAP;
            assert(idx == newest_slot(self.next as int, i as int));
            match self.buf[idx] {
                Some(e) => {
                    v.push(e);
                },
                None => {
                    assert(false);
                },
            }
            i = i + 1;
        }
        assert(v@ =~= self@.reverse());
        v
    }

    /// The newest retained event.
    pub fn latest(&self) -> (e: Option<E>)
        requires
            self.wf(),
        ensures
            e == (if self@.len() == 0 {
                None
            } else {
                Some(self@.last())
            }),
    {
        if self.len == 0 {
            None
        } else {
            let idx = (self.next + COLLISION_HISTORY_CAP - 1) % COLLISION_HISTORY_CAP;
            assert(idx == newest_slot(self.next as int, 0));
            self.buf[idx]
        }
    }

    pub fn len(&self) -> (n: usize)
        requires
            self.wf(),
        ensures
            n == self@.len(),
    {
        self.len
    }
}

impl<E: Copy> Default for CollisionHistory<E> {
    fn default() -> (h: Self)
        ensures
            h.wf(),
            h@ == Seq::<E>::empty(),
    {
        Self::new()
    }
}

/// The history keeps at most its capacity of events and forgets only the
/// oldest: after any pushes it holds the most recent ones in order.
pub proof fn lemma_keep_recent_bounded<E>(s: Seq<E>, e: E)
    requires
        s.len() <= COLLISION_HISTORY_CAP,
    ensures
        keep_recent(s.push(e)).len() <= COLLISION_HISTORY_CAP,
        keep_recent(s.push(e)).last() == e,
        s.len() < COLLISION_HISTORY_CAP ==> keep_recent(s.push(e)) == s.push(e),
        s.len() == COLLISION_HISTORY_CAP ==> keep_recent(s.push(e)) == s.drop_first().push(e),
{
    if s.len() == COLLISION_HISTORY_CAP {
        assert(keep_recent(s.push(e)) =~= s.drop_first().push(e));
    }
}

} // verus!
