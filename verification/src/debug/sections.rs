//! Open/closed state of collapsible debug-overlay sections.

use vstd::prelude::*;

use crate::text::{str_eq, str_views};

verus! {

/// Open/closed flags for overlay sections, keyed by section id. An id that
/// was never set uses the caller's default.
#[derive(Clone, Debug)]
pub struct DebugSectionMap {
    entries: Vec<(&'static str, bool)>,
}

pub open spec fn has_key(e: Seq<(&'static str, bool)>, k: Seq<char>) -> bool {
    exists|i: int| 0 <= i < e.len() && (#[trigger] e[i]).0@ == k
}

pub open spec fn keys_unique(e: Seq<(&'static str, bool)>) -> bool {
    forall|i: int, j: int|
        0 <= i < e.len() && 0 <= j < e.len() && i != j ==> (#[trigger] e[i]).0@ != (#[trigger] e[j]).0@
}

/// One write a caller can make on a [`DebugSectionMap`].
pub enum SectionCall {
    SetOne(Seq<char>, bool),
    SetAll(Seq<Seq<char>>, bool),
}

/// Every listed id mapped to `open`.
pub open spec fn listed_ids(ids: Seq<Seq<char>>, open: bool) -> Map<Seq<char>, bool> {
    Map::new(
        |k: Seq<char>| exists|i: int| 0 <= i < ids.len() && #[trigger] ids[i] == k,
        |k: Seq<char>| open,
    )
}

/// The flags after one write, as the write's contract gives it.
pub open spec fn section_step(m: Map<Seq<char>, bool>, c: SectionCall) -> Map<Seq<char>, bool> {
    match c {
        SectionCall::SetOne(id, open) => m.insert(id, open),
        SectionCall::SetAll(ids, open) => m.union_prefer_right(listed_ids(ids, open)),
    }
}

/// The flags after a sequence of writes on a fresh map, first write first.
pub open spec fn section_run(calls: Seq<SectionCall>) -> Map<Seq<char>, bool>
    decreases calls.len(),
{
    if calls.len() == 0 {
        Map::empty()
    } else {
        section_step(section_run(calls.drop_last()), calls.last())
    }
}

/// The value of the most recent write that covers `id`, if any.
pub open spec fn last_write(calls: Seq<SectionCall>, id: Seq<char>) -> Option<bool>
    decreases calls.len(),
{
    if calls.len() == 0 {
        None
    } else {
        match calls.last() {
            SectionCall::SetOne(k, open) if k == id => Some(open),
            SectionCall::SetAll(ids, open) if ids.contains(id) => Some(open),
            _ => last_write(calls.drop_last(), id),
        }
    }
}

/// What `is_open(id, default_open)` returns for the flags `m`.
pub open spec fn open_or_default(m: Map<Seq<char>, bool>, id: Seq<char>, default_open: bool) -> bool {
    if m.contains_key(id) {
        m[id]
    } else {
        default_open
    }
}

impl DebugSectionMap {
    /// The section flags as a map from id to open.
    pub closed spec fn model(&self) -> Map<Seq<char>, bool> {
        Map::new(
            |k: Seq<char>| has_key(self.entries@, k),
            |k: Seq<char>|
                self.entries@[choose|i: int|
                    0 <= i < self.entries@.len() && (#[trigger] self.entries@[i]).0@ == k].1,
        )
    }

    pub closed spec fn wf(&self) -> bool {
        keys_unique(self.entries@)
    }

    proof fn lemma_model_at(&self, i: int)
        requires
            self.wf(),
            0 <= i < self.entries@.len(),
        ensures
            self.model().contains_key(self.entries@[i].0@),
            self.model()[self.entries@[i].0@] == self.entries@[i].1,
    {
        let k = self.entries@[i].0@;
        assert(has_key(self.entries@, k));
        let j = choose|j: int| 0 <= j < self.entries@.len() && (#[trigger] self.entries@[j]).0@ == k;
        assert(j == i);
    }

    /// Whether `id` is open, falling back to `default_open` until it is set.
    pub fn is_open(&self, id: &'static str, default_open: bool) -> (b: bool)
        requires
            self.wf(),
        ensures
            b == open_or_default(self.model(), id@, default_open),
    {
        let n = self.entries.len();
        let mut i: usize = 0;
        while i < n
            invariant
                n == self.entries@.len(),
                i <= n,
                self.wf(),
                forall|j: int| 0 <= j < i ==> (#[trigger] self.entries@[j]).0@ != id@,
            decreases n - i,
        {
            if str_eq(self.entries[i].0, id) {
                proof {
                    self.lemma_model_at(i as int);
                }
                return self.entries[i].1;
            }
            i = i + 1;
        }
        assert(!has_key(self.entries@, id@));
        default_open
    }

    /// Set one section open or closed.
    pub fn set(&mut self, id: &'static str, open: bool)
        requires
            old(self).wf(),
        ensures
            final(self).wf(),
            final(self).model() == old(self).model().insert(id@, open),
            final(self).model() == section_step(old(self).model(), SectionCall::SetOne(id@, open)),
    {
        let n = self.entries.len();
        let mut i: usize = 0;
        while i < n
            invariant
                n == self.entries@.len(),
                i <= n,
                self.entries@ == old(self).entries@,
                keys_unique(self.entries@),
                forall|j: int| 0 <= j < i ==> (#[trigger] self.entries@[j]).0@ != id@,
            decreases n - i,
        {
            if str_eq(self.entries[i].0, id) {
                let ghost before = self.entries@;
                self.entries.set(i, (id, open));
                proof {
                    assert(keys_unique(self.entries@));
                    self.lemma_model_at(i as int);
                    assert forall|k: Seq<char>| #[trigger]
                        self.model().contains_key(k) == old(self).model().insert(
                            id@,
                            open,
                        ).contains_key(k) by {
                        if has_key(before, k) {
                            let j = choose|j: int| 0 <= j < before.len() && (#[trigger] before[j]).0@ == k;
                            assert(self.entries@[j].0@ == k);
                        }
                        if has_key(self.entries@, k) {
                            let j = choose|j: int|
                                0 <= j < self.entries@.len() && (#[trigger] self.entries@[j]).0@ == k;
                            if j != i {
                                assert(before[j].0@ == k);
                            }
                        }
                    }
                    assert forall|k: Seq<char>| #[trigger]
                        self.model().contains_key(k) implies self.model()[k] == old(
                        self,
                    ).model().insert(id@, open)[k] by {
                        let j = choose|j: int|
                            0 <= j < self.entries@.len() && (#[trigger] self.entries@[j]).0@ == k;
                        self.lemma_model_at(j);
                        if j != i {
                            assert(before[j] == self.entries@[j]);
                            old(self).lemma_model_at(j);
                        }
                    }
                    assert(self.model() =~= old(self).model().insert(id@, open));
                }
                return;
            }
            i = i + 1;
        }
        let ghost before = self.entries@;
        self.entries.push((id, open));
        proof {
            assert(!has_key(before, id@));
            assert(keys_unique(self.entries@));
            let last = self.entries@.len() - 1;
            self.lemma_model_at(last);
            assert forall|k: Seq<char>| #[trigger]
                self.model().contains_key(k) == old(self).model().insert(id@, open).contains_key(
                    k,
                ) by {
                if has_key(before, k) {
                    let j = choose|j: int| 0 <= j < before.len() && (#[trigger] before[j]).0@ == k;
                    assert(self.entries@[j].0@ == k);
                }
                if has_key(self.entries@, k) {
                    let j = choose|j: int|
                        0 <= j < self.entries@.len() && (#[trigger] self.entries@[j]).0@ == k;
                    if j != last {
                        assert(before[j].0@ == k);
                    }
                }
            }
            assert forall|k: Seq<char>| #[trigger]
                self.model().contains_key(k) implies self.model()[k] == old(self).model().insert(
                id@,
                open,
            )[k] by {
                let j = choose|j: int|
                    0 <= j < self.entries@.len() && (#[trigger] self.entries@[j]).0@ == k;
                self.lemma_model_at(j);
                if j != last {
                    assert(before[j] == self.entries@[j]);
                    old(self).lemma_model_at(j);
                }
            }
            assert(self.model() =~= old(self).model().insert(id@, open));
        }
    }

    /// Set every listed section to `open`.
    pub fn set_all(&mut self, ids: &[&'static str], open: bool)
        requires
            old(self).wf(),
        ensures
            final(self).wf(),
            final(self).model() == old(self).model().union_prefer_right(
                Map::new(|k: Seq<char>| exists|i: int| 0 <= i < ids@.len() && (#[trigger] ids@[i])@ == k, |k: Seq<char>| open),
            ),
            final(self).model() == section_step(
                old(self).model(),
                SectionCall::SetAll(str_views(ids@), open),
            ),
    {
        let n = ids.len();
        let mut i: usize = 0;
        while i < n
            invariant
                n == ids@.len(),
                i <= n,
                self.wf(),
                self.model() == old(self).model().union_prefer_right(
                    Map::new(|k: Seq<char>| exists|j: int| 0 <= j < i && (#[trigger] ids@[j])@ == k, |k: Seq<char>| open),
                ),
            decreases n - i,
        {
            self.set(ids[i], open);
            proof {
                let prev = Map::new(|k: Seq<char>| exists|j: int| 0 <= j < i && (#[trigger] ids@[j])@ == k, |k: Seq<char>| open);
                let next = Map::new(|k: Seq<char>| exists|j: int| 0 <= j < i + 1 && (#[trigger] ids@[j])@ == k, |k: Seq<char>| open);
                assert forall|k: Seq<char>| next.contains_key(k) == (prev.contains_key(k) || k == ids@[i as int]@) by {
                    if next.contains_key(k) {
                        let j = choose|j: int| 0 <= j < i + 1 && (#[trigger] ids@[j])@ == k;
                        if j < i {
                            assert(prev.contains_key(k));
                        }
                    }
                }
                assert(self.model() =~= old(self).model().union_prefer_right(next));
            }
            i = i + 1;
        }
        proof {
            let all = Map::new(|k: Seq<char>| exists|i: int| 0 <= i < ids@.len() && (#[trigger] ids@[i])@ == k, |k: Seq<char>| open);
            let upto = Map::new(|k: Seq<char>| exists|j: int| 0 <= j < n && (#[trigger] ids@[j])@ == k, |k: Seq<char>| open);
            assert(all =~= upto);
            let listed = listed_ids(str_views(ids@), open);
            assert forall|k: Seq<char>| #[trigger] all.contains_key(k) == listed.contains_key(k) by {
                if all.contains_key(k) {
                    let i = choose|i: int| 0 <= i < ids@.len() && (#[trigger] ids@[i])@ == k;
                    assert(str_views(ids@)[i] == k);
                }
                if listed.contains_key(k) {
                    let i = choose|i: int| 0 <= i < str_views(ids@).len() && #[trigger] str_views(ids@)[i] == k;
                    assert(ids@[i]@ == k);
                }
            }
            assert(all =~= listed);
        }
    }
}

impl Default for DebugSectionMap {
    fn default() -> (m: Self)
        ensures
            m.wf(),
            m.model() == Map::<Seq<char>, bool>::empty(),
    {
        let m = DebugSectionMap { entries: Vec::new() };
        assert(m.model() =~= Map::<Seq<char>, bool>::empty());
        m
    }
}

/// Read-your-write: after `set(id, open)`, `is_open(id, _)` is `open`, and
/// every other id keeps its value or default.
pub proof fn lemma_set_then_is_open(m: Map<Seq<char>, bool>, id: Seq<char>, open: bool, other: Seq<char>)
    requires
        other != id,
    ensures
        m.insert(id, open).contains_key(id) && m.insert(id, open)[id] == open,
        m.insert(id, open).contains_key(other) == m.contains_key(other),
        m.contains_key(other) ==> m.insert(id, open)[other] == m[other],
{
}

/// After any sequence of `set` / `set_all` writes on a fresh map, a section
/// reads the value of the last write that covered it, or the caller's
/// default when none did.
pub proof fn lemma_is_open_reads_last_write(calls: Seq<SectionCall>, id: Seq<char>, default_open: bool)
    ensures
        open_or_default(section_run(calls), id, default_open) == match last_write(calls, id) {
            Some(v) => v,
            None => default_open,
        },
    decreases calls.len(),
{
    if calls.len() > 0 {
        lemma_is_open_reads_last_write(calls.drop_last(), id, default_open);
        match calls.last() {
            SectionCall::SetAll(ids, open) => {
                if ids.contains(id) {
                    let i = choose|i: int| 0 <= i < ids.len() && ids[i] == id;
                    assert(listed_ids(ids, open).contains_key(id));
                } else {
                    assert(!listed_ids(ids, open).contains_key(id));
                }
            },
            _ => {},
        }
    }
}

} // verus!
