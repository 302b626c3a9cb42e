use vstd::prelude::*;

verus! {

/// One entry of a snapshot of all processes of the system.
#[derive(Clone, Copy, Debug, PartialEq, Eq)]
pub struct ProcessEntry {
    pub process_id: u32,
    pub parent_process_id: u32,
}

/// The ids of the processes known to belong to the launched tree, in order
/// of discovery. The first one is the root.
pub struct ProcessSet {
    ids: Vec<u32>,
}

/// Every element of `s` occurs once.
pub open spec fn distinct(s: Seq<u32>) -> bool {
    forall|i: int, j: int| 0 <= i < j < s.len() ==> s[i] != s[j]
}

impl View for ProcessSet {
    type V = Seq<u32>;

    closed spec fn view(&self) -> Seq<u32> {
        self.ids@
    }
}

impl ProcessSet {
    /// Non-empty, without duplicates.
    pub open spec fn wf(&self) -> bool {
        self@.len() >= 1 && distinct(self@)
    }

    /// The root process id.
    pub open spec fn root(&self) -> u32 {
        self@[0]
    }

    /// A set that holds the root process alone.
    pub fn new(root_process_id: u32) -> (r: ProcessSet)
        ensures
            r.wf(),
            r@ == seq![root_process_id],
    {
        let mut ids: Vec<u32> = Vec::new();
        ids.push(root_process_id);
        ProcessSet { ids }
    }

    pub fn contains(&self, process_id: u32) -> (r: bool)
        ensures
            r == self@.contains(process_id),
    {
        let mut i: usize = 0;
        while i < self.ids.len()
            invariant
                0 <= i <= self.ids@.len(),
                forall|k: int| 0 <= k < i ==> self.ids@[k] != process_id,
            decreases self.ids@.len() - i,
        {
            if self.ids[i] == process_id {
                return true;
            }
            i = i + 1;
        }
        false
    }

    pub fn len(&self) -> (r: usize)
        ensures
            r == self@.len(),
    {
        self.ids.len()
    }

    /// The ids in order of discovery.
    pub fn ids(&self) -> (r: Vec<u32>)
        ensures
            r@ == self@,
    {
        self.ids.clone()
    }

    /// Adds the entry's process when its parent is known and it is not:
    /// returns whether it was added.
    pub fn insert_child(&mut self, entry: ProcessEntry) -> (added: bool)
        requires
            old(self).wf(),
        ensures
            final(self).wf(),
            added == (old(self)@.contains(entry.parent_process_id) && !old(self)@.contains(
                entry.process_id,
            )),
            added ==> final(self)@ == old(self)@.push(entry.process_id),
            !added ==> final(self)@ == old(self)@,
    {
        if self.contains(entry.parent_process_id) && !self.contains(entry.process_id) {
            self.ids.push(entry.process_id);
            true
        } else {
            false
        }
    }

    /// One pass over a snapshot, in its order: adds each process whose
    /// parent is known by then and which is not known yet. Returns the
    /// added ids in order. A child listed before its parent is left for a
    /// later pass.
    pub fn grow(&mut self, snapshot: &Vec<ProcessEntry>) -> (added: Vec<u32>)
        requires
            old(self).wf(),
        ensures
            final(self).wf(),
            final(self)@ == old(self)@ + added@,
            final(self)@ == grown(old(self)@, snapshot@),
    {
        let mut added: Vec<u32> = Vec::new();
        let mut i: usize = 0;
        while i < snapshot.len()
            invariant
                0 <= i <= snapshot@.len(),
                self.wf(),
                self@ == old(self)@ + added@,
                self@ == grown(old(self)@, snapshot@.take(i as int)),
            decreases snapshot@.len() - i,
        {
            let entry = snapshot[i];
            proof {
                assert(snapshot@.take(i as int + 1).drop_last() == snapshot@.take(i as int));
            }
            if self.insert_child(entry) {
                added.push(entry.process_id);
            }
            i = i + 1;
        }
        proof {
            assert(snapshot@.take(snapshot@.len() as int) == snapshot@);
        }
        added
    }
}

/// The result of one pass of `grow` over `snapshot`, from `ids`.
pub open spec fn grown(ids: Seq<u32>, snapshot: Seq<ProcessEntry>) -> Seq<u32>
    decreases snapshot.len(),
{
    if snapshot.len() == 0 {
        ids
    } else {
        let before = grown(ids, snapshot.drop_last());
        let e = snapshot.last();
        if before.contains(e.parent_process_id) && !before.contains(e.process_id) {
            before.push(e.process_id)
        } else {
            before
        }
    }
}

} // verus!

verus! {

/// The process at position `i` of `ids` was listed in `snapshot` with a
/// parent that comes earlier in `ids`.
pub open spec fn has_earlier_parent(ids: Seq<u32>, snapshot: Seq<ProcessEntry>, i: int) -> bool {
    exists|k: int|
        #![trigger snapshot[k]]
        0 <= k < snapshot.len() && snapshot[k].process_id == ids[i] && ids.take(i).contains(
            snapshot[k].parent_process_id,
        )
}

/// A pass over a snapshot only appends: what was known stays, in place.
/// Every appended process had its parent known before it was added, so
/// the root is the one process without a parent in the set.
pub proof fn lemma_grow_appends_after_parents(ids: Seq<u32>, snapshot: Seq<ProcessEntry>)
    ensures
        grown(ids, snapshot).len() >= ids.len(),
        grown(ids, snapshot).take(ids.len() as int) == ids,
        forall|i: int|
            ids.len() <= i < grown(ids, snapshot).len() ==> #[trigger] has_earlier_parent(
                grown(ids, snapshot),
                snapshot,
                i,
            ),
    decreases snapshot.len(),
{
    if snapshot.len() > 0 {
        let rest = snapshot.drop_last();
        lemma_grow_appends_after_parents(ids, rest);
        let before = grown(ids, rest);
        let after = grown(ids, snapshot);
        let e = snapshot.last();
        assert forall|i: int| ids.len() <= i < after.len() implies #[trigger] has_earlier_parent(
            after,
            snapshot,
            i,
        ) by {
            if i < before.len() {
                assert(has_earlier_parent(before, rest, i));
                let k = choose|k: int|
                    #![trigger rest[k]]
                    0 <= k < rest.len() && rest[k].process_id == before[i] && before.take(
                        i,
                    ).contains(rest[k].parent_process_id);
                assert(after.take(i) == before.take(i));
                assert(snapshot[k] == rest[k]);
            } else {
                assert(after.take(i) == before);
                assert(snapshot[snapshot.len() - 1] == e);
            }
        }
        assert(after.take(ids.len() as int) == before.take(ids.len() as int));
    }
}

} // verus!
