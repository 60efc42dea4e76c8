//! The client table: the single source of truth for "is this window managed".
//!
//! It relates each managed child window to the decorating frame it was
//! reparented into.  Child and frame identifiers are each unique keys, so the
//! child-to-frame mapping is bijective; every event handler checks a lookup
//! here before acting on a window identifier.

use vstd::prelude::*;

use crate::errors::WmError;

verus! {

/// Does some child of `m` map to the frame `f`?
pub open spec fn frame_used(m: Map<u64, u64>, f: u64) -> bool {
    exists|c: u64| #[trigger] m.dom().contains(c) && m[c] == f
}

/// The child of `m` that maps to the frame `f` (meaningful when `frame_used`).
pub open spec fn child_for_frame(m: Map<u64, u64>, f: u64) -> u64 {
    choose|c: u64| #[trigger] m.dom().contains(c) && m[c] == f
}

/// No two children map to the same frame.
pub open spec fn injective(m: Map<u64, u64>) -> bool {
    forall|c1: u64, c2: u64|
        m.dom().contains(c1) && m.dom().contains(c2) && c1 != c2 ==> m[c1] != m[c2]
}

/// Some pair of `s` has child component `c`.
spec fn seq_has_child(s: Seq<(u64, u64)>, c: u64) -> bool {
    exists|i: int| 0 <= i < s.len() && (#[trigger] s[i]).0 == c
}

/// The index of the pair of `s` whose child component is `c`.
spec fn seq_child_index(s: Seq<(u64, u64)>, c: u64) -> int {
    choose|i: int| 0 <= i < s.len() && (#[trigger] s[i]).0 == c
}

/// The child-to-frame mapping held in a sequence of pairs.
spec fn seq_map(s: Seq<(u64, u64)>) -> Map<u64, u64> {
    Map::new(|c: u64| seq_has_child(s, c), |c: u64| s[seq_child_index(s, c)].1)
}

/// Children pairwise distinct and frames pairwise distinct.
spec fn seq_wf(s: Seq<(u64, u64)>) -> bool {
    &&& forall|i: int, j: int|
        0 <= i < j < s.len() ==> (#[trigger] s[i]).0 != (#[trigger] s[j]).0
    &&& forall|i: int, j: int|
        0 <= i < j < s.len() ==> (#[trigger] s[i]).1 != (#[trigger] s[j]).1
}

/// Any pair of a well-formed sequence is reflected in its mapping.
proof fn lemma_entry_in_map(s: Seq<(u64, u64)>, i: int)
    requires
        seq_wf(s),
        0 <= i < s.len(),
    ensures
        seq_map(s).dom().contains(s[i].0),
        seq_map(s)[s[i].0] == s[i].1,
{
    let c = s[i].0;
    assert(seq_has_child(s, c));
    let k = seq_child_index(s, c);
    if k != i {
        assert(false);
    }
}

/// The mapping of a well-formed sequence has one key per pair.
proof fn lemma_seq_map_len(s: Seq<(u64, u64)>)
    requires
        seq_wf(s),
    ensures
        seq_map(s).dom().finite(),
        seq_map(s).dom().len() == s.len(),
    decreases s.len(),
{
    if s.len() == 0 {
        assert(seq_map(s).dom() =~= Set::<u64>::empty());
    } else {
        let t = s.drop_last();
        let last = s.last();
        let n = s.len() as int;
        lemma_seq_map_len(t);
        assert forall|c: u64| seq_map(s).dom().contains(c)
            implies seq_map(t).dom().contains(c) || c == last.0 by {
            let i = choose|i: int| 0 <= i < s.len() && (#[trigger] s[i]).0 == c;
            if i < n - 1 {
                assert(t[i].0 == c);
            }
        }
        assert forall|c: u64| seq_map(t).dom().contains(c) || c == last.0
            implies seq_map(s).dom().contains(c) by {
            if seq_map(t).dom().contains(c) {
                let i = choose|i: int| 0 <= i < t.len() && (#[trigger] t[i]).0 == c;
                assert(s[i].0 == c);
            } else {
                assert(s[n - 1].0 == c);
            }
        }
        assert(seq_map(s).dom() =~= seq_map(t).dom().insert(last.0));
        if seq_map(t).dom().contains(last.0) {
            let i = choose|i: int| 0 <= i < t.len() && (#[trigger] t[i]).0 == last.0;
            assert(s[i].0 == last.0);
            assert(false);
        }
    }
}

/// The table of managed windows: child window identifier to frame identifier.
pub struct ClientTable {
    entries: Vec<(u64, u64)>,
}

impl View for ClientTable {
    type V = Map<u64, u64>;

    /// The table as the mapping from managed child to its frame.
    closed spec fn view(&self) -> Map<u64, u64> {
        seq_map(self.entries@)
    }
}

impl ClientTable {
    /// The representation backs a bijective mapping.
    pub closed spec fn wf(self) -> bool {
        seq_wf(self.entries@)
    }

    /// A well-formed table is an injective (hence bijective) mapping.
    pub proof fn lemma_wf_injective(self)
        requires
            self.wf(),
        ensures
            injective(self@),
    {
        let s = self.entries@;
        assert forall|c1: u64, c2: u64|
            self@.dom().contains(c1) && self@.dom().contains(c2) && c1 != c2
                implies self@[c1] != self@[c2] by {
            let i1 = choose|i: int| 0 <= i < s.len() && (#[trigger] s[i]).0 == c1;
            let i2 = choose|i: int| 0 <= i < s.len() && (#[trigger] s[i]).0 == c2;
            lemma_entry_in_map(s, i1);
            lemma_entry_in_map(s, i2);
        }
    }

    /// An empty table.
    pub fn new() -> (r: Self)
        ensures
            r.wf(),
            r@ == Map::<u64, u64>::empty(),
    {
        let r = ClientTable { entries: Vec::new() };
        proof {
            assert(r@ =~= Map::<u64, u64>::empty());
        }
        r
    }

    /// How many windows are managed.
    pub fn len(&self) -> (r: usize)
        requires
            self.wf(),
        ensures
            r == self@.dom().len(),
            self@.dom().finite(),
    {
        proof {
            lemma_seq_map_len(self.entries@);
        }
        self.entries.len()
    }

    /// Insert a newly framed window.  Succeeds exactly when neither the child
    /// nor the frame key is already in use; a failed insert leaves the table
    /// unchanged, so the bijection can never be broken from outside.
    pub fn insert(&mut self, child: u64, frame: u64) -> (r: Result<(), WmError>)
        requires
            old(self).wf(),
        ensures
            final(self).wf(),
            match r {
                Ok(()) => {
                    &&& !old(self)@.dom().contains(child)
                    &&& !frame_used(old(self)@, frame)
                    &&& final(self)@ == old(self)@.insert(child, frame)
                },
                Err(e) => {
                    &&& e == WmError::DuplicateClient
                    &&& (old(self)@.dom().contains(child) || frame_used(old(self)@, frame))
                    &&& final(self)@ == old(self)@
                },
            },
    {
        let n = self.entries.len();
        let mut i: usize = 0;
        while i < n
            invariant
                *self == *old(self),
                self.wf(),
                n == self.entries@.len(),
                0 <= i <= n,
                forall|k: int|
                    0 <= k < i ==> (#[trigger] self.entries@[k]).0 != child
                        && self.entries@[k].1 != frame,
            decreases n - i,
        {
            let (c, f) = self.entries[i];
            if c == child || f == frame {
                proof {
                    lemma_entry_in_map(self.entries@, i as int);
                    if c != child {
                        assert(self@.dom().contains(c) && self@[c] == frame);
                        assert(frame_used(self@, frame));
                    }
                }
                return Err(WmError::DuplicateClient);
            }
            i += 1;
        }
        proof {
            let s = self.entries@;
            if self@.dom().contains(child) {
                let k = choose|k: int| 0 <= k < s.len() && (#[trigger] s[k]).0 == child;
                assert(false);
            }
            if frame_used(self@, frame) {
                let c = choose|c: u64| #[trigger] self@.dom().contains(c) && self@[c] == frame;
                let k = choose|k: int| 0 <= k < s.len() && (#[trigger] s[k]).0 == c;
                lemma_entry_in_map(s, k);
                assert(false);
            }
        }
        let ghost before = self.entries@;
        self.entries.push((child, frame));
        proof {
            let s = self.entries@;
            assert forall|i2: int, j2: int| 0 <= i2 < j2 < s.len()
                implies (#[trigger] s[i2]).0 != (#[trigger] s[j2]).0
                    && s[i2].1 != s[j2].1 by {
                if j2 == s.len() - 1 {
                    if s[i2].0 == child || s[i2].1 == frame {
                        assert(before[i2] == s[i2]);
                        lemma_entry_in_map(before, i2);
                        assert(false);
                    }
                }
            }
            let target = seq_map(before).insert(child, frame);
            assert forall|c: u64| #[trigger] seq_map(s).dom().contains(c)
                implies target.dom().contains(c) by {
                let k = choose|k: int| 0 <= k < s.len() && (#[trigger] s[k]).0 == c;
                if k < before.len() {
                    assert(before[k].0 == c);
                    assert(seq_has_child(before, c));
                }
            }
            assert forall|c: u64| #[trigger] target.dom().contains(c)
                implies seq_map(s).dom().contains(c) && seq_map(s)[c] == target[c] by {
                if c == child {
                    assert(s[s.len() - 1].0 == c);
                    lemma_entry_in_map(s, s.len() - 1);
                } else {
                    assert(seq_map(before).dom().contains(c));
                    let k = choose|k: int| 0 <= k < before.len() && (#[trigger] before[k]).0 == c;
                    assert(s[k].0 == c);
                    lemma_entry_in_map(s, k);
                    lemma_entry_in_map(before, k);
                }
            }
            assert(seq_map(s).dom() =~= target.dom());
            assert(self@ =~= target);
        }
        Ok(())
    }

    /// The frame decorating `id`, when `id` is a managed child.
    pub fn lookup_by_child(&self, id: u64) -> (r: Option<u64>)
        requires
            self.wf(),
        ensures
            r == if self@.dom().contains(id) {
                Some(self@[id])
            } else {
                None::<u64>
            },
    {
        let n = self.entries.len();
        let mut i: usize = 0;
        while i < n
            invariant
                self.wf(),
                n == self.entries@.len(),
                0 <= i <= n,
                forall|k: int| 0 <= k < i ==> (#[trigger] self.entries@[k]).0 != id,
            decreases n - i,
        {
            let (c, f) = self.entries[i];
            if c == id {
                proof {
                    lemma_entry_in_map(self.entries@, i as int);
                }
                return Some(f);
            }
            i += 1;
        }
        proof {
            let s = self.entries@;
            if self@.dom().contains(id) {
                let k = choose|k: int| 0 <= k < s.len() && (#[trigger] s[k]).0 == id;
                assert(false);
            }
        }
        None
    }

    /// The managed child living inside the frame `id`, if any.
    pub fn lookup_by_frame(&self, id: u64) -> (r: Option<u64>)
        requires
            self.wf(),
        ensures
            r == if frame_used(self@, id) {
                Some(child_for_frame(self@, id))
            } else {
                None::<u64>
            },
    {
        let n = self.entries.len();
        let mut i: usize = 0;
        while i < n
            invariant
                self.wf(),
                n == self.entries@.len(),
                0 <= i <= n,
                forall|k: int| 0 <= k < i ==> (#[trigger] self.entries@[k]).1 != id,
            decreases n - i,
        {
            let (c, f) = self.entries[i];
            if f == id {
                proof {
                    lemma_entry_in_map(self.entries@, i as int);
                    assert(frame_used(self@, id));
                    let c2 = child_for_frame(self@, id);
                    if c2 != c {
                        self.lemma_wf_injective();
                    }
                }
                return Some(c);
            }
            i += 1;
        }
        proof {
            let s = self.entries@;
            if frame_used(self@, id) {
                let c = choose|c: u64| #[trigger] self@.dom().contains(c) && self@[c] == id;
                let k = choose|k: int| 0 <= k < s.len() && (#[trigger] s[k]).0 == c;
                lemma_entry_in_map(s, k);
                assert(false);
            }
        }
        None
    }

    /// Remove the entry whose child is `id`; absent keys are ignored.
    pub fn remove_by_child(&mut self, id: u64)
        requires
            old(self).wf(),
        ensures
            final(self).wf(),
            final(self)@ == old(self)@.remove(id),
    {
        let n = self.entries.len();
        let mut i: usize = 0;
        while i < n
            invariant
                *self == *old(self),
                self.wf(),
                n == self.entries@.len(),
                0 <= i <= n,
                forall|k: int| 0 <= k < i ==> (#[trigger] self.entries@[k]).0 != id,
            decreases n - i,
        {
            let (c, _f) = self.entries[i];
            if c == id {
                let ghost before = self.entries@;
                self.entries.remove(i);
                proof {
                    lemma_remove_index(before, i as int);
                    assert(self@ =~= seq_map(before).remove(id));
                }
                return;
            }
            i += 1;
        }
        proof {
            let s = self.entries@;
            if self@.dom().contains(id) {
                let k = choose|k: int| 0 <= k < s.len() && (#[trigger] s[k]).0 == id;
                assert(false);
            }
            assert(self@ =~= self@.remove(id));
        }
    }

    /// Remove the entry whose frame is `id`; absent keys are ignored.
    pub fn remove_by_frame(&mut self, id: u64)
        requires
            old(self).wf(),
        ensures
            final(self).wf(),
            final(self)@ == if frame_used(old(self)@, id) {
                old(self)@.remove(child_for_frame(old(self)@, id))
            } else {
                old(self)@
            },
    {
        let child = self.lookup_by_frame(id);
        match child {
            Some(c) => {
                self.remove_by_child(c);
            },
            None => {},
        }
    }
}

/// Removing the pair at index `i` removes exactly that child from the mapping.
proof fn lemma_remove_index(s: Seq<(u64, u64)>, i: int)
    requires
        seq_wf(s),
        0 <= i < s.len(),
    ensures
        seq_wf(s.remove(i)),
        seq_map(s.remove(i)) =~= seq_map(s).remove(s[i].0),
{
    let id = s[i].0;
    let t = s.remove(i);
    assert(t.len() == s.len() - 1);
    assert forall|k: int| 0 <= k < t.len() implies #[trigger] t[k] == (if k < i {
        s[k]
    } else {
        s[k + 1]
    }) by {}
    assert forall|c: u64| seq_map(t).dom().contains(c)
        implies seq_map(s).remove(id).dom().contains(c)
            && seq_map(s).remove(id)[c] == seq_map(t)[c] by {
        let k = choose|k: int| 0 <= k < t.len() && (#[trigger] t[k]).0 == c;
        let korig = if k < i { k } else { k + 1 };
        assert(s[korig].0 == c && s[korig].1 == t[k].1);
        lemma_entry_in_map(s, korig);
        lemma_entry_in_map(t, k);
        assert(c != id);
    }
    assert forall|c: u64| seq_map(s).remove(id).dom().contains(c)
        implies seq_map(t).dom().contains(c) by {
        let k = choose|k: int| 0 <= k < s.len() && (#[trigger] s[k]).0 == c;
        assert(c != id);
        if k < i {
            assert(t[k].0 == c);
        } else {
            assert(k > i);
            assert(t[k - 1].0 == c);
        }
    }
}

} // verus!
