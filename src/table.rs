//! The per-workspace record of the last fullscreen state seen.

use vstd::prelude::*;

use crate::text::same_text;

verus! {

/// The fullscreen state that `table` holds for workspace `w`; a workspace
/// that was never recorded counts as not fullscreen.
pub open spec fn fullscreen_in(table: Map<Seq<char>, bool>, w: Seq<char>) -> bool {
    table.contains_key(w) && table[w]
}

/// Maps workspace identifiers to the last fullscreen state recorded for them.
/// Each identifier has at most one entry; entries are never removed.
pub struct FullscreenTable {
    entries: Vec<(String, bool)>,
    model: Ghost<Map<Seq<char>, bool>>,
}

impl View for FullscreenTable {
    type V = Map<Seq<char>, bool>;

    closed spec fn view(&self) -> Map<Seq<char>, bool> {
        self.model@
    }
}

impl FullscreenTable {
    /// The entries agree with the map, and no identifier has two entries.
    pub closed spec fn wf(&self) -> bool {
        &&& forall|i: int|
            0 <= i < self.entries.len() ==> #[trigger] self.model@.contains_key(
                self.entries@[i].0@,
            ) && self.model@[self.entries@[i].0@] == self.entries@[i].1
        &&& forall|k: Seq<char>|
            #[trigger] self.model@.contains_key(k) ==> exists|i: int|
                0 <= i < self.entries.len() && self.entries@[i].0@ == k
        &&& forall|i: int, j: int|
            0 <= i < j < self.entries.len() ==> self.entries@[i].0@ != self.entries@[j].0@
    }

    /// An empty table.
    pub fn new() -> (r: FullscreenTable)
        ensures
            r.wf(),
            r@ == Map::<Seq<char>, bool>::empty(),
    {
        FullscreenTable { entries: Vec::new(), model: Ghost(Map::empty()) }
    }

    /// The index of the entry for `w`, if there is one.
    fn position(&self, w: &str) -> (r: Option<usize>)
        requires
            self.wf(),
        ensures
            match r {
                Some(i) => i < self.entries.len() && self.entries@[i as int].0@ == w@,
                None => !self@.contains_key(w@),
            },
    {
        let mut i: usize = 0;
        while i < self.entries.len()
            invariant
                self.wf(),
                i <= self.entries.len(),
                forall|j: int| 0 <= j < i ==> self.entries@[j].0@ != w@,
            decreases self.entries.len() - i,
        {
            if same_text(self.entries[i].0.as_str(), w) {
                return Some(i);
            }
            i += 1;
        }
        None
    }

    /// The recorded state of workspace `w`, `false` where none was recorded.
    pub fn lookup(&self, w: &str) -> (r: bool)
        requires
            self.wf(),
        ensures
            r == fullscreen_in(self@, w@),
    {
        match self.position(w) {
            Some(i) => self.entries[i].1,
            None => false,
        }
    }

    /// Records `value` as the state of workspace `w`, replacing any earlier one.
    pub fn record(&mut self, w: &str, value: bool)
        requires
            old(self).wf(),
        ensures
            final(self).wf(),
            final(self)@ == old(self)@.insert(w@, value),
    {
        let ghost m = old(self).model@.insert(w@, value);
        let ghost mut idx: int = 0;
        match self.position(w) {
            Some(i) => {
                let key = self.entries[i].0.clone();
                self.entries.set(i, (key, value));
                proof {
                    idx = i as int;
                }
            },
            None => {
                proof {
                    assert forall|j: int| 0 <= j < old(self).entries.len() implies old(
                        self,
                    ).entries@[j].0@ != w@ by {
                        assert(old(self).model@.contains_key(old(self).entries@[j].0@));
                    }
                    idx = self.entries.len() as int;
                }
                self.entries.push((w.to_owned(), value));
            },
        }
        self.model = Ghost(m);
        proof {
            assert(self.entries@[idx].0@ == w@);
            assert forall|j: int| 0 <= j < self.entries.len() && j != idx implies self.entries@[j]
                == old(self).entries@[j] && self.entries@[j].0@ != w@ by {}
            assert forall|j: int| 0 <= j < self.entries.len() implies #[trigger] self.model@.contains_key(
                self.entries@[j].0@,
            ) && self.model@[self.entries@[j].0@] == self.entries@[j].1 by {
                if j != idx {
                    assert(old(self).model@.contains_key(old(self).entries@[j].0@));
                }
            }
            assert forall|i: int, j: int|
                0 <= i < j < self.entries.len() implies self.entries@[i].0@
                != self.entries@[j].0@ by {
                if i != idx && j != idx {
                    assert(old(self).entries@[i].0@ != old(self).entries@[j].0@);
                }
            }
            assert forall|k: Seq<char>| #[trigger] self.model@.contains_key(k) implies exists|
                i: int,
            | 0 <= i < self.entries.len() && self.entries@[i].0@ == k by {
                if k != w@ {
                    assert(old(self).model@.contains_key(k));
                    let i = choose|i: int|
                        0 <= i < old(self).entries.len() && old(self).entries@[i].0@ == k;
                    assert(self.entries@[i].0@ == k);
                } else {
                    assert(self.entries@[idx].0@ == k);
                }
            }
        }
    }
}

} // verus!
