//! The ignore registry: window titles that opt out of automatic hide and show.

use vstd::prelude::*;

use crate::text::same_text;

verus! {

/// A set of window titles. Titles are only ever added; adding one twice keeps one copy.
pub struct IgnoreRegistry {
    titles: Vec<String>,
    model: Ghost<Set<Seq<char>>>,
}

impl View for IgnoreRegistry {
    type V = Set<Seq<char>>;

    closed spec fn view(&self) -> Set<Seq<char>> {
        self.model@
    }
}

impl IgnoreRegistry {
    /// The stored titles are exactly the set, each once.
    pub closed spec fn wf(&self) -> bool {
        &&& self.model@.finite()
        &&& self.titles.len() == self.model@.len()
        &&& forall|i: int| 0 <= i < self.titles.len() ==> #[trigger] self.model@.contains(self.titles@[i]@)
        &&& forall|t: Seq<char>| #[trigger] self.model@.contains(t) ==> exists|i: int|
            0 <= i < self.titles.len() && self.titles@[i]@ == t
    }

    /// A registry with no titles.
    pub fn new() -> (r: IgnoreRegistry)
        ensures
            r.wf(),
            r@ == Set::<Seq<char>>::empty(),
    {
        IgnoreRegistry { titles: Vec::new(), model: Ghost(Set::empty()) }
    }

    /// The number of titles registered.
    pub fn len(&self) -> (r: usize)
        requires
            self.wf(),
        ensures
            r == self@.len(),
    {
        self.titles.len()
    }

    /// Whether `title` is registered.
    pub fn is_ignored(&self, title: &str) -> (r: bool)
        requires
            self.wf(),
        ensures
            r == self@.contains(title@),
    {
        let mut i: usize = 0;
        while i < self.titles.len()
            invariant
                self.wf(),
                i <= self.titles.len(),
                forall|j: int| 0 <= j < i ==> self.titles@[j]@ != title@,
            decreases self.titles.len() - i,
        {
            if same_text(self.titles[i].as_str(), title) {
                return true;
            }
            i += 1;
        }
        false
    }

    /// Adds `title`; a title already there is not added again.
    pub fn register(&mut self, title: &str)
        requires
            old(self).wf(),
        ensures
            final(self).wf(),
            final(self)@ == old(self)@.insert(title@),
            final(self)@.len() == old(self)@.len() + if old(self)@.contains(title@) {
                0int
            } else {
                1int
            },
    {
        if self.is_ignored(title) {
            assert(self.model@.insert(title@) =~= self.model@);
            return;
        }
        let ghost m = self.model@.insert(title@);
        self.titles.push(title.to_owned());
        self.model = Ghost(m);
        proof {
            assert forall|t: Seq<char>| #[trigger] self.model@.contains(t) implies exists|i: int|
                0 <= i < self.titles.len() && self.titles@[i]@ == t by {
                if t != title@ {
                    let i = choose|i: int|
                        0 <= i < old(self).titles.len() && old(self).titles@[i]@ == t;
                    assert(self.titles@[i]@ == t);
                } else {
                    assert(self.titles@[old(self).titles.len() as int]@ == t);
                }
            }
            assert forall|i: int| 0 <= i < self.titles.len() implies #[trigger] self.model@.contains(
                self.titles@[i]@,
            ) by {
                if i < old(self).titles.len() {
                    assert(old(self).model@.contains(old(self).titles@[i]@));
                }
            }
        }
    }

    /// Whether a window with this title may be shown and hidden automatically:
    /// `false` exactly when it has a title and that title is registered.
    pub fn should_show(&self, title: Option<&str>) -> (r: bool)
        requires
            self.wf(),
        ensures
            r == match title {
                Some(t) => !self@.contains(t@),
                None => true,
            },
    {
        match title {
            Some(t) => !self.is_ignored(t),
            None => true,
        }
    }
}

} // verus!
