use vstd::prelude::*;
use crate::types::bytes_equal;

verus! {

struct SlugEntry {
    slug: Vec<u8>,
    id: u64,
}

/// A map from slugs to ids in which each slug is bound at most once.
pub struct SlugIndex {
    entries: Vec<SlugEntry>,
    bound: Ghost<Map<Seq<u8>, u64>>,
}

impl View for SlugIndex {
    type V = Map<Seq<u8>, u64>;

    closed spec fn view(&self) -> Map<Seq<u8>, u64> {
        self.bound@
    }
}

impl SlugIndex {
    pub closed spec fn wf(&self) -> bool {
        &&& forall|i: int, j: int|
            0 <= i < j < self.entries@.len() ==> #[trigger] self.entries@[i].slug@
                != #[trigger] self.entries@[j].slug@
        &&& forall|i: int|
            0 <= i < self.entries@.len() ==> self.bound@.contains_key(
                #[trigger] self.entries@[i].slug@,
            ) && self.bound@[self.entries@[i].slug@] == self.entries@[i].id
        &&& forall|s: Seq<u8>|
            #[trigger] self.bound@.contains_key(s) ==> exists|i: int|
                0 <= i < self.entries@.len() && #[trigger] self.entries@[i].slug@ == s
    }

    pub fn new() -> (r: SlugIndex)
        ensures
            r.wf(),
            r@ == Map::<Seq<u8>, u64>::empty(),
    {
        SlugIndex { entries: Vec::new(), bound: Ghost(Map::empty()) }
    }

    /// Position of the entry for `slug`, if it is bound.
    fn find(&self, slug: &Vec<u8>) -> (r: Option<usize>)
        requires
            self.wf(),
        ensures
            match r {
                Some(i) => i < self.entries@.len() && self.entries@[i as int].slug@ == slug@,
                None => !self@.contains_key(slug@),
            },
    {
        let mut i: usize = 0;
        while i < self.entries.len()
            invariant
                self.wf(),
                i <= self.entries@.len(),
                forall|j: int| 0 <= j < i ==> self.entries@[j].slug@ != slug@,
            decreases self.entries@.len() - i,
        {
            if bytes_equal(&self.entries[i].slug, slug) {
                return Some(i);
            }
            i += 1;
        }
        None
    }

    /// The id bound to `slug`.
    pub fn resolve(&self, slug: &Vec<u8>) -> (r: Option<u64>)
        requires
            self.wf(),
        ensures
            r == (if self@.contains_key(slug@) {
                Some(self@[slug@])
            } else {
                None
            }),
    {
        match self.find(slug) {
            Some(i) => Some(self.entries[i].id),
            None => None,
        }
    }

    pub fn contains(&self, slug: &Vec<u8>) -> (r: bool)
        requires
            self.wf(),
        ensures
            r == self@.contains_key(slug@),
    {
        self.find(slug).is_some()
    }

    /// Binds a slug that is not bound yet.
    pub fn bind(&mut self, slug: Vec<u8>, id: u64)
        requires
            old(self).wf(),
            !old(self)@.contains_key(slug@),
        ensures
            final(self).wf(),
            final(self)@ == old(self)@.insert(slug@, id),
    {
        let ghost s = slug@;
        let ghost old_entries = self.entries@;
        self.entries.push(SlugEntry { slug, id });
        self.bound = Ghost(self.bound@.insert(s, id));
        assert forall|t: Seq<u8>| #[trigger] self.bound@.contains_key(t) implies exists|i: int|
            0 <= i < self.entries@.len() && #[trigger] self.entries@[i].slug@ == t by {
            if t == s {
                assert(self.entries@[old_entries.len() as int].slug@ == t);
            } else {
                let i = choose|i: int| 0 <= i < old_entries.len() && #[trigger] old_entries[i].slug@ == t;
                assert(self.entries@[i].slug@ == t);
            }
        }
    }

    /// Removes the binding of `slug`, if there is one.
    pub fn unbind(&mut self, slug: &Vec<u8>)
        requires
            old(self).wf(),
        ensures
            final(self).wf(),
            final(self)@ == old(self)@.remove(slug@),
    {
        match self.find(slug) {
            Some(i) => {
                let ghost old_entries = self.entries@;
                self.entries.remove(i);
                self.bound = Ghost(self.bound@.remove(slug@));
                assert forall|t: Seq<u8>| #[trigger] self.bound@.contains_key(t) implies exists|k: int|
                    0 <= k < self.entries@.len() && #[trigger] self.entries@[k].slug@ == t by {
                    let j = choose|j: int| 0 <= j < old_entries.len() && #[trigger] old_entries[j].slug@ == t;
                    if j < i {
                        assert(self.entries@[j].slug@ == t);
                    } else {
                        assert(j != i);
                        assert(self.entries@[j - 1].slug@ == t);
                    }
                }
            },
            None => {
                assert(self.bound@.remove(slug@) =~= self.bound@);
            },
        }
    }
}

} // verus!
