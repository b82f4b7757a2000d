//! The set of resource identifiers that live handles hold, for one bus kind.

use vstd::prelude::*;

verus! {

/// An identifier that a registry can hold: it compares and copies by its view.
pub trait Key: View + Sized {
    fn same(&self, other: &Self) -> (r: bool)
        ensures
            r == (self@ == other@),
    ;

    fn duplicate(&self) -> (r: Self)
        ensures
            r@ == self@,
    ;
}

impl Key for i32 {
    fn same(&self, other: &i32) -> (r: bool) {
        *self == *other
    }

    fn duplicate(&self) -> (r: i32) {
        *self
    }
}

impl Key for String {
    fn same(&self, other: &String) -> (r: bool) {
        crate::platform::str_eq(self.as_str(), other.as_str())
    }

    fn duplicate(&self) -> (r: String) {
        self.clone()
    }
}

impl Key for (String, i32) {
    fn same(&self, other: &(String, i32)) -> (r: bool) {
        self.1 == other.1 && crate::platform::str_eq(self.0.as_str(), other.0.as_str())
    }

    fn duplicate(&self) -> (r: (String, i32)) {
        (self.0.clone(), self.1)
    }
}

/// Whether one of the first `n` items of `s` has the view `x`.
pub open spec fn holds_in<K: View>(s: Seq<K>, n: int, x: K::V) -> bool {
    exists|j: int| 0 <= j < n && j < s.len() && #[trigger] s[j]@ == x
}

/// The identifiers currently claimed; its view is the set of their views.
#[derive(Debug)]
pub struct Registry<K> {
    ids: Vec<K>,
}

impl<K: Key> View for Registry<K> {
    type V = Set<K::V>;

    closed spec fn view(&self) -> Set<K::V> {
        Set::new(|k: K::V| holds_in(self.ids@, self.ids@.len() as int, k))
    }
}

impl<K: Key> Registry<K> {
    /// An empty registry.
    pub fn new() -> (r: Registry<K>)
        ensures
            r@ == Set::<K::V>::empty(),
    {
        let r = Registry { ids: Vec::new() };
        assert(r@ =~= Set::<K::V>::empty());
        r
    }

    /// Whether `key` is claimed.
    pub fn contains(&self, key: &K) -> (r: bool)
        ensures
            r == self@.contains(key@),
    {
        let mut i: usize = 0;
        while i < self.ids.len()
            invariant
                i <= self.ids@.len(),
                !holds_in(self.ids@, i as int, key@),
            decreases self.ids@.len() - i,
        {
            if self.ids[i].same(key) {
                assert(self.ids@[i as int]@ == key@);
                return true;
            }
            assert(!holds_in(self.ids@, i + 1, key@)) by {
                if holds_in(self.ids@, i + 1, key@) {
                    let j = choose|j: int| 0 <= j < i + 1 && j < self.ids@.len() && #[trigger] self.ids@[j]@ == key@;
                    assert(j < i);
                    assert(holds_in(self.ids@, i as int, key@));
                }
            }
            i += 1;
        }
        false
    }

    /// Claims `key`.
    pub fn insert(&mut self, key: K)
        ensures
            final(self)@ == old(self)@.insert(key@),
    {
        let ghost k = key@;
        let ghost before = self.ids@;
        self.ids.push(key);
        assert forall|x: K::V| #[trigger] self@.contains(x) == old(self)@.insert(k).contains(x) by {
            if x == k {
                assert(self.ids@[self.ids@.len() - 1]@ == x);
            }
            if holds_in(before, before.len() as int, x) {
                let i = choose|i: int| 0 <= i < before.len() && i < before.len() && #[trigger] before[i]@ == x;
                assert(self.ids@[i]@ == x);
            }
            if holds_in(self.ids@, self.ids@.len() as int, x) {
                let i = choose|i: int| 0 <= i < self.ids@.len() && i < self.ids@.len() && #[trigger] self.ids@[i]@ == x;
                if i < before.len() {
                    assert(before[i]@ == x);
                }
            }
        }
        assert(self@ =~= old(self)@.insert(k));
    }

    /// Releases `key`.
    pub fn remove(&mut self, key: &K)
        ensures
            final(self)@ == old(self)@.remove(key@),
    {
        let mut kept: Vec<K> = Vec::new();
        let mut i: usize = 0;
        while i < self.ids.len()
            invariant
                i <= self.ids@.len(),
                forall|x: K::V| #[trigger] holds_in(kept@, kept@.len() as int, x)
                    <==> (x != key@ && holds_in(self.ids@, i as int, x)),
            decreases self.ids@.len() - i,
        {
            let ghost before = kept@;
            if !self.ids[i].same(key) {
                let item = self.ids[i].duplicate();
                kept.push(item);
                assert forall|x: K::V| #[trigger] holds_in(kept@, kept@.len() as int, x)
                    <==> (x != key@ && holds_in(self.ids@, i + 1, x)) by {
                    if holds_in(kept@, kept@.len() as int, x) {
                        let j = choose|j: int| 0 <= j < kept@.len() && j < kept@.len() && #[trigger] kept@[j]@ == x;
                        if j < before.len() {
                            assert(before[j]@ == x);
                            assert(holds_in(before, before.len() as int, x));
                            let m = choose|m: int| 0 <= m < i && m < self.ids@.len() && #[trigger] self.ids@[m]@ == x;
                            assert(self.ids@[m]@ == x);
                        } else {
                            assert(self.ids@[i as int]@ == x);
                        }
                    }
                    if x != key@ && holds_in(self.ids@, i + 1, x) {
                        let j = choose|j: int| 0 <= j < i + 1 && j < self.ids@.len() && #[trigger] self.ids@[j]@ == x;
                        if j < i {
                            assert(holds_in(self.ids@, i as int, x));
                            assert(holds_in(before, before.len() as int, x));
                            let m = choose|m: int| 0 <= m < before.len() && m < before.len() && #[trigger] before[m]@ == x;
                            assert(kept@[m]@ == x);
                        } else {
                            assert(kept@[kept@.len() - 1]@ == x);
                        }
                    }
                }
            } else {
                assert forall|x: K::V| #[trigger] holds_in(kept@, kept@.len() as int, x)
                    <==> (x != key@ && holds_in(self.ids@, i + 1, x)) by {
                    if x != key@ && holds_in(self.ids@, i + 1, x) {
                        let j = choose|j: int| 0 <= j < i + 1 && j < self.ids@.len() && #[trigger] self.ids@[j]@ == x;
                        assert(j < i);
                        assert(holds_in(self.ids@, i as int, x));
                    }
                    if holds_in(kept@, kept@.len() as int, x) {
                        assert(holds_in(self.ids@, i as int, x));
                        let m = choose|m: int| 0 <= m < i && m < self.ids@.len() && #[trigger] self.ids@[m]@ == x;
                        assert(self.ids@[m]@ == x);
                    }
                }
            }
            i += 1;
        }
        let ghost old_view = self@;
        self.ids = kept;
        assert(self@ =~= old_view.remove(key@));
    }
}

} // verus!
