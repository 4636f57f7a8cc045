use vstd::prelude::*;

verus! {

broadcast use vstd::seq_lib::group_seq_properties, vstd::seq_lib::seq_to_set_is_finite;

/// The set of job slots whose handler is currently executing.
///
/// A slot is a job's position in the runner's job list at start time. The
/// backing vector records each marked slot at most once; the public
/// contracts speak of membership only, never of order.
pub struct Tracker(Vec<usize>);

impl Tracker {
    /// The slots currently marked as running.
    pub closed spec fn view(&self) -> Set<usize> {
        self.0@.to_set()
    }

    #[verifier::type_invariant]
    spec fn wf(&self) -> bool {
        self.0@.no_duplicates()
    }

    /// Create a tracker with no slot marked.
    pub fn new() -> (t: Self)
        ensures
            t@ == Set::<usize>::empty(),
            t@.finite(),
    {
        let t = Tracker(Vec::new());
        proof {
            assert(t@ =~= Set::<usize>::empty());
        }
        t
    }

    /// Check whether the slot `id` is marked as running.
    pub fn running(&self, id: &usize) -> (r: bool)
        ensures
            r == self@.contains(*id),
    {
        let n = self.0.len();
        let mut i: usize = 0;
        while i < n
            invariant
                n == self.0.len(),
                i <= n,
                forall|j: int| 0 <= j < i ==> self.0@[j] != *id,
            decreases n - i,
        {
            if self.0[i] == *id {
                proof {
                    assert(self.0@.contains(*id));
                }
                return true;
            }
            i += 1;
        }
        proof {
            assert(!self.0@.contains(*id));
        }
        false
    }

    /// Mark the slot `id` as running; marking a slot twice changes nothing.
    /// Returns how many slots are marked afterwards.
    pub fn start(&mut self, id: &usize) -> (n: usize)
        ensures
            final(self)@ == old(self)@.insert(*id),
            final(self)@.finite(),
            n == final(self)@.len(),
    {
        proof {
            use_type_invariant(&*self);
        }
        if !self.running(id) {
            let mut v: Vec<usize> = Vec::new();
            core::mem::swap(&mut v, &mut self.0);
            v.push(*id);
            proof {
                assert forall|i: int, j: int|
                    0 <= i < v@.len() && 0 <= j < v@.len() && i != j implies v@[i] != v@[j] by {
                    assert(forall|k: int|
                        0 <= k < old(self).0@.len() ==> v@[k] == old(self).0@[k]);
                    assert(v@[v@.len() - 1] == *id);
                };
                assert(v@.to_set() =~= old(self)@.insert(*id));
            }
            self.0 = v;
        } else {
            proof {
                assert(self@ =~= old(self)@.insert(*id));
            }
        }
        proof {
            use_type_invariant(&*self);
            self.0@.unique_seq_to_set();
        }
        self.0.len()
    }

    /// Unmark the slot `id`; unmarking an unmarked slot changes nothing.
    /// Returns how many slots are still marked afterwards.
    pub fn stop(&mut self, id: &usize) -> (n: usize)
        ensures
            final(self)@ == old(self)@.remove(*id),
            final(self)@.finite(),
            n == final(self)@.len(),
    {
        proof {
            use_type_invariant(&*self);
        }
        let mut v: Vec<usize> = Vec::new();
        core::mem::swap(&mut v, &mut self.0);
        match index_of(&v, id) {
            Some(i) => {
                v.remove(i);
                proof {
                    old(self).0@.remove_ensures(i as int);
                    assert forall|p: int, q: int|
                        0 <= p < v@.len() && 0 <= q < v@.len() && p != q implies v@[p] != v@[q] by {
                        let p0: int = if p < i { p } else { p + 1 };
                        let q0: int = if q < i { q } else { q + 1 };
                        assert(v@[p] == old(self).0@[p0]);
                        assert(v@[q] == old(self).0@[q0]);
                    };
                    assert forall|a: usize| v@.contains(a) implies
                        old(self).0@.contains(a) && a != *id by {
                        let k = choose|k: int| 0 <= k < v@.len() && v@[k] == a;
                        let k0: int = if k < i { k } else { k + 1 };
                        assert(old(self).0@[k0] == a);
                        if a == *id {
                            assert(old(self).0@[i as int] == *id);
                        }
                    };
                    assert forall|a: usize| old(self).0@.contains(a) && a != *id implies
                        v@.contains(a) by {
                        let k = choose|k: int| 0 <= k < old(self).0@.len() && old(self).0@[k] == a;
                        if k < i {
                            assert(v@[k] == a);
                        } else {
                            assert(v@[k - 1] == a);
                        }
                    };
                    assert(v@.to_set() =~= old(self)@.remove(*id));
                }
            }
            None => {
                proof {
                    assert(v@.to_set() =~= old(self)@.remove(*id));
                }
            }
        }
        self.0 = v;
        proof {
            use_type_invariant(&*self);
            self.0@.unique_seq_to_set();
        }
        self.0.len()
    }
}

impl Default for Tracker {
    /// A fresh tracker with no slot marked.
    fn default() -> (t: Self)
        ensures
            t@ == Set::<usize>::empty(),
            t@.finite(),
    {
        Tracker::new()
    }
}

/// Position of the first occurrence of `x` in `v`, if any.
fn index_of(v: &Vec<usize>, x: &usize) -> (r: Option<usize>)
    ensures
        match r {
            Some(i) => i < v@.len() && v@[i as int] == *x,
            None => !v@.contains(*x),
        },
{
    let n = v.len();
    let mut i: usize = 0;
    while i < n
        invariant
            n == v@.len(),
            i <= n,
            forall|j: int| 0 <= j < i ==> v@[j] != *x,
        decreases n - i,
    {
        if v[i] == *x {
            return Some(i);
        }
        i += 1;
    }
    None
}

} // verus!
