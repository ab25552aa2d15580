//! The connectivity store: the set of ordered node pairs currently blocked.
//!
//! The set is directional: blocking `(a, b)` says nothing about `(b, a)`.
//! It is held in a lock-free concurrent set so that many scheduling units
//! can consult and toggle it at once; the contracts here describe the pair
//! set each primitive leaves behind.

use vstd::prelude::*;

verus! {

broadcast use vstd::seq_lib::lemma_seq_contains_after_push;

/// The set of ordered `(source, dest)` node pairs whose messages are
/// currently blocked by a simulated partition.
#[verifier::external_body]
pub struct DisconnectSet {
    inner: scc::HashSet<(u64, u64)>,
}

/// The ordered node pairs a [`DisconnectSet`] currently holds.
pub uninterp spec fn blocked_pairs(s: DisconnectSet) -> Set<(u64, u64)>;

/// The ordered cross pairs a partition start blocks: every `(a, b)` with
/// `a` in the first group, `b` in the second, and `a != b`.
pub open spec fn partition_pairs(g1: Seq<u64>, g2: Seq<u64>) -> Set<(u64, u64)> {
    Set::new(|p: (u64, u64)| g1.contains(p.0) && g2.contains(p.1) && p.0 != p.1)
}

/// The ordered cross pairs a partition recovery clears: every `(a, b)` with
/// `a` in the first group and `b` in the second.
pub open spec fn recovery_pairs(g1: Seq<u64>, g2: Seq<u64>) -> Set<(u64, u64)> {
    Set::new(|p: (u64, u64)| g1.contains(p.0) && g2.contains(p.1))
}

impl DisconnectSet {
    /// Relies on scc::HashSet::new: a freshly built set holds no key.
    #[verifier::external_body]
    pub fn new() -> (r: DisconnectSet)
        ensures
            blocked_pairs(r) == Set::<(u64, u64)>::empty(),
    {
        DisconnectSet { inner: scc::HashSet::new() }
    }

    /// Relies on scc::HashSet::contains_sync: a key is found exactly when
    /// the set holds it.
    #[verifier::external_body]
    pub fn contains(&self, src: u64, dst: u64) -> (r: bool)
        ensures
            r == blocked_pairs(*self).contains((src, dst)),
    {
        self.inner.contains_sync(&(src, dst))
    }

    /// Relies on scc::HashSet::insert_sync: afterwards the set holds the
    /// key, whether or not it was already present (a duplicate insertion is
    /// answered with an error and changes nothing).
    #[verifier::external_body]
    pub fn insert(&mut self, src: u64, dst: u64)
        ensures
            blocked_pairs(*final(self)) == blocked_pairs(*old(self)).insert((src, dst)),
    {
        let _ = self.inner.insert_sync((src, dst));
    }

    /// Relies on scc::HashSet::remove_sync: afterwards the set no longer
    /// holds the key (removing an absent key is answered with `None` and
    /// changes nothing).
    #[verifier::external_body]
    pub fn remove(&mut self, src: u64, dst: u64)
        ensures
            blocked_pairs(*final(self)) == blocked_pairs(*old(self)).remove((src, dst)),
    {
        let _ = self.inner.remove_sync(&(src, dst));
    }

    /// Block every ordered cross pair of the two groups, skipping the
    /// diagonal: afterwards the set holds its old pairs plus every
    /// `(a, b)` with `a` in `ids1`, `b` in `ids2`, `a != b`.
    pub fn block_partition(&mut self, ids1: &Vec<u64>, ids2: &Vec<u64>)
        ensures
            blocked_pairs(*final(self)) == blocked_pairs(*old(self)).union(
                partition_pairs(ids1@, ids2@),
            ),
    {
        let ghost b0 = blocked_pairs(*self);
        let mut i: usize = 0;
        while i < ids1.len()
            invariant
                i <= ids1.len(),
                blocked_pairs(*self) == b0.union(partition_pairs(ids1@.take(i as int), ids2@)),
            decreases ids1.len() - i,
        {
            let a = ids1[i];
            let ghost bi = blocked_pairs(*self);
            let mut j: usize = 0;
            while j < ids2.len()
                invariant
                    j <= ids2.len(),
                    i < ids1.len(),
                    a == ids1@[i as int],
                    bi == b0.union(partition_pairs(ids1@.take(i as int), ids2@)),
                    blocked_pairs(*self) == bi.union(
                        partition_pairs(seq![a], ids2@.take(j as int)),
                    ),
                decreases ids2.len() - j,
            {
                let b = ids2[j];
                if a != b {
                    self.insert(a, b);
                }
                proof {
                    assert(ids2@.take(j + 1 as int) =~= ids2@.take(j as int).push(ids2@[j as int]));
                    assert(blocked_pairs(*self) =~= bi.union(
                        partition_pairs(seq![a], ids2@.take(j + 1 as int)),
                    ));
                }
                j += 1;
            }
            proof {
                assert(ids1@.take(i + 1 as int) =~= ids1@.take(i as int).push(ids1@[i as int]));
                assert(bi.union(partition_pairs(seq![a], ids2@)) =~= b0.union(
                    partition_pairs(ids1@.take(i + 1 as int), ids2@),
                ));
                assert(ids2@.take(ids2@.len() as int) =~= ids2@);
            }
            i += 1;
        }
        proof {
            assert(ids1@.take(ids1@.len() as int) =~= ids1@);
        }
    }

    /// Unblock every ordered cross pair of the two groups: afterwards the
    /// set holds its old pairs minus every `(a, b)` with `a` in `ids1` and
    /// `b` in `ids2`.
    pub fn unblock_partition(&mut self, ids1: &Vec<u64>, ids2: &Vec<u64>)
        ensures
            blocked_pairs(*final(self)) == blocked_pairs(*old(self)).difference(
                recovery_pairs(ids1@, ids2@),
            ),
    {
        let ghost b0 = blocked_pairs(*self);
        let mut i: usize = 0;
        while i < ids1.len()
            invariant
                i <= ids1.len(),
                blocked_pairs(*self) == b0.difference(
                    recovery_pairs(ids1@.take(i as int), ids2@),
                ),
            decreases ids1.len() - i,
        {
            let a = ids1[i];
            let ghost bi = blocked_pairs(*self);
            let mut j: usize = 0;
            while j < ids2.len()
                invariant
                    j <= ids2.len(),
                    i < ids1.len(),
                    a == ids1@[i as int],
                    bi == b0.difference(recovery_pairs(ids1@.take(i as int), ids2@)),
                    blocked_pairs(*self) == bi.difference(
                        recovery_pairs(seq![a], ids2@.take(j as int)),
                    ),
                decreases ids2.len() - j,
            {
                let b = ids2[j];
                self.remove(a, b);
                proof {
                    assert(ids2@.take(j + 1 as int) =~= ids2@.take(j as int).push(ids2@[j as int]));
                    assert(blocked_pairs(*self) =~= bi.difference(
                        recovery_pairs(seq![a], ids2@.take(j + 1 as int)),
                    ));
                }
                j += 1;
            }
            proof {
                assert(ids1@.take(i + 1 as int) =~= ids1@.take(i as int).push(ids1@[i as int]));
                assert(bi.difference(recovery_pairs(seq![a], ids2@)) =~= b0.difference(
                    recovery_pairs(ids1@.take(i + 1 as int), ids2@),
                ));
                assert(ids2@.take(ids2@.len() as int) =~= ids2@);
            }
            i += 1;
        }
        proof {
            assert(ids1@.take(ids1@.len() as int) =~= ids1@);
        }
    }
}

} // verus!
