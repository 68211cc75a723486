use crate::packet::PacketKey;
use vstd::prelude::*;

verus! {

/// The table of packet keys whose relay is in flight. A relay that acquires
/// its key runs; one that finds the key taken waits and asks again; the
/// holder releases the key on every way out of its relay.
pub struct PacketLocks {
    held: Vec<PacketKey>,
}

impl View for PacketLocks {
    type V = Set<PacketKey>;

    closed spec fn view(&self) -> Set<PacketKey> {
        self.held@.to_set()
    }
}

impl PacketLocks {
    pub closed spec fn wf(&self) -> bool {
        self.held@.no_duplicates()
    }

    pub fn new() -> (r: Self)
        ensures
            r.wf(),
            r@ == Set::<PacketKey>::empty(),
    {
        let r = PacketLocks { held: Vec::new() };
        assert(r@ =~= Set::<PacketKey>::empty());
        r
    }

    fn position(&self, key: &PacketKey) -> (r: Option<usize>)
        ensures
            match r {
                Some(i) => i < self.held@.len() && self.held@[i as int] == *key,
                None => !self.held@.contains(*key),
            },
    {
        let mut i: usize = 0;
        while i < self.held.len()
            invariant
                i <= self.held@.len(),
                forall|j: int| 0 <= j < i ==> self.held@[j] != *key,
            decreases self.held.len() - i,
        {
            if self.held[i] == *key {
                return Some(i);
            }
            i = i + 1;
        }
        None
    }

    pub fn is_held(&self, key: &PacketKey) -> (r: bool)
        ensures
            r == self@.contains(*key),
    {
        self.position(key).is_some()
    }

    /// Takes the key where no relay holds it; tells whether it did.
    pub fn try_acquire(&mut self, key: PacketKey) -> (r: bool)
        requires
            old(self).wf(),
        ensures
            final(self).wf(),
            r == !old(self)@.contains(key),
            final(self)@ == old(self)@.insert(key),
    {
        match self.position(&key) {
            Some(_) => {
                assert(self@.insert(key) =~= self@);
                false
            },
            None => {
                let ghost before = self.held@;
                self.held.push(key);
                proof {
                    assert(self.held@.no_duplicates()) by {
                        assert forall|a: int, b: int|
                            0 <= a < b < self.held@.len() implies self.held@[a] != self.held@[b] by {
                            if b == before.len() {
                                assert(before.contains(before[a]));
                            }
                        }
                    }
                    assert forall|x: PacketKey| self.held@.contains(x) <==> (before.contains(x)
                        || x == key) by {
                        if self.held@.contains(x) {
                            let k = choose|k: int| 0 <= k < self.held@.len() && self.held@[k] == x;
                            if k < before.len() {
                                assert(before[k] == x);
                            }
                        }
                        if before.contains(x) {
                            let k = choose|k: int| 0 <= k < before.len() && before[k] == x;
                            assert(self.held@[k] == x);
                        }
                        if x == key {
                            assert(self.held@[before.len() as int] == key);
                        }
                    }
                    assert(self@ =~= before.to_set().insert(key));
                }
                true
            },
        }
    }

    /// Gives the key up.
    pub fn release(&mut self, key: &PacketKey)
        requires
            old(self).wf(),
        ensures
            final(self).wf(),
            final(self)@ == old(self)@.remove(*key),
    {
        match self.position(key) {
            None => {
                assert(self@.remove(*key) =~= self@);
            },
            Some(i) => {
                let ghost before = self.held@;
                self.held.remove(i);
                proof {
                    let after = self.held@;
                    assert(after == before.remove(i as int));
                    assert forall|a: int, b: int|
                        0 <= a < b < after.len() implies after[a] != after[b] by {
                        let a0 = if a < i { a } else { a + 1 };
                        let b0 = if b < i { b } else { b + 1 };
                        assert(after[a] == before[a0] && after[b] == before[b0]);
                    }
                    assert forall|x: PacketKey| after.contains(x) <==> (before.contains(x) && x
                        != *key) by {
                        if after.contains(x) {
                            let k = choose|k: int| 0 <= k < after.len() && after[k] == x;
                            let k0 = if k < i { k } else { k + 1 };
                            assert(before[k0] == x);
                            assert(k0 != i);
                        }
                        if before.contains(x) && x != *key {
                            let k0 = choose|k: int| 0 <= k < before.len() && before[k] == x;
                            assert(k0 != i);
                            if k0 < i {
                                assert(after[k0] == x);
                            } else {
                                assert(after[k0 - 1] == x);
                            }
                        }
                    }
                    assert(self@ =~= before.to_set().remove(*key));
                }
            },
        }
    }
}

/// One operation on the lock table: a relay asks for a key, or gives it up.
#[derive(Clone, Copy, Debug, PartialEq, Eq, Structural)]
pub enum LockOp {
    Acquire(PacketKey),
    Release(PacketKey),
}

/// The keys held after `ops`, applied in order to an empty table.
pub open spec fn held_after(ops: Seq<LockOp>) -> Set<PacketKey>
    decreases ops.len(),
{
    if ops.len() == 0 {
        Set::empty()
    } else {
        let held = held_after(ops.drop_last());
        match ops.last() {
            LockOp::Acquire(k) => held.insert(k),
            LockOp::Release(k) => held.remove(k),
        }
    }
}

/// The number of relays that were granted `key` in `ops` (an `Acquire` of a
/// key that nobody held) and the number that gave it up while holding it.
pub open spec fn grants_and_releases(ops: Seq<LockOp>, key: PacketKey) -> (nat, nat)
    decreases ops.len(),
{
    if ops.len() == 0 {
        (0, 0)
    } else {
        let prev = ops.drop_last();
        let (g, r) = grants_and_releases(prev, key);
        let held = held_after(prev).contains(key);
        match ops.last() {
            LockOp::Acquire(k) => if k == key && !held {
                (g + 1, r)
            } else {
                (g, r)
            },
            LockOp::Release(k) => if k == key && held {
                (g, r + 1)
            } else {
                (g, r)
            },
        }
    }
}

/// Whatever the order in which relays ask for and give up keys, at every
/// point at most one relay is running for a key: the grants of the key
/// outnumber its releases by one while it is held and by none otherwise.
pub proof fn lemma_lock_exclusivity(ops: Seq<LockOp>, key: PacketKey)
    ensures
        grants_and_releases(ops, key).0 == grants_and_releases(ops, key).1 + if held_after(
            ops,
        ).contains(key) {
            1nat
        } else {
            0nat
        },
    decreases ops.len(),
{
    if ops.len() > 0 {
        lemma_lock_exclusivity(ops.drop_last(), key);
    }
}

} // verus!
