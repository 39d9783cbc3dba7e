//! Book-keeping of shells in flight: which tank fired each shell, and how
//! many shells each tank has in flight (a tank may not exceed its limit).
//! Tanks and shells are identified by their entity bits.

use vstd::prelude::*;
use std::collections::HashMap;

verus! {

broadcast use vstd::std_specs::hash::group_hash_axioms;

/// The shells of `owners` that `tank` fired.
pub open spec fn bullets_of(owners: Map<u64, u64>, tank: u64) -> Set<u64> {
    owners.dom().filter(|b: u64| owners[b] == tank)
}

/// Number of shells `tank` has in flight.
pub open spec fn bullet_count(owners: Map<u64, u64>, tank: u64) -> nat {
    bullets_of(owners, tank).len()
}

/// Shells in flight, by owning tank.
pub struct BulletTracker {
    /// tank -> number of its shells in flight (tanks with none are absent).
    active_bullets: HashMap<u64, usize>,
    /// shell -> tank that fired it.
    bullet_to_tank: HashMap<u64, u64>,
}

impl View for BulletTracker {
    type V = Map<u64, u64>;

    /// Which tank fired each shell in flight.
    closed spec fn view(&self) -> Map<u64, u64> {
        self.bullet_to_tank@
    }
}

proof fn lemma_bullets_finite(owners: Map<u64, u64>, tank: u64)
    requires
        owners.dom().finite(),
    ensures
        bullets_of(owners, tank).finite(),
        bullets_of(owners, tank).len() <= owners.dom().len(),
{
    vstd::set_lib::lemma_len_subset(bullets_of(owners, tank), owners.dom());
}

proof fn lemma_bullets_after_insert(owners: Map<u64, u64>, b: u64, t: u64, tank: u64)
    requires
        owners.dom().finite(),
        !owners.contains_key(b),
    ensures
        tank == t ==> bullets_of(owners.insert(b, t), tank) == bullets_of(owners, tank).insert(b),
        tank != t ==> bullets_of(owners.insert(b, t), tank) == bullets_of(owners, tank),
        tank == t ==> bullet_count(owners.insert(b, t), tank) == bullet_count(owners, tank) + 1,
        tank != t ==> bullet_count(owners.insert(b, t), tank) == bullet_count(owners, tank),
{
    lemma_bullets_finite(owners, tank);
    if tank == t {
        assert(bullets_of(owners.insert(b, t), tank) =~= bullets_of(owners, tank).insert(b));
    } else {
        assert(bullets_of(owners.insert(b, t), tank) =~= bullets_of(owners, tank));
    }
}

proof fn lemma_bullets_after_remove(owners: Map<u64, u64>, b: u64, tank: u64)
    requires
        owners.dom().finite(),
        owners.contains_key(b),
    ensures
        tank == owners[b] ==> bullets_of(owners.remove(b), tank) == bullets_of(owners, tank).remove(b),
        tank != owners[b] ==> bullets_of(owners.remove(b), tank) == bullets_of(owners, tank),
        tank == owners[b] ==> bullet_count(owners.remove(b), tank) + 1 == bullet_count(owners, tank),
        tank != owners[b] ==> bullet_count(owners.remove(b), tank) == bullet_count(owners, tank),
{
    lemma_bullets_finite(owners, tank);
    if tank == owners[b] {
        assert(bullets_of(owners.remove(b), tank) =~= bullets_of(owners, tank).remove(b));
        assert(bullets_of(owners, tank).contains(b));
    } else {
        assert(bullets_of(owners.remove(b), tank) =~= bullets_of(owners, tank));
    }
}

impl BulletTracker {
    /// The per-tank counters agree with the shell owners: a tank is counted
    /// exactly when it has shells in flight, with the number it has.
    pub closed spec fn wf(&self) -> bool {
        &&& forall|t: u64| #[trigger] self.active_bullets@.contains_key(t)
            ==> self.active_bullets@[t] as nat == bullet_count(self.bullet_to_tank@, t)
                && self.active_bullets@[t] > 0
        &&& forall|t: u64| bullet_count(self.bullet_to_tank@, t) > 0
            ==> #[trigger] self.active_bullets@.contains_key(t)
    }

    /// An empty tracker.
    pub fn new() -> (tr: Self)
        ensures
            tr.wf(),
            tr@ == Map::<u64, u64>::empty(),
    {
        let tr = BulletTracker { active_bullets: HashMap::new(), bullet_to_tank: HashMap::new() };
        assert forall|t: u64| bullet_count(tr.bullet_to_tank@, t) > 0 implies #[trigger] tr.active_bullets@.contains_key(t) by {
            assert(bullets_of(tr.bullet_to_tank@, t) =~= Set::empty());
        }
        tr
    }

    /// Number of shells `tank` has in flight.
    pub fn active_count(&self, tank: u64) -> (n: usize)
        requires
            self.wf(),
        ensures
            n as nat == bullet_count(self@, tank),
    {
        match self.active_bullets.get(&tank) {
            Some(n) => *n,
            None => {
                proof {
                    lemma_bullets_finite(self.bullet_to_tank@, tank);
                }
                0
            },
        }
    }

    /// Whether `tank` may fire: it has fewer than `max` shells in flight.
    pub fn can_fire(&self, tank: u64, max: usize) -> (r: bool)
        requires
            self.wf(),
        ensures
            r == (bullet_count(self@, tank) < max),
    {
        self.active_count(tank) < max
    }

    /// Records that `tank` fired `bullet`. The shell must not be tracked
    /// already (tracking it twice is a logic error).
    pub fn add_bullet(&mut self, bullet: u64, tank: u64)
        requires
            old(self).wf(),
            !old(self)@.contains_key(bullet),
            old(self)@.len() < usize::MAX,
        ensures
            final(self).wf(),
            final(self)@ == old(self)@.insert(bullet, tank),
    {
        let ghost owners = self.bullet_to_tank@;
        proof {
            lemma_bullets_finite(owners, tank);
        }
        let count = self.active_count(tank);
        self.active_bullets.insert(tank, count + 1);
        self.bullet_to_tank.insert(bullet, tank);
        proof {
            let new_owners = owners.insert(bullet, tank);
            assert(self.bullet_to_tank@ == new_owners);
            assert forall|t: u64| #[trigger] self.active_bullets@.contains_key(t) implies
                self.active_bullets@[t] as nat == bullet_count(self.bullet_to_tank@, t)
                && self.active_bullets@[t] > 0 by {
                lemma_bullets_after_insert(owners, bullet, tank, t);
            }
            assert forall|t: u64| bullet_count(self.bullet_to_tank@, t) > 0 implies
                #[trigger] self.active_bullets@.contains_key(t) by {
                lemma_bullets_after_insert(owners, bullet, tank, t);
            }
        }
    }

    /// Forgets `bullet` and returns the tank that fired it, or `None` if the
    /// shell was not tracked (then nothing changes).
    pub fn remove_bullet(&mut self, bullet: u64) -> (owner: Option<u64>)
        requires
            old(self).wf(),
        ensures
            final(self).wf(),
            final(self)@ == old(self)@.remove(bullet),
            owner == if old(self)@.contains_key(bullet) { Some(old(self)@[bullet]) } else { None },
    {
        let ghost owners = self.bullet_to_tank@;
        match self.bullet_to_tank.remove(&bullet) {
            Some(tank) => {
                proof {
                    lemma_bullets_after_remove(owners, bullet, tank);
                    lemma_bullets_finite(owners, tank);
                    assert(bullets_of(owners, tank).contains(bullet));
                }
                let count = match self.active_bullets.get(&tank) {
                    Some(n) => *n,
                    None => 0,
                };
                if count > 1 {
                    self.active_bullets.insert(tank, count - 1);
                } else {
                    self.active_bullets.remove(&tank);
                }
                proof {
                    assert forall|t: u64| #[trigger] self.active_bullets@.contains_key(t) implies
                        self.active_bullets@[t] as nat == bullet_count(self.bullet_to_tank@, t)
                        && self.active_bullets@[t] > 0 by {
                        lemma_bullets_after_remove(owners, bullet, t);
                    }
                    assert forall|t: u64| bullet_count(self.bullet_to_tank@, t) > 0 implies
                        #[trigger] self.active_bullets@.contains_key(t) by {
                        lemma_bullets_after_remove(owners, bullet, t);
                    }
                }
                Some(tank)
            },
            None => {
                proof {
                    assert(owners.remove(bullet) =~= owners);
                }
                None
            },
        }
    }

    /// Forgets every shell, as when a stage is reset.
    pub fn clear(&mut self)
        ensures
            final(self).wf(),
            final(self)@ == Map::<u64, u64>::empty(),
    {
        self.active_bullets.clear();
        self.bullet_to_tank.clear();
        assert forall|t: u64| bullet_count(self.bullet_to_tank@, t) > 0 implies
            #[trigger] self.active_bullets@.contains_key(t) by {
            assert(bullets_of(self.bullet_to_tank@, t) =~= Set::empty());
        }
    }
}

impl Default for BulletTracker {
    /// An empty tracker.
    fn default() -> (tr: Self)
        ensures
            tr.wf(),
            tr@ == Map::<u64, u64>::empty(),
    {
        BulletTracker::new()
    }
}

/// Firing a shell and then forgetting it leaves the tracker as it was, and
/// the removal names the tank that fired it.
pub proof fn lemma_add_then_remove(owners: Map<u64, u64>, bullet: u64, tank: u64)
    requires
        !owners.contains_key(bullet),
    ensures
        owners.insert(bullet, tank).remove(bullet) == owners,
        owners.insert(bullet, tank).contains_key(bullet),
        owners.insert(bullet, tank)[bullet] == tank,
{
    assert(owners.insert(bullet, tank).remove(bullet) =~= owners);
}

/// Firing a shell raises the firing tank's count by one and leaves every
/// other tank's count alone; so a tank at its limit can no longer fire.
pub proof fn lemma_fire_counts(owners: Map<u64, u64>, bullet: u64, tank: u64, other: u64)
    requires
        owners.dom().finite(),
        !owners.contains_key(bullet),
        other != tank,
    ensures
        bullet_count(owners.insert(bullet, tank), tank) == bullet_count(owners, tank) + 1,
        bullet_count(owners.insert(bullet, tank), other) == bullet_count(owners, other),
{
    lemma_bullets_after_insert(owners, bullet, tank, tank);
    lemma_bullets_after_insert(owners, bullet, tank, other);
}

/// A tank allowed to fire (fewer than `max` shells in flight) has at most
/// `max` in flight after firing: the limit is never passed.
pub proof fn lemma_fire_within_limit(owners: Map<u64, u64>, bullet: u64, tank: u64, max: nat)
    requires
        owners.dom().finite(),
        !owners.contains_key(bullet),
        bullet_count(owners, tank) < max,
    ensures
        bullet_count(owners.insert(bullet, tank), tank) <= max,
{
    lemma_bullets_after_insert(owners, bullet, tank, tank);
}

} // verus!
