//! The target store: each discovered gateway address with the time it was
//! last observed, and eviction of stale entries.

use vstd::prelude::*;

use crate::clock::now_nanos;
use crate::route::{outcome_view, QueryFailure};

verus! {

/// Nanoseconds in the staleness threshold after which a target is purged
/// (four hours).
pub const PURGE_AGE_NANOS: u128 = 4 * 60 * 60 * 1_000_000_000;

/// Whether an entry last seen at `last_seen` has expired at `now` for a
/// maximum age of `max_age` (all in nanoseconds). A time stamp later than
/// `now` has no age and counts as expired.
pub open spec fn expired(last_seen: int, now: int, max_age: int) -> bool {
    now < last_seen || now - last_seen >= max_age
}

/// The entries of `m` that survive an eviction at `now` for `max_age`.
pub open spec fn evicted(m: Map<Seq<char>, i128>, now: i128, max_age: u128) -> Map<
    Seq<char>,
    i128,
> {
    Map::new(
        |k: Seq<char>| m.contains_key(k) && !expired(m[k] as int, now as int, max_age as int),
        |k: Seq<char>| m[k],
    )
}

/// The store after a poll outcome for one address family at `now`: a found
/// gateway is inserted or refreshed; no gateway, or a failure, changes nothing.
pub open spec fn poll_update(
    m: Map<Seq<char>, i128>,
    outcome: Result<Option<Seq<char>>, Seq<char>>,
    now: i128,
) -> Map<Seq<char>, i128> {
    match outcome {
        Ok(Some(a)) => m.insert(a, now),
        _ => m,
    }
}

/// One discovered address and the time it was last observed.
struct TargetEntry {
    address: String,
    last_seen: i128,
}

/// The discovered targets, each address at most once with the time stamp
/// (nanoseconds since the Unix epoch, negative before it) of its latest
/// observation.
pub struct ProbeTargets {
    entries: Vec<TargetEntry>,
    model: Ghost<Map<Seq<char>, i128>>,
}

impl View for ProbeTargets {
    type V = Map<Seq<char>, i128>;

    closed spec fn view(&self) -> Map<Seq<char>, i128> {
        self.model@
    }
}

impl ProbeTargets {
    /// The entries hold each address once and agree with the model.
    pub closed spec fn wf(&self) -> bool {
        &&& forall|i: int, j: int|
            0 <= i < j < self.entries@.len() ==> self.entries@[i].address@
                != self.entries@[j].address@
        &&& forall|i: int|
            0 <= i < self.entries@.len() ==> self.model@.contains_key(
                #[trigger] self.entries@[i].address@,
            ) && self.model@[self.entries@[i].address@] == self.entries@[i].last_seen
        &&& forall|k: Seq<char>| #[trigger]
            self.model@.contains_key(k) ==> exists|i: int|
                0 <= i < self.entries@.len() && #[trigger] self.entries@[i].address@ == k
    }

    /// An empty store.
    pub fn new() -> (r: Self)
        ensures
            r.wf(),
            r@ == Map::<Seq<char>, i128>::empty(),
    {
        ProbeTargets { entries: Vec::new(), model: Ghost(Map::empty()) }
    }

    /// Records `target_ip` as observed at `now`: a new entry, or a refresh of
    /// the time stamp of the entry that already holds this address.
    pub fn add_target_at(&mut self, target_ip: String, now: i128)
        requires
            old(self).wf(),
        ensures
            final(self).wf(),
            final(self)@ == old(self)@.insert(target_ip@, now),
    {
        let ghost m = self.model@;
        let ghost old_entries = self.entries@;
        let mut i: usize = 0;
        while i < self.entries.len()
            invariant
                self.wf(),
                self.model@ == m,
                m == old(self)@,
                self.entries@ == old_entries,
                i <= self.entries@.len(),
                forall|j: int| 0 <= j < i ==> self.entries@[j].address@ != target_ip@,
            decreases self.entries@.len() - i,
        {
            if self.entries[i].address == target_ip {
                self.entries[i].last_seen = now;
                self.model = Ghost(m.insert(target_ip@, now));
                assert(self.entries@.len() == old_entries.len());
                assert forall|j: int| 0 <= j < old_entries.len() implies (
                #[trigger] self.entries@[j]).address@ == old_entries[j].address@ && (j != i
                    ==> self.entries@[j].last_seen == old_entries[j].last_seen) by {}
                assert(self.model@.dom() =~= m.dom());
                assert forall|k: Seq<char>| #[trigger]
                    self.model@.contains_key(k) implies exists|j: int|
                    0 <= j < self.entries@.len() && #[trigger] self.entries@[j].address@ == k by {
                    assert(m.contains_key(k));
                    let j = choose|j: int| 0 <= j < old_entries.len() && old_entries[j].address@ == k;
                    assert(self.entries@[j].address@ == k);
                }
                return;
            }
            i = i + 1;
        }
        self.entries.push(TargetEntry { address: target_ip, last_seen: now });
        self.model = Ghost(m.insert(target_ip@, now));
        assert(self.entries@.len() == old_entries.len() + 1);
        assert forall|j: int| 0 <= j < old_entries.len() implies #[trigger] self.entries@[j]
            == old_entries[j] by {}
        assert forall|k: Seq<char>| #[trigger] self.model@.contains_key(k) implies exists|j: int|
            0 <= j < self.entries@.len() && #[trigger] self.entries@[j].address@ == k by {
            if k == target_ip@ {
                assert(self.entries@[old_entries.len() as int].address@ == k);
            } else {
                assert(m.contains_key(k));
                let j = choose|j: int| 0 <= j < old_entries.len() && old_entries[j].address@ == k;
                assert(self.entries@[j].address@ == k);
            }
        }
    }

    /// Records `target_ip` as observed now, by the system clock.
    pub fn add_target(&mut self, target_ip: String)
        requires
            old(self).wf(),
        ensures
            final(self).wf(),
            exists|t: i128| final(self)@ == old(self)@.insert(target_ip@, t),
    {
        let now = now_nanos();
        self.add_target_at(target_ip, now);
    }

    /// Applies the outcomes of one poll at `now`: each family's gateway, if
    /// one was found, is recorded; a family that found none, or whose query
    /// failed, changes nothing and does not keep the other from being recorded.
    pub fn collect_targets_at(
        &mut self,
        ipv4: Result<Option<String>, QueryFailure>,
        ipv6: Result<Option<String>, QueryFailure>,
        now: i128,
    )
        requires
            old(self).wf(),
        ensures
            final(self).wf(),
            final(self)@ == poll_update(
                poll_update(old(self)@, outcome_view(ipv4), now),
                outcome_view(ipv6),
                now,
            ),
    {
        match ipv4 {
            Ok(Some(a)) => self.add_target_at(a, now),
            _ => {},
        }
        match ipv6 {
            Ok(Some(a)) => self.add_target_at(a, now),
            _ => {},
        }
    }

    /// Applies the outcomes of one poll at the present time.
    pub fn collect_targets(
        &mut self,
        ipv4: Result<Option<String>, QueryFailure>,
        ipv6: Result<Option<String>, QueryFailure>,
    )
        requires
            old(self).wf(),
        ensures
            final(self).wf(),
            exists|t: i128|
                final(self)@ == poll_update(
                    poll_update(old(self)@, outcome_view(ipv4), t),
                    outcome_view(ipv6),
                    t,
                ),
    {
        let now = now_nanos();
        self.collect_targets_at(ipv4, ipv6, now);
    }

    /// The addresses currently held, each once, in no meaningful order.
    pub fn get_targets(&self) -> (r: Vec<String>)
        requires
            self.wf(),
        ensures
            forall|j: int| 0 <= j < r@.len() ==> self@.contains_key(#[trigger] r@[j]@),
            forall|k: Seq<char>| #[trigger]
                self@.contains_key(k) ==> exists|j: int| 0 <= j < r@.len() && #[trigger] r@[j]@ == k,
            forall|i: int, j: int| 0 <= i < j < r@.len() ==> r@[i]@ != r@[j]@,
    {
        let mut r: Vec<String> = Vec::new();
        let mut i: usize = 0;
        while i < self.entries.len()
            invariant
                self.wf(),
                i <= self.entries@.len(),
                r@.len() == i,
                forall|j: int| 0 <= j < i ==> #[trigger] r@[j]@ == self.entries@[j].address@,
            decreases self.entries@.len() - i,
        {
            r.push(self.entries[i].address.clone());
            i = i + 1;
        }
        assert forall|k: Seq<char>| #[trigger] self@.contains_key(k) implies exists|j: int|
            0 <= j < r@.len() && #[trigger] r@[j]@ == k by {
            let j = choose|j: int| 0 <= j < self.entries@.len() && self.entries@[j].address@ == k;
            assert(r@[j]@ == k);
        }
        assert forall|j: int| 0 <= j < r@.len() implies self@.contains_key(#[trigger] r@[j]@) by {
            assert(self.model@.contains_key(self.entries@[j].address@));
        }
        r
    }

    /// Removes every entry that has expired at `now` for `max_age`
    /// (nanoseconds), and keeps every other entry as it is.
    pub fn purge_old_targets_at(&mut self, now: i128, max_age: u128)
        requires
            old(self).wf(),
        ensures
            final(self).wf(),
            final(self)@ == evicted(old(self)@, now, max_age),
    {
        let ghost m = self.model@;
        let ghost old_entries = self.entries@;
        let mut kept: Vec<TargetEntry> = Vec::new();
        let ghost mut origin: Seq<int> = Seq::empty();
        let mut i: usize = 0;
        while i < self.entries.len()
            invariant
                self.wf(),
                self.model@ == m,
                m == old(self)@,
                self.entries@ == old_entries,
                i <= old_entries.len(),
                origin.len() == kept@.len(),
                forall|a: int, b: int|
                    0 <= a < b < kept@.len() ==> origin[a] < origin[b],
                forall|j: int|
                    0 <= j < kept@.len() ==> 0 <= #[trigger] origin[j] < i
                        && old_entries[origin[j]].address@ == kept@[j].address@
                        && old_entries[origin[j]].last_seen == kept@[j].last_seen
                        && !expired(kept@[j].last_seen as int, now as int, max_age as int),
                forall|x: int|
                    0 <= x < i && !expired(
                        (#[trigger] old_entries[x]).last_seen as int,
                        now as int,
                        max_age as int,
                    ) ==> exists|j: int| 0 <= j < kept@.len() && origin[j] == x,
            decreases old_entries.len() - i,
        {
            let last_seen = self.entries[i].last_seen;
            let ghost before = kept@;
            let ghost before_origin = origin;
            if !is_expired(last_seen, now, max_age) {
                kept.push(TargetEntry { address: self.entries[i].address.clone(), last_seen });
                proof {
                    origin = origin.push(i as int);
                }
                assert forall|j: int| 0 <= j < before.len() implies #[trigger] kept@[j] == before[j]
                    && origin[j] == before_origin[j] by {}
            }
            proof {
                assert forall|x: int|
                    0 <= x < i + 1 && !expired(
                        (#[trigger] old_entries[x]).last_seen as int,
                        now as int,
                        max_age as int,
                    ) implies exists|j: int| 0 <= j < kept@.len() && origin[j] == x by {
                    if x < i {
                        let j = choose|j: int| 0 <= j < before.len() && before_origin[j] == x;
                        assert(origin[j] == x);
                    } else {
                        assert(origin[before.len() as int] == x);
                    }
                }
            }
            i = i + 1;
        }
        let ghost m2 = evicted(m, now, max_age);
        assert forall|a: int, b: int|
            0 <= a < b < kept@.len() implies kept@[a].address@ != kept@[b].address@ by {
            assert(origin[a] < origin[b]);
        }
        assert forall|j: int| 0 <= j < kept@.len() implies m2.contains_key(
            #[trigger] kept@[j].address@,
        ) && m2[kept@[j].address@] == kept@[j].last_seen by {
            assert(m.contains_key(old_entries[origin[j]].address@));
        }
        assert forall|k: Seq<char>| #[trigger] m2.contains_key(k) implies exists|j: int|
            0 <= j < kept@.len() && #[trigger] kept@[j].address@ == k by {
            let x = choose|x: int| 0 <= x < old_entries.len() && old_entries[x].address@ == k;
            assert(m[old_entries[x].address@] == old_entries[x].last_seen);
            assert(!expired(old_entries[x].last_seen as int, now as int, max_age as int));
            let j = choose|j: int| 0 <= j < kept@.len() && origin[j] == x;
            assert(kept@[j].address@ == k);
        }
        self.entries = kept;
        self.model = Ghost(m2);
        assert(self.entries@ == kept@);
        assert forall|j: int| 0 <= j < self.entries@.len() implies self.model@.contains_key(
            #[trigger] self.entries@[j].address@,
        ) && self.model@[self.entries@[j].address@] == self.entries@[j].last_seen by {
            assert(m2.contains_key(kept@[j].address@));
        }
    }

    /// Removes every entry that is at least the purge age old by the system
    /// clock, or whose time stamp lies ahead of it.
    pub fn purge_old_targets(&mut self)
        requires
            old(self).wf(),
        ensures
            final(self).wf(),
            exists|t: i128| final(self)@ == evicted(old(self)@, t, PURGE_AGE_NANOS),
    {
        let now = now_nanos();
        self.purge_old_targets_at(now, PURGE_AGE_NANOS);
    }
}

impl Default for ProbeTargets {
    fn default() -> (r: Self)
        ensures
            r.wf(),
            r@ == Map::<Seq<char>, i128>::empty(),
    {
        ProbeTargets::new()
    }
}

/// Tells whether an entry last seen at `last_seen` has expired at `now`.
fn is_expired(last_seen: i128, now: i128, max_age: u128) -> (r: bool)
    ensures
        r == expired(last_seen as int, now as int, max_age as int),
{
    if now < last_seen {
        return true;
    }
    let age: u128 = if last_seen >= 0 || now < 0 {
        (now - last_seen) as u128
    } else {
        now as u128 + (-(last_seen + 1)) as u128 + 1
    };
    age >= max_age
}

} // verus!
