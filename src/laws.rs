//! Properties of the target store that span several operations.

use vstd::prelude::*;

use crate::store::{evicted, expired, poll_update};

verus! {

/// The store after recording address `a` at each of `times`, in order.
pub open spec fn upsert_all(m: Map<Seq<char>, i128>, a: Seq<char>, times: Seq<i128>) -> Map<
    Seq<char>,
    i128,
>
    decreases times.len(),
{
    if times.len() == 0 {
        m
    } else {
        upsert_all(m, a, times.drop_last()).insert(a, times.last())
    }
}

/// However many times one address is recorded, the store holds exactly one
/// entry for it, stamped with the time of the latest recording, and every
/// other entry as it was.
pub proof fn repeated_upserts_keep_one_entry(
    m: Map<Seq<char>, i128>,
    a: Seq<char>,
    times: Seq<i128>,
)
    requires
        times.len() > 0,
    ensures
        upsert_all(m, a, times) == m.insert(a, times.last()),
    decreases times.len(),
{
    if times.len() > 1 {
        repeated_upserts_keep_one_entry(m, a, times.drop_last());
        assert(upsert_all(m, a, times) =~= m.insert(a, times.last()));
    } else {
        assert(upsert_all(m, a, times.drop_last()) == m);
    }
}

/// An eviction removes exactly the entries whose age at `now` is at least
/// `max_age` (or cannot be taken, the time stamp lying ahead of `now`), leaves
/// every other entry untouched, and a second eviction at the same moment
/// removes nothing more.
pub proof fn eviction_is_exact_and_idempotent(m: Map<Seq<char>, i128>, now: i128, max_age: u128)
    ensures
        forall|k: Seq<char>| #[trigger]
            evicted(m, now, max_age).contains_key(k) <==> m.contains_key(k) && !expired(
                m[k] as int,
                now as int,
                max_age as int,
            ),
        forall|k: Seq<char>| #[trigger]
            evicted(m, now, max_age).contains_key(k) ==> evicted(m, now, max_age)[k] == m[k],
        evicted(evicted(m, now, max_age), now, max_age) == evicted(m, now, max_age),
{
    assert(evicted(evicted(m, now, max_age), now, max_age) =~= evicted(m, now, max_age));
}

/// The addresses in the store after an eviction exclude every address that
/// the eviction removed; an address recorded at `t` is in the store, and stays
/// in it through an eviction exactly when it has not expired by then.
pub proof fn snapshot_follows_upserts_and_evictions(
    m: Map<Seq<char>, i128>,
    a: Seq<char>,
    t: i128,
    now: i128,
    max_age: u128,
)
    ensures
        forall|k: Seq<char>|
            m.contains_key(k) && expired(m[k] as int, now as int, max_age as int)
                ==> !(#[trigger] evicted(m, now, max_age).contains_key(k)),
        m.insert(a, t).contains_key(a),
        evicted(m.insert(a, t), now, max_age).contains_key(a) <==> !expired(
            t as int,
            now as int,
            max_age as int,
        ),
{
}

/// After one poll from an empty store that finds only an IPv4 gateway `a` at
/// `t`, the store holds that one address; an eviction once `max_age` has
/// passed leaves it empty.
pub proof fn single_poll_then_purge(
    a: Seq<char>,
    ipv6: Result<Option<Seq<char>>, Seq<char>>,
    t: i128,
    now: i128,
    max_age: u128,
)
    requires
        !(ipv6 matches Ok(Some(_))),
        now >= t + max_age,
    ensures
        poll_update(poll_update(Map::empty(), Ok(Some(a)), t), ipv6, t).dom() == set![a],
        evicted(poll_update(poll_update(Map::empty(), Ok(Some(a)), t), ipv6, t), now, max_age)
            == Map::<Seq<char>, i128>::empty(),
{
    let m = poll_update(poll_update(Map::empty(), Ok(Some(a)), t), ipv6, t);
    assert(m.dom() =~= set![a]);
    assert(evicted(m, now, max_age) =~= Map::<Seq<char>, i128>::empty());
}

} // verus!
