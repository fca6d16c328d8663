//! Laws that relate successive operations on a database.
use vstd::prelude::*;

use crate::database::{call_pair, Database};
use crate::query::Query;
use crate::identity::{fx_hash_str, fx_hash_u64};

verus! {

/// A query that does not always recompute reuses what a dispatch stored:
/// the next dispatch for the same name and key runs no computation and
/// returns the value the first one returned.
pub proof fn memoized<V>(before: Database<V>, after: Database<V>, name: Seq<char>, key: u64, v: V)
    requires
        before.registered(name),
        !before.bucket(name).spec_flags().always,
        after.stores(&before, name, key, v),
    ensures
        !after.bucket(name).recomputes(key),
        after.bucket(name).entries()[fx_hash_u64(key)] == v,
{
}

/// A query that always recomputes runs its computation again on the next
/// dispatch for the same name and key, though a value is stored.
pub proof fn always_recomputes<V>(
    before: Database<V>,
    after: Database<V>,
    name: Seq<char>,
    key: u64,
    v: V,
)
    requires
        before.registered(name),
        before.bucket(name).spec_flags().always,
        after.stores(&before, name, key, v),
    ensures
        after.bucket(name).entries().contains_key(fx_hash_u64(key)),
        after.bucket(name).recomputes(key),
{
}

/// Storing a result for one key leaves the entry of every key with another
/// result key untouched.
pub proof fn keys_isolated<V>(
    before: Database<V>,
    after: Database<V>,
    name: Seq<char>,
    key: u64,
    other: u64,
    v: V,
)
    requires
        before.registered(name),
        fx_hash_u64(key) != fx_hash_u64(other),
        after.stores(&before, name, key, v),
    ensures
        after.bucket(name).entries().contains_key(fx_hash_u64(other)) == before.bucket(
            name,
        ).entries().contains_key(fx_hash_u64(other)),
        after.bucket(name).entries()[fx_hash_u64(other)] == before.bucket(name).entries()[fx_hash_u64(
            other,
        )],
        after.bucket(name).recomputes(other) == before.bucket(name).recomputes(other),
{
}

/// Storing a result under one query leaves every query with another
/// identity as it was, whatever key was used.
pub proof fn queries_isolated<V>(
    before: Database<V>,
    after: Database<V>,
    name: Seq<char>,
    other: Seq<char>,
    key: u64,
    v: V,
)
    requires
        before.registered(name),
        before.registered(other),
        fx_hash_str(name) != fx_hash_str(other),
        after.stores(&before, name, key, v),
    ensures
        after.registered(other),
        after.bucket(other) == before.bucket(other),
{
}

/// After a query is cleared, the next access for any key recomputes.
pub proof fn cleared_recomputes<V>(
    before: Database<V>,
    after: Database<V>,
    name: Seq<char>,
    key: u64,
)
    requires
        before.registered(name),
        after.same_except(&before, fx_hash_str(name)),
        after.bucket(name).entries() == Map::<usize, V>::empty(),
    ensures
        after.registered(name),
        after.bucket(name).recomputes(key),
{
    assert(after.registry().dom().contains(fx_hash_str(name)));
}

/// After every query is forgotten, no name is registered: each query must
/// be registered again before it is dispatched, looked up or cleared, since
/// those operations ask for a registered name.
pub proof fn cleared_all_unregistered<V>(before: Database<V>, after: Database<V>)
    requires
        after.registry() == Map::<usize, Query<V>>::empty(),
        after.in_flight() == before.in_flight(),
    ensures
        forall|name: Seq<char>| !#[trigger] after.registered(name),
{
}

/// A computation that failed left the database as it was, so the next
/// dispatch for the same name and key runs the computation again.
pub proof fn failure_retried<V>(before: Database<V>, after: Database<V>, name: Seq<char>, key: u64)
    requires
        before.registered(name),
        before.bucket(name).recomputes(key),
        after.unchanged(&before),
    ensures
        after.registered(name),
        after.bucket(name).recomputes(key),
        after.bucket(name).entries() == before.bucket(name).entries(),
{
}

/// Once a call has begun, it stays in flight through any other dispatch
/// made before it ends, so a dispatch of the same name and key meanwhile
/// reports a cycle. `Database::execute_query_with` hands its computation a
/// database in which the call has begun this way.
pub proof fn reentry_is_cycle<V>(
    before: Database<V>,
    started: Database<V>,
    after: Database<V>,
    name: Seq<char>,
    key: u64,
    other: Seq<char>,
    other_key: u64,
    v: V,
)
    requires
        started.in_flight() == before.in_flight().insert(call_pair(name, key)),
        after.stores(&started, other, other_key, v) || after.unchanged(&started),
    ensures
        started.in_flight().contains(call_pair(name, key)),
        after.in_flight().contains(call_pair(name, key)),
{
}

} // verus!
