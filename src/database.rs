//! The registry of queries and the cycle-guarded dispatcher.
use std::collections::hash_map::Entry;
use std::collections::HashMap;
use indexmap::IndexSet;
use vstd::prelude::*;

use crate::identity::{fx_hash_str, fx_hash_u64, QueryError, QueryFlags, QueryId, ResultKey};
use crate::query::Query;

verus! {

broadcast use vstd::std_specs::hash::group_hash_axioms;

/// `indexmap::IndexSet`, held opaque: what it holds is read through
/// `in_flight_pairs`, which the wrappers below speak of.
#[verifier::external_type_specification]
#[verifier::external_body]
#[verifier::reject_recursive_types(T)]
#[verifier::reject_recursive_types(S)]
pub struct ExIndexSet<T, S>(IndexSet<T, S>);

/// The pairs held by a set of in-flight computations.
pub uninterp spec fn in_flight_pairs(s: IndexSet<(usize, usize)>) -> Set<(usize, usize)>;

/// Relies on `IndexSet::new`: the new set holds nothing.
#[verifier::external_body]
fn new_in_flight() -> (r: IndexSet<(usize, usize)>)
    ensures
        in_flight_pairs(r) == Set::<(usize, usize)>::empty(),
{
    IndexSet::new()
}

/// Relies on `IndexSet::insert`: adds the pair, and returns whether it was
/// absent before.
#[verifier::external_body]
fn in_flight_insert(s: &mut IndexSet<(usize, usize)>, p: (usize, usize)) -> (r: bool)
    ensures
        r == !in_flight_pairs(*old(s)).contains(p),
        in_flight_pairs(*final(s)) == in_flight_pairs(*old(s)).insert(p),
{
    s.insert(p)
}

/// Relies on `IndexSet::shift_remove`: removes the pair, and returns whether
/// it was present.
#[verifier::external_body]
fn in_flight_remove(s: &mut IndexSet<(usize, usize)>, p: &(usize, usize)) -> (r: bool)
    ensures
        r == in_flight_pairs(*old(s)).contains(*p),
        in_flight_pairs(*final(s)) == in_flight_pairs(*old(s)).remove(*p),
{
    s.shift_remove(p)
}

/// The in-flight pair of a call of query `name` for `key`.
pub open spec fn call_pair(name: Seq<char>, key: u64) -> (usize, usize) {
    (fx_hash_str(name), fx_hash_u64(key))
}

/// `o` is an outcome that the computation `f` may give, run on some
/// database.
pub open spec fn computed_by<V, O, F: FnOnce(&mut Database<V>) -> O>(f: F, o: O) -> bool {
    exists|d: &mut Database<V>| #[trigger] f.ensures((d,), o)
}

/// A registry of queries, with the set of computations in flight.
pub struct Database<V> {
    queries: HashMap<usize, Query<V>>,
    active: IndexSet<(usize, usize)>,
}

impl<V> Database<V> {
    /// The registered queries, by query identity.
    pub closed spec fn registry(&self) -> Map<usize, Query<V>> {
        self.queries@
    }

    /// The (query, result key) pairs whose computation is running.
    pub closed spec fn in_flight(&self) -> Set<(usize, usize)> {
        in_flight_pairs(self.active)
    }

    /// Whether a query called `name` is registered.
    pub open spec fn registered(&self, name: Seq<char>) -> bool {
        self.registry().contains_key(fx_hash_str(name))
    }

    /// The registered query called `name`.
    pub open spec fn bucket(&self, name: Seq<char>) -> Query<V> {
        self.registry()[fx_hash_str(name)]
    }

    /// `self` holds the same queries as `other`, but for the one with
    /// identity `id`, and the same computations in flight.
    pub open spec fn same_except(&self, other: &Database<V>, id: usize) -> bool {
        &&& self.registry().dom() == other.registry().dom()
        &&& forall|i: usize|
            i != id && #[trigger] other.registry().contains_key(i) ==> self.registry()[i]
                == other.registry()[i]
        &&& self.in_flight() == other.in_flight()
    }

    /// `self` is `other` with a query called `name` added, which holds
    /// `flags` and the results `entries`.
    pub open spec fn adds_with(
        &self,
        other: &Database<V>,
        name: Seq<char>,
        flags: QueryFlags,
        entries: Map<usize, V>,
    ) -> bool {
        &&& self.registry().dom() == other.registry().dom().insert(fx_hash_str(name))
        &&& forall|i: usize|
            i != fx_hash_str(name) && #[trigger] other.registry().contains_key(i)
                ==> self.registry()[i] == other.registry()[i]
        &&& self.bucket(name).spec_name() == name
        &&& self.bucket(name).spec_flags() == flags
        &&& self.bucket(name).entries() == entries
        &&& self.in_flight() == other.in_flight()
    }

    /// `self` is `other` with a fresh query called `name` added.
    pub open spec fn adds(&self, other: &Database<V>, name: Seq<char>, flags: QueryFlags) -> bool {
        self.adds_with(other, name, flags, Map::<usize, V>::empty())
    }

    /// `self` is `other` after the query called `name` stored `v` for `key`.
    pub open spec fn stores(&self, other: &Database<V>, name: Seq<char>, key: u64, v: V) -> bool {
        &&& self.same_except(other, fx_hash_str(name))
        &&& self.bucket(name).spec_name() == other.bucket(name).spec_name()
        &&& self.bucket(name).spec_flags() == other.bucket(name).spec_flags()
        &&& self.bucket(name).entries() == other.bucket(name).entries().insert(fx_hash_u64(key), v)
    }

    /// `self` holds the same queries and in-flight calls as `other`.
    pub open spec fn unchanged(&self, other: &Database<V>) -> bool {
        self.registry() == other.registry() && self.in_flight() == other.in_flight()
    }

    /// Creates an empty database.
    pub fn new() -> (r: Database<V>)
        ensures
            r.registry() == Map::<usize, Query<V>>::empty(),
            r.in_flight() == Set::<(usize, usize)>::empty(),
    {
        Database { queries: HashMap::new(), active: new_in_flight() }
    }

    /// Clears all results from the query called `query`, which must be
    /// registered; its name and flags are kept.
    pub fn clear(&mut self, query: &str)
        requires
            old(self).registered(query@),
        ensures
            final(self).same_except(old(self), fx_hash_str(query@)),
            final(self).bucket(query@).entries() == Map::<usize, V>::empty(),
            final(self).bucket(query@).spec_name() == old(self).bucket(query@).spec_name(),
            final(self).bucket(query@).spec_flags() == old(self).bucket(query@).spec_flags(),
    {
        let id = QueryId::from_name(query);
        let mut q = self.queries.remove(&id.0).unwrap();
        q.clear();
        self.queries.insert(id.0, q);
        assert(self.queries@.dom() =~= old(self).queries@.dom());
    }

    /// Forgets every query: each must be registered again before use.
    pub fn clear_all(&mut self)
        ensures
            final(self).registry() == Map::<usize, Query<V>>::empty(),
            final(self).in_flight() == old(self).in_flight(),
    {
        self.queries.clear();
    }

    /// Whether a query called `name` is registered.
    pub fn query_exists(&self, name: &str) -> (r: bool)
        ensures
            r == self.registered(name@),
    {
        let id = QueryId::from_name(name);
        self.queries.contains_key(&id.0)
    }

    /// The query called `name`, which must be registered.
    pub fn query(&self, name: &str) -> (r: &Query<V>)
        requires
            self.registered(name@),
        ensures
            *r == self.bucket(name@),
    {
        let id = QueryId::from_name(name);
        self.queries.get(&id.0).unwrap()
    }

    /// Exclusive access to the query called `name`, which must be registered.
    pub fn query_mut(&mut self, name: &str) -> (r: &mut Query<V>)
        requires
            old(self).registered(name@),
        ensures
            *r == old(self).bucket(name@),
            final(self).registry() == old(self).registry().insert(fx_hash_str(name@), *final(r)),
            final(self).in_flight() == old(self).in_flight(),
    {
        let id = QueryId::from_name(name);
        match self.queries.entry(id.0) {
            Entry::Occupied(e) => e.into_mut(),
            Entry::Vacant(e) => e.insert(Query::new(name.to_string(), QueryFlags::empty())),
        }
    }

    /// Registers a fresh query called `name`, which must not be registered
    /// yet.
    pub fn add_query(&mut self, name: &str, flags: QueryFlags)
        requires
            !old(self).registered(name@),
        ensures
            final(self).adds(old(self), name@, flags),
    {
        let id = QueryId::from_name(name);
        let q = Query::new(name.to_string(), flags);
        self.queries.insert(id.0, q);
    }

    /// Registers a query called `name` unless one is; `flags` is called only
    /// where it is not.
    pub fn ensure_query_exists(&mut self, name: &str, flags: impl FnOnce() -> QueryFlags)
        requires
            flags.requires(()),
        ensures
            final(self).registered(name@),
            old(self).registered(name@) ==> *final(self) == *old(self),
            !old(self).registered(name@) ==> exists|f: QueryFlags|
                flags.ensures((), f) && #[trigger] final(self).adds(old(self), name@, f),
    {
        if !self.query_exists(name) {
            let f = flags();
            self.add_query(name, f);
        }
    }

    /// Registers a query called `name` unless one is, as
    /// `ensure_query_exists` does, and gives exclusive access to it.
    pub fn get_or_add_query(&mut self, name: &str, flags: impl FnOnce() -> QueryFlags) -> (r:
        &mut Query<V>)
        requires
            flags.requires(()),
        ensures
            final(self).registry() == old(self).registry().insert(fx_hash_str(name@), *final(r)),
            final(self).in_flight() == old(self).in_flight(),
            old(self).registered(name@) ==> *r == old(self).bucket(name@),
            !old(self).registered(name@) ==> exists|f: QueryFlags|
                #[trigger] flags.ensures((), f) && r.spec_name() == name@ && r.spec_flags() == f
                    && r.entries() == Map::<usize, V>::empty(),
    {
        self.ensure_query_exists(name, flags);
        let ghost mid = *self;
        proof {
            assert forall|x: Query<V>|
                #[trigger] mid.registry().insert(fx_hash_str(name@), x) == old(self).registry().insert(
                    fx_hash_str(name@),
                    x,
                ) by {
                assert(mid.registry().insert(fx_hash_str(name@), x) =~= old(self).registry().insert(
                    fx_hash_str(name@),
                    x,
                ));
            }
        }
        self.query_mut(name)
    }

    /// Marks the call of query `name` for `key` as in flight, or reports a
    /// cycle where it already is.
    pub fn begin_query(&mut self, name: &str, key: &u64) -> (r: Result<(), QueryError>)
        ensures
            r is Err <==> old(self).in_flight().contains(call_pair(name@, *key)),
            final(self).registry() == old(self).registry(),
            final(self).in_flight() == old(self).in_flight().insert(call_pair(name@, *key)),
    {
        let id = QueryId::from_name(name);
        let rk = ResultKey::from_hashable(key);
        if in_flight_insert(&mut self.active, (id.0, rk.0)) {
            Ok(())
        } else {
            Err(QueryError::Cycle)
        }
    }

    /// Marks the call of query `name` for `key` as finished.
    pub fn end_query(&mut self, name: &str, key: &u64)
        ensures
            final(self).registry() == old(self).registry(),
            final(self).in_flight() == old(self).in_flight().remove(call_pair(name@, *key)),
    {
        let id = QueryId::from_name(name);
        let rk = ResultKey::from_hashable(key);
        in_flight_remove(&mut self.active, &(id.0, rk.0));
    }

    /// Returns the result of query `name` for `key`, computed by `f` where
    /// the query always recomputes or has no result for `key`, and cached
    /// otherwise. Reports a cycle, and runs nothing, where that call is
    /// already in flight.
    pub fn execute_query(&mut self, name: &str, key: &u64, f: impl FnOnce() -> V) -> (r: Result<
        &V,
        QueryError,
    >)
        requires
            old(self).registered(name@),
            f.requires(()),
        ensures
            r is Err <==> old(self).in_flight().contains(call_pair(name@, *key)),
            match r {
                Err(_) => final(self).unchanged(old(self)),
                Ok(v) => {
                    &&& final(self).stores(old(self), name@, *key, *v)
                    &&& old(self).bucket(name@).recomputes(*key) ==> f.ensures((), *v)
                    &&& !old(self).bucket(name@).recomputes(*key) ==> *v == old(self).bucket(
                        name@,
                    ).entries()[fx_hash_u64(*key)]
                },
            },
    {
        match self.begin_query(name, key) {
            Err(e) => {
                assert(self.in_flight() =~= old(self).in_flight());
                return Err(e);
            },
            Ok(()) => {},
        }
        let id = QueryId::from_name(name);
        let mut q = self.queries.remove(&id.0).unwrap();
        let v = q.get_or_insert(key, f);
        let ghost gv = *v;
        self.queries.insert(id.0, q);
        self.end_query(name, key);
        proof {
            assert(self.in_flight() =~= old(self).in_flight());
            assert(self.queries@.dom() =~= old(self).queries@.dom());
        }
        let q = self.queries.get(&id.0).unwrap();
        Ok(q.get(key).unwrap())
    }

    /// Like `execute_query`, for a computation that may fail: the outer
    /// result reports a cycle, the inner one the computation's failure,
    /// which is returned as it is and never cached.
    pub fn execute_query_result<E>(
        &mut self,
        name: &str,
        key: &u64,
        f: impl FnOnce() -> Result<V, E>,
    ) -> (r: Result<Result<&V, E>, QueryError>)
        requires
            old(self).registered(name@),
            f.requires(()),
        ensures
            r is Err <==> old(self).in_flight().contains(call_pair(name@, *key)),
            match r {
                Err(_) => final(self).unchanged(old(self)),
                Ok(Err(e)) => {
                    &&& final(self).unchanged(old(self))
                    &&& old(self).bucket(name@).recomputes(*key)
                    &&& f.ensures((), Err::<V, E>(e))
                },
                Ok(Ok(v)) => {
                    &&& final(self).stores(old(self), name@, *key, *v)
                    &&& old(self).bucket(name@).recomputes(*key) ==> f.ensures((), Ok::<V, E>(*v))
                    &&& !old(self).bucket(name@).recomputes(*key) ==> *v == old(self).bucket(
                        name@,
                    ).entries()[fx_hash_u64(*key)]
                },
            },
    {
        match self.begin_query(name, key) {
            Err(e) => {
                assert(self.in_flight() =~= old(self).in_flight());
                return Err(e);
            },
            Ok(()) => {},
        }
        let id = QueryId::from_name(name);
        let mut q = self.queries.remove(&id.0).unwrap();
        let failed = match q.get_or_insert_result(key, f) {
            Ok(v) => None,
            Err(e) => Some(e),
        };
        self.queries.insert(id.0, q);
        self.end_query(name, key);
        proof {
            assert(self.in_flight() =~= old(self).in_flight());
            assert(self.queries@.dom() =~= old(self).queries@.dom());
        }
        match failed {
            Some(e) => {
                proof {
                    assert(self.queries@ =~= old(self).queries@);
                }
                Ok(Err(e))
            },
            None => {
                let q = self.queries.get(&id.0).unwrap();
                Ok(Ok(q.get(key).unwrap()))
            },
        }
    }

    /// Returns the result of query `name` for `key`, where the computation
    /// `f` is handed the database and may itself dispatch further queries,
    /// this one included. A dispatch of the same name and key from inside
    /// `f` reports a cycle. `f` runs only where the query always recomputes
    /// or has no result for `key`; its value is then stored, in a bucket
    /// registered again with the flags it had where `f` forgot the query.
    pub fn execute_query_with(
        &mut self,
        name: &str,
        key: &u64,
        f: impl FnOnce(&mut Database<V>) -> V,
    ) -> (r: Result<&V, QueryError>)
        requires
            old(self).registered(name@),
            forall|d: &mut Database<V>|
                d.in_flight().contains(call_pair(name@, *key)) ==> #[trigger] f.requires((d,)),
        ensures
            r is Err <==> old(self).in_flight().contains(call_pair(name@, *key)),
            match r {
                Err(_) => final(self).unchanged(old(self)),
                Ok(v) => {
                    &&& final(self).registered(name@)
                    &&& !final(self).in_flight().contains(call_pair(name@, *key))
                    &&& final(self).bucket(name@).entries().contains_key(fx_hash_u64(*key))
                    &&& final(self).bucket(name@).entries()[fx_hash_u64(*key)] == *v
                    &&& old(self).bucket(name@).recomputes(*key) ==> computed_by(f, *v)
                    &&& !old(self).bucket(name@).recomputes(*key) ==> {
                        &&& *v == old(self).bucket(name@).entries()[fx_hash_u64(*key)]
                        &&& final(self).unchanged(old(self))
                    }
                },
            },
    {
        match self.begin_query(name, key) {
            Err(e) => {
                assert(self.in_flight() =~= old(self).in_flight());
                return Err(e);
            },
            Ok(()) => {},
        }
        let flags = self.query(name).flags();
        let recompute = flags.always || !self.query(name).contains(key);
        let ghost mut computed: Option<V> = None;
        if recompute {
            let v = f(self);
            proof {
                computed = Some(v);
                assert(computed_by(f, v));
            }
            if !self.query_exists(name) {
                self.add_query(name, flags);
            }
            self.query_mut(name).insert(key, v);
        }
        self.end_query(name, key);
        proof {
            if !recompute {
                assert(self.in_flight() =~= old(self).in_flight());
            }
        }
        let r = self.query(name).get(key).unwrap();
        proof {
            if recompute {
                assert(*r == computed->Some_0);
                assert(computed_by(f, *r));
            }
        }
        Ok(r)
    }

    /// Like `execute_query_with`, for a computation that may fail: the
    /// outer result reports a cycle, the inner one the computation's
    /// failure, which is returned as it is and never stored.
    pub fn execute_query_result_with<E>(
        &mut self,
        name: &str,
        key: &u64,
        f: impl FnOnce(&mut Database<V>) -> Result<V, E>,
    ) -> (r: Result<Result<&V, E>, QueryError>)
        requires
            old(self).registered(name@),
            forall|d: &mut Database<V>|
                d.in_flight().contains(call_pair(name@, *key)) ==> #[trigger] f.requires((d,)),
        ensures
            r is Err <==> old(self).in_flight().contains(call_pair(name@, *key)),
            match r {
                Err(_) => final(self).unchanged(old(self)),
                Ok(Err(e)) => {
                    &&& !final(self).in_flight().contains(call_pair(name@, *key))
                    &&& old(self).bucket(name@).recomputes(*key)
                    &&& computed_by(f, Err::<V, E>(e))
                },
                Ok(Ok(v)) => {
                    &&& final(self).registered(name@)
                    &&& !final(self).in_flight().contains(call_pair(name@, *key))
                    &&& final(self).bucket(name@).entries().contains_key(fx_hash_u64(*key))
                    &&& final(self).bucket(name@).entries()[fx_hash_u64(*key)] == *v
                    &&& old(self).bucket(name@).recomputes(*key) ==> computed_by(f, Ok::<V, E>(*v))
                    &&& !old(self).bucket(name@).recomputes(*key) ==> {
                        &&& *v == old(self).bucket(name@).entries()[fx_hash_u64(*key)]
                        &&& final(self).unchanged(old(self))
                    }
                },
            },
    {
        match self.begin_query(name, key) {
            Err(e) => {
                assert(self.in_flight() =~= old(self).in_flight());
                return Err(e);
            },
            Ok(()) => {},
        }
        let flags = self.query(name).flags();
        let recompute = flags.always || !self.query(name).contains(key);
        let ghost mut computed: Option<V> = None;
        if recompute {
            let out = f(self);
            proof {
                assert(computed_by(f, out));
            }
            match out {
                Ok(v) => {
                    proof {
                        computed = Some(v);
                    }
                    if !self.query_exists(name) {
                        self.add_query(name, flags);
                    }
                    self.query_mut(name).insert(key, v);
                },
                Err(e) => {
                    self.end_query(name, key);
                    return Ok(Err(e));
                },
            }
        }
        self.end_query(name, key);
        proof {
            if !recompute {
                assert(self.in_flight() =~= old(self).in_flight());
            }
        }
        let r = self.query(name).get(key).unwrap();
        proof {
            if recompute {
                assert(*r == computed->Some_0);
                assert(computed_by(f, Ok::<V, E>(*r)));
            }
        }
        Ok(Ok(r))
    }
}

/// What registration leaves for the dispatch that follows it: a query
/// that was not registered comes back with no results, so every key is
/// computed.
pub proof fn lemma_registered_for_dispatch<V>(
    before: Database<V>,
    mid: Database<V>,
    name: Seq<char>,
    key: u64,
    flags: QueryFlags,
)
    requires
        !before.registered(name),
        mid.adds(&before, name, flags),
    ensures
        mid.registered(name),
        mid.bucket(name).recomputes(key),
        forall|fin: Database<V>| #[trigger] fin.unchanged(&mid) ==> fin.adds(&before, name, flags),
{
}

/// Registers the query called `name` unless it is, with the flags that
/// `flags` gives, and dispatches its computation `f` for `key` through
/// `Database::execute_query_with`, which hands `f` the database.
pub fn cached_query<'a, V>(
    db: &'a mut Database<V>,
    name: &str,
    key: &u64,
    flags: impl FnOnce() -> QueryFlags,
    f: impl FnOnce(&mut Database<V>) -> V,
) -> (r: Result<&'a V, QueryError>)
    requires
        flags.requires(()),
        forall|d: &mut Database<V>|
            d.in_flight().contains(call_pair(name@, *key)) ==> #[trigger] f.requires((d,)),
    ensures
        r is Err <==> old(db).in_flight().contains(call_pair(name@, *key)),
        !old(db).registered(name@) ==> exists|fl: QueryFlags| #[trigger] flags.ensures((), fl),
        match r {
            Err(_) => {
                &&& old(db).registered(name@) ==> final(db).unchanged(old(db))
                &&& !old(db).registered(name@) ==> exists|fl: QueryFlags|
                    #[trigger] flags.ensures((), fl) && final(db).adds(old(db), name@, fl)
            },
            Ok(v) => {
                &&& final(db).registered(name@)
                &&& !final(db).in_flight().contains(call_pair(name@, *key))
                &&& final(db).bucket(name@).entries().contains_key(fx_hash_u64(*key))
                &&& final(db).bucket(name@).entries()[fx_hash_u64(*key)] == *v
                &&& (!old(db).registered(name@) || old(db).bucket(name@).recomputes(*key))
                    ==> computed_by(f, *v)
                &&& (old(db).registered(name@) && !old(db).bucket(name@).recomputes(*key)) ==> {
                    &&& *v == old(db).bucket(name@).entries()[fx_hash_u64(*key)]
                    &&& final(db).unchanged(old(db))
                }
            },
        },
{
    db.ensure_query_exists(name, flags);
    proof {
        if !old(db).registered(name@) {
            let fl = choose|fl: QueryFlags| flags.ensures((), fl) && #[trigger] db.adds(old(db), name@, fl);
            lemma_registered_for_dispatch(*old(db), *db, name@, *key, fl);
        }
    }
    db.execute_query_with(name, key, f)
}

/// Registers the query called `name` unless it is, with the flags that
/// `flags` gives, and dispatches its fallible computation `f` for `key`
/// through `Database::execute_query_result_with`.
pub fn cached_query_result<'a, V, E>(
    db: &'a mut Database<V>,
    name: &str,
    key: &u64,
    flags: impl FnOnce() -> QueryFlags,
    f: impl FnOnce(&mut Database<V>) -> Result<V, E>,
) -> (r: Result<Result<&'a V, E>, QueryError>)
    requires
        flags.requires(()),
        forall|d: &mut Database<V>|
            d.in_flight().contains(call_pair(name@, *key)) ==> #[trigger] f.requires((d,)),
    ensures
        r is Err <==> old(db).in_flight().contains(call_pair(name@, *key)),
        !old(db).registered(name@) ==> exists|fl: QueryFlags| #[trigger] flags.ensures((), fl),
        match r {
            Err(_) => {
                &&& old(db).registered(name@) ==> final(db).unchanged(old(db))
                &&& !old(db).registered(name@) ==> exists|fl: QueryFlags|
                    #[trigger] flags.ensures((), fl) && final(db).adds(old(db), name@, fl)
            },
            Ok(Err(e)) => {
                &&& !final(db).in_flight().contains(call_pair(name@, *key))
                &&& !old(db).registered(name@) || old(db).bucket(name@).recomputes(*key)
                &&& computed_by(f, Err::<V, E>(e))
            },
            Ok(Ok(v)) => {
                &&& final(db).registered(name@)
                &&& !final(db).in_flight().contains(call_pair(name@, *key))
                &&& final(db).bucket(name@).entries().contains_key(fx_hash_u64(*key))
                &&& final(db).bucket(name@).entries()[fx_hash_u64(*key)] == *v
                &&& (!old(db).registered(name@) || old(db).bucket(name@).recomputes(*key))
                    ==> computed_by(f, Ok::<V, E>(*v))
                &&& (old(db).registered(name@) && !old(db).bucket(name@).recomputes(*key)) ==> {
                    &&& *v == old(db).bucket(name@).entries()[fx_hash_u64(*key)]
                    &&& final(db).unchanged(old(db))
                }
            },
        },
{
    db.ensure_query_exists(name, flags);
    proof {
        if !old(db).registered(name@) {
            let fl = choose|fl: QueryFlags| flags.ensures((), fl) && #[trigger] db.adds(old(db), name@, fl);
            lemma_registered_for_dispatch(*old(db), *db, name@, *key, fl);
        }
    }
    db.execute_query_result_with(name, key, f)
}

/// Gives access to the database of a host object.
pub trait DatabaseContext<V> {
    /// The database of this host.
    fn db(&self) -> &Database<V>;
}

} // verus!
