//! One named cache bucket.
use std::collections::HashMap;
use vstd::prelude::*;

use crate::identity::{fx_hash_u64, QueryFlags, ResultKey};

verus! {

broadcast use vstd::std_specs::hash::group_hash_axioms;

/// A named cache bucket, mapping result keys to computed values.
#[derive(Debug)]
pub struct Query<V> {
    name: String,
    flags: QueryFlags,
    results: HashMap<usize, V>,
}

impl<V> Query<V> {
    /// The name of the query.
    pub closed spec fn spec_name(&self) -> Seq<char> {
        self.name@
    }

    /// The flags of the query.
    pub closed spec fn spec_flags(&self) -> QueryFlags {
        self.flags
    }

    /// The cached results, by result key.
    pub closed spec fn entries(&self) -> Map<usize, V> {
        self.results@
    }

    /// Whether an access for `key` runs the computation.
    pub open spec fn recomputes(&self, key: u64) -> bool {
        self.spec_flags().always || !self.entries().contains_key(fx_hash_u64(key))
    }

    /// Creates a query with the given name and flags and no results.
    pub fn new(name: String, flags: QueryFlags) -> (r: Query<V>)
        ensures
            r.spec_name() == name@,
            r.spec_flags() == flags,
            r.entries() == Map::<usize, V>::empty(),
    {
        Query { name, flags, results: HashMap::new() }
    }

    /// Gets the name of the query.
    pub fn name(&self) -> (r: &str)
        ensures
            r@ == self.spec_name(),
    {
        self.name.as_str()
    }

    /// Gets the flags of the query.
    pub fn flags(&self) -> (r: QueryFlags)
        ensures
            r == self.spec_flags(),
    {
        self.flags
    }

    /// Gets the result stored for `key`, if any.
    pub fn get(&self, key: &u64) -> (r: Option<&V>)
        ensures
            match r {
                Some(v) => self.entries().contains_key(fx_hash_u64(*key)) && *v == self.entries()[fx_hash_u64(*key)],
                None => !self.entries().contains_key(fx_hash_u64(*key)),
            },
    {
        let k = ResultKey::from_hashable(key);
        self.results.get(&k.0)
    }

    /// Stores `value` for `key`, replacing any earlier result.
    pub fn insert(&mut self, key: &u64, value: V)
        ensures
            final(self).entries() == old(self).entries().insert(fx_hash_u64(*key), value),
            final(self).spec_name() == old(self).spec_name(),
            final(self).spec_flags() == old(self).spec_flags(),
    {
        let k = ResultKey::from_hashable(key);
        self.results.insert(k.0, value);
    }

    /// Whether a result is stored for `key`.
    pub fn contains(&self, key: &u64) -> (r: bool)
        ensures
            r == self.entries().contains_key(fx_hash_u64(*key)),
    {
        let k = ResultKey::from_hashable(key);
        self.results.contains_key(&k.0)
    }

    /// Removes every cached result.
    pub fn clear(&mut self)
        ensures
            final(self).entries() == Map::<usize, V>::empty(),
            final(self).spec_name() == old(self).spec_name(),
            final(self).spec_flags() == old(self).spec_flags(),
    {
        self.results.clear();
    }

    /// Looks up the result stored for `key`; `None` where there is none.
    fn value_of(&self, key: &u64) -> (r: Option<&V>)
        ensures
            r is None <==> !self.entries().contains_key(fx_hash_u64(*key)),
            r matches Some(v) ==> *v == self.entries()[fx_hash_u64(*key)],
    {
        let k = ResultKey::from_hashable(key);
        self.results.get(&k.0)
    }

    /// Returns the result for `key`, computing it with `f` and storing it
    /// first where the query always recomputes or holds none for `key`.
    pub fn get_or_insert(&mut self, key: &u64, f: impl FnOnce() -> V) -> (r: &V)
        requires
            f.requires(()),
        ensures
            final(self).spec_name() == old(self).spec_name(),
            final(self).spec_flags() == old(self).spec_flags(),
            final(self).entries() == old(self).entries().insert(fx_hash_u64(*key), *r),
            old(self).recomputes(*key) ==> f.ensures((), *r),
            !old(self).recomputes(*key) ==> *r == old(self).entries()[fx_hash_u64(*key)],
    {
        if self.flags.contains(QueryFlags::always()) || !self.contains(key) {
            let v = f();
            self.insert(key, v);
        }
        proof {
            if !old(self).recomputes(*key) {
                assert(self.entries() =~= old(self).entries().insert(
                    fx_hash_u64(*key),
                    old(self).entries()[fx_hash_u64(*key)],
                ));
            }
        }
        self.value_of(key).unwrap()
    }

    /// Like `get_or_insert`, for a computation that may fail: a failure is
    /// returned as it is and nothing is stored.
    pub fn get_or_insert_result<E>(&mut self, key: &u64, f: impl FnOnce() -> Result<V, E>) -> (r:
        Result<&V, E>)
        requires
            f.requires(()),
        ensures
            final(self).spec_name() == old(self).spec_name(),
            final(self).spec_flags() == old(self).spec_flags(),
            match r {
                Ok(v) => {
                    &&& final(self).entries() == old(self).entries().insert(fx_hash_u64(*key), *v)
                    &&& old(self).recomputes(*key) ==> f.ensures((), Ok::<V, E>(*v))
                    &&& !old(self).recomputes(*key) ==> *v == old(self).entries()[fx_hash_u64(*key)]
                },
                Err(e) => {
                    &&& old(self).recomputes(*key)
                    &&& f.ensures((), Err::<V, E>(e))
                    &&& *final(self) == *old(self)
                },
            },
    {
        if self.flags.contains(QueryFlags::always()) || !self.contains(key) {
            match f() {
                Ok(v) => self.insert(key, v),
                Err(e) => return Err(e),
            }
        }
        proof {
            if !old(self).recomputes(*key) {
                assert(self.entries() =~= old(self).entries().insert(
                    fx_hash_u64(*key),
                    old(self).entries()[fx_hash_u64(*key)],
                ));
            }
        }
        Ok(self.value_of(key).unwrap())
    }
}

} // verus!
