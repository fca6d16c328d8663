//! What a call site of a memoized function needs around the dispatcher: the
//! name of its query, and what a detected cycle turns into.
use vstd::prelude::*;
use vstd::string::StringExecFns;

use crate::identity::{QueryError, QueryResult};

verus! {

/// The name of the query of function `function`: prefixed by the name of the
/// type that owns it and `::`, where there is one.
pub open spec fn spec_query_name(owner: Option<Seq<char>>, function: Seq<char>) -> Seq<char> {
    match owner {
        Some(o) => o + "::"@ + function,
        None => function,
    }
}

/// Builds the name of the query of function `function`, owned by the type
/// named `owner` where there is one.
pub fn query_name(owner: Option<&str>, function: &str) -> (r: String)
    ensures
        r@ == spec_query_name(
            match owner {
                Some(o) => Some(o@),
                None => None,
            },
            function@,
        ),
{
    match owner {
        Some(o) => {
            let mut s = o.to_owned();
            proof {
                reveal_strlit("::");
            }
            s.append("::");
            s.append(function);
            s
        },
        None => function.to_owned(),
    }
}

/// The value of a dispatch, where `on_cycle` stands in for the value of a
/// call that was found to be in a cycle.
pub fn or_on_cycle<V>(r: QueryResult<V>, on_cycle: impl FnOnce() -> V) -> (v: V)
    requires
        r is Err ==> on_cycle.requires(()),
    ensures
        match r {
            Ok(x) => v == x,
            Err(_) => on_cycle.ensures((), v),
        },
{
    match r {
        Ok(x) => x,
        Err(QueryError::Cycle) => on_cycle(),
    }
}

} // verus!
