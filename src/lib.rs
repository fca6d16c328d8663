//! An in-process memoization engine: named queries cache their results by a
//! hash of their inputs, and a dispatcher refuses to re-enter a computation
//! that is already in flight.

pub mod identity;
pub mod query;
pub mod call_site;
pub mod database;
pub mod laws;

pub use identity::{QueryError, QueryFlags, QueryId, QueryResult, ResultKey};
pub use query::Query;
pub use database::{cached_query, cached_query_result, Database, DatabaseContext};
pub use call_site::{or_on_cycle, query_name};
