//! Identities of queries and of their results, and the flags of a query.
use vstd::arithmetic::div_mod::{lemma_mod_multiples_vanish, lemma_mul_mod_noop_left, lemma_small_mod};
use vstd::prelude::*;

verus! {

/// What `fxhash::hash` gives for a string.
pub uninterp spec fn fx_hash_str(s: Seq<char>) -> usize;

/// What `fxhash::hash` gives for a 64-bit key.
pub uninterp spec fn fx_hash_u64(k: u64) -> usize;

/// Relies on `fxhash::hash`: a deterministic hash of the string's characters.
#[verifier::external_body]
fn hash_str(s: &str) -> (r: usize)
    ensures
        r == fx_hash_str(s@),
{
    fxhash::hash(s)
}

/// The 64-bit word hash of `k`: `k` times the odd constant of the Fx
/// hasher, modulo 2^64.
pub open spec fn fx_word(k: u64) -> int {
    (k as int * 0x517cc1b727220a95) % 0x1_0000_0000_0000_0000
}

/// Relies on `fxhash::hash`: a deterministic hash of the integer's value;
/// with 64-bit words, the hasher starts from zero and hashes the integer as
/// one word, so the hash is `fx_word(k)`.
#[verifier::external_body]
fn hash_u64(k: &u64) -> (r: usize)
    ensures
        r == fx_hash_u64(*k),
        usize::BITS == 64 ==> r as int == fx_word(*k),
{
    fxhash::hash(k)
}

/// Multiplying by the inverse of the Fx constant undoes the word hash.
proof fn lemma_fx_word_undone(k: u64)
    ensures
        (fx_word(k) * 0x2040003d780970bd) % 0x1_0000_0000_0000_0000 == k as int,
{
    let m: int = 0x1_0000_0000_0000_0000;
    let x: int = k as int * 0x517cc1b727220a95;
    lemma_mul_mod_noop_left(x, 0x2040003d780970bd, m);
    assert(0x517cc1b727220a95 * 0x2040003d780970bd == 1 + 739706870995725965 * m);
    assert(x * 0x2040003d780970bd == m * (k as int * 739706870995725965) + k as int)
        by (nonlinear_arith)
        requires
            x == k as int * 0x517cc1b727220a95,
            0x517cc1b727220a95 * 0x2040003d780970bd == 1 + 739706870995725965 * m,
    ;
    lemma_mod_multiples_vanish(k as int * 739706870995725965, k as int, m);
    lemma_small_mod(k as nat, m as nat);
}

/// Distinct keys have distinct word hashes.
pub proof fn lemma_fx_word_injective(a: u64, b: u64)
    requires
        a != b,
    ensures
        fx_word(a) != fx_word(b),
{
    lemma_fx_word_undone(a);
    lemma_fx_word_undone(b);
}

/// With 64-bit words, the result keys of distinct keys differ.
pub proof fn lemma_result_keys_distinct(a: u64, b: u64, ra: ResultKey, rb: ResultKey)
    requires
        a != b,
        usize::BITS == 64,
        ra.0 as int == fx_word(a),
        rb.0 as int == fx_word(b),
    ensures
        ra != rb,
{
    lemma_fx_word_injective(a, b);
}

/// Error reported by the dispatcher.
#[derive(Debug, Clone, Copy, PartialEq, Eq, Structural)]
pub enum QueryError {
    /// The same query was asked for the same key while that computation was
    /// still running.
    Cycle,
}

impl QueryError {
    /// A short description of the error.
    pub fn message(&self) -> (r: &'static str)
        ensures
            r@ == "cycle detected"@,
    {
        match self {
            QueryError::Cycle => "cycle detected",
        }
    }
}

pub type QueryResult<T> = Result<T, QueryError>;

/// Identifies a query within a database: the hash of the query's name.
#[derive(Debug, Hash, Clone, Copy, PartialEq, Eq, PartialOrd, Ord, Structural)]
pub struct QueryId(pub usize);

impl QueryId {
    /// Creates the identity of the query called `str`.
    pub fn from_name(str: &str) -> (r: QueryId)
        ensures
            r.0 == fx_hash_str(str@),
    {
        QueryId(hash_str(str))
    }
}

/// Identifies a result within a query: the hash of the key it was computed
/// for.
#[derive(Debug, Hash, Clone, Copy, PartialEq, Eq, PartialOrd, Ord, Structural)]
pub struct ResultKey(pub usize);

impl ResultKey {
    /// Creates the identity of the result computed for `h`.
    pub fn from_hashable(h: &u64) -> (r: ResultKey)
        ensures
            r.0 == fx_hash_u64(*h),
            usize::BITS == 64 ==> r.0 as int == fx_word(*h),
    {
        ResultKey(hash_u64(h))
    }
}

/// Configuration of a query.
#[derive(Debug, Clone, Copy, PartialEq, Eq, Structural)]
pub struct QueryFlags {
    /// Re-compute the result on every access, even where one is cached.
    pub always: bool,
}

impl QueryFlags {
    /// No flag set: results are computed once and reused.
    pub fn empty() -> (r: QueryFlags)
        ensures
            !r.always,
    {
        QueryFlags { always: false }
    }

    /// The flag that makes a query re-compute on every access.
    pub fn always() -> (r: QueryFlags)
        ensures
            r.always,
    {
        QueryFlags { always: true }
    }

    /// Whether every flag set in `other` is set in `self`.
    pub fn contains(&self, other: QueryFlags) -> (r: bool)
        ensures
            r == (other.always ==> self.always),
    {
        !other.always || self.always
    }

    /// Sets every flag of `other` in `self`.
    pub fn insert(&mut self, other: QueryFlags)
        ensures
            final(self).always == (old(self).always || other.always),
    {
        self.always = self.always || other.always;
    }
}

} // verus!
