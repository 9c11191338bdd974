//! Randomized password generation from a configurable character universe.
//!
//! A pool of candidate characters is assembled from enabled categories and
//! literal special characters, filtered by exclusion and similarity rules,
//! and then sampled uniformly at random under optional structural
//! constraints (no duplicate characters, no codepoint-adjacent neighbours).

use vstd::prelude::*;

pub mod pool;
pub mod rng;
pub mod sample;

verus! {

/// Why no password could be generated.
#[derive(Clone, Copy, Debug, PartialEq, Eq, Structural)]
pub enum GenerateError {
    /// The effective character pool is empty: no enabled category or special
    /// character survived the filters. The configuration must be adjusted.
    EmptyPool,
    /// The duplicate or adjacency constraints rejected a whole retry budget
    /// of successive draws for one output position; the requested length is
    /// presumed unreachable under the requested constraints.
    InfeasibleConstraint,
}

/// Relies on String's FromIterator impl over characters: collects the
/// characters of `v` into a String, in order.
#[verifier::external_body]
fn chars_to_string(v: &Vec<char>) -> (s: String)
    ensures
        s@ == v@,
{
    v.iter().collect()
}

/// Generates a password of exactly `length` characters, each drawn uniformly
/// at random from the effective pool of the request: the enabled categories
/// and the special characters, minus the excluded and (under `no_similar`)
/// the visually ambiguous characters.
///
/// Fails with `EmptyPool` exactly when that pool is empty. Fails with
/// `InfeasibleConstraint` only when `no_duplicates` or `no_sequential` was
/// requested and a whole retry budget of draws for one position was
/// rejected; with neither constraint requested (or with `length` zero) a
/// non-empty pool always yields a password.
pub fn generate_password(
    length: usize,
    include_numbers: bool,
    include_upper_alphabets: bool,
    include_lower_alphabets: bool,
    special_chars: &str,
    exclude_chars: &str,
    no_similar: bool,
    no_duplicates: bool,
    no_sequential: bool,
) -> (out: Result<String, GenerateError>)
    ensures
        ({
            let pool = pool::pool_spec(include_numbers, include_upper_alphabets,
                include_lower_alphabets, special_chars@, exclude_chars@, no_similar);
            &&& match out {
                Ok(pw) => {
                    &&& pool.len() > 0
                    &&& pw@.len() == length
                    &&& forall|i: int| 0 <= i < pw@.len() ==> pool.contains(#[trigger] pw@[i])
                    &&& forall|i: int|
                        0 <= i < pw@.len() ==> !exclude_chars@.contains(#[trigger] pw@[i])
                    &&& no_similar ==> forall|i: int|
                        0 <= i < pw@.len() ==> !pool::similar_chars().contains(#[trigger] pw@[i])
                    &&& sample::satisfies(pw@, no_duplicates, no_sequential)
                },
                Err(GenerateError::EmptyPool) => pool.len() == 0,
                Err(GenerateError::InfeasibleConstraint) => {
                    &&& pool.len() > 0
                    &&& (no_duplicates || no_sequential)
                    &&& length > 0
                },
            }
            &&& (pool.len() > 0 && (length == 0 || (!no_duplicates && !no_sequential)))
                ==> out is Ok
        }),
{
    let pool = pool::build_pool(include_numbers, include_upper_alphabets, include_lower_alphabets,
        special_chars, exclude_chars, no_similar);
    if pool.len() == 0 {
        return Err(GenerateError::EmptyPool);
    }
    let mut generator = rng::fresh_rng();
    match sample::sample(&pool, length, no_duplicates, no_sequential, &mut generator) {
        Some(pw) => {
            proof {
                assert forall|i: int|
                    0 <= i < pw@.len() implies !exclude_chars@.contains(#[trigger] pw@[i])
                    && !(no_similar && pool::similar_chars().contains(pw@[i])) by {
                    pool::lemma_pool_member_keeps(include_numbers, include_upper_alphabets,
                        include_lower_alphabets, special_chars@, exclude_chars@, no_similar,
                        pw@[i]);
                }
            }
            Ok(chars_to_string(&pw))
        },
        None => Err(GenerateError::InfeasibleConstraint),
    }
}

} // verus!
