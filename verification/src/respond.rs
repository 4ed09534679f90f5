//! The last step of a request: whatever the store answered becomes a record,
//! a listing, or absence. Every kind of error is rendered alike.

use vstd::prelude::*;
use crate::error::StoreError;

verus! {

/// The stored record of an answer, or absence where the store refused.
pub open spec fn stored<T>(answer: Result<T, StoreError>) -> Option<T> {
    match answer {
        Ok(row) => Some(row),
        Err(_) => None,
    }
}

/// The record that a lookup found, or absence where there is none or the
/// store refused.
pub open spec fn found<T>(answer: Result<Option<T>, StoreError>) -> Option<T> {
    match answer {
        Ok(Some(row)) => Some(row),
        _ => None,
    }
}

/// What a create, update or delete hands to the caller.
pub fn stored_or_absent<T>(answer: Result<T, StoreError>) -> (r: Option<T>)
    ensures
        r == stored(answer),
{
    match answer {
        Ok(row) => Some(row),
        Err(_) => None,
    }
}

/// What a lookup by key hands to the caller.
pub fn found_or_absent<T>(answer: Result<Option<T>, StoreError>) -> (r: Option<T>)
    ensures
        r == found(answer),
{
    match answer {
        Ok(Some(row)) => Some(row),
        _ => None,
    }
}

/// What a listing hands to the caller: the rows, or none at all where the
/// store refused.
pub fn rows_or_empty<T>(answer: Result<Vec<T>, StoreError>) -> (rows: Vec<T>)
    ensures
        answer matches Ok(listed) ==> rows == listed,
        answer is Err ==> rows@ == Seq::<T>::empty(),
{
    match answer {
        Ok(listed) => listed,
        Err(_) => Vec::new(),
    }
}

} // verus!
