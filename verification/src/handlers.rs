//! The request handlers' decisions.
//!
//! Each function below is the whole behaviour of one route once the
//! transport has done its part: the body, if the route takes one, has
//! already been accumulated under the size bound and parsed, and the
//! outcome of that is handed in as a value.  A validation failure
//! leaves the store untouched; a lookup of an absent identifier is
//! refused with not-found instead of crashing.

use vstd::prelude::*;
use crate::error::ApiError;
use crate::product::{Product, with_id};
use crate::store::{ProductStore, contains_id, first_index, record_with_id};

verus! {

/// What reading and parsing a request body yielded: refused for size,
/// refused as malformed, or a well-shaped product record.
pub enum BodyOutcome {
    /// The body crossed the size bound before it was complete.
    TooLarge,
    /// The body was complete but was not a well-shaped product record.
    Malformed,
    /// The parsed record.
    Valid(Product),
}

/// The liveness payload: a fixed body, whatever the store holds.
pub fn health() -> (r: String)
    ensures
        r@ == "{\"status\":\"ok\"}"@,
{
    String::from_str("{\"status\":\"ok\"}")
}

/// The whole catalogue, in storage order.
pub fn get_products(store: &ProductStore) -> (r: Vec<Product>)
    ensures
        r@.len() == store@.len(),
        forall|k: int| 0 <= k < store@.len() ==> r@[k]@ == store@[k],
{
    store.list()
}

/// One record, by its identifier: the first stored record carrying it,
/// or not-found when none does.
pub fn get_product(store: &ProductStore, product_id: i32) -> (r: Result<Product, ApiError>)
    ensures
        match r {
            Ok(p) => contains_id(store@, product_id as int) && p@ == record_with_id(
                store@,
                product_id as int,
            ),
            Err(e) => e == ApiError::NotFound && !contains_id(store@, product_id as int),
        },
{
    match store.get(product_id) {
        Some(p) => Ok(p),
        None => Err(ApiError::NotFound),
    }
}

/// Create a record.  A refused body leaves the store untouched; a
/// well-shaped one is stored under a server-assigned identifier (the
/// collection length at insertion time plus two, the submitted
/// identifier notwithstanding) and the stored record is returned.
pub fn add_product(store: &mut ProductStore, body: BodyOutcome) -> (r: Result<Product, ApiError>)
    requires
        old(store)@.len() + 2 <= i32::MAX,
    ensures
        match body {
            BodyOutcome::TooLarge => final(store)@ == old(store)@ && match r {
                Ok(_) => false,
                Err(e) => e == ApiError::PayloadTooLarge,
            },
            BodyOutcome::Malformed => final(store)@ == old(store)@ && match r {
                Ok(_) => false,
                Err(e) => e == ApiError::MalformedBody,
            },
            BodyOutcome::Valid(p) => match r {
                Ok(stored) => stored@ == with_id(p@, old(store)@.len() as int + 2)
                    && final(store)@ == old(store)@.push(stored@),
                Err(_) => false,
            },
        },
{
    match body {
        BodyOutcome::TooLarge => Err(ApiError::PayloadTooLarge),
        BodyOutcome::Malformed => Err(ApiError::MalformedBody),
        BodyOutcome::Valid(p) => Ok(store.create(p)),
    }
}

/// Update a record.  A refused body leaves the store untouched; a
/// well-shaped one replaces the first stored record whose identifier
/// equals the submitted one, wholesale, and is returned; when no record
/// carries that identifier the store is untouched and the request is
/// refused with not-found.
pub fn update_product(store: &mut ProductStore, body: BodyOutcome) -> (r: Result<
    Product,
    ApiError,
>)
    ensures
        match body {
            BodyOutcome::TooLarge => final(store)@ == old(store)@ && match r {
                Ok(_) => false,
                Err(e) => e == ApiError::PayloadTooLarge,
            },
            BodyOutcome::Malformed => final(store)@ == old(store)@ && match r {
                Ok(_) => false,
                Err(e) => e == ApiError::MalformedBody,
            },
            BodyOutcome::Valid(p) => if contains_id(old(store)@, p@.id) {
                final(store)@ == old(store)@.update(first_index(old(store)@, p@.id), p@) && match r {
                    Ok(q) => q@ == p@,
                    Err(_) => false,
                }
            } else {
                final(store)@ == old(store)@ && match r {
                    Ok(_) => false,
                    Err(e) => e == ApiError::NotFound,
                }
            },
        },
{
    match body {
        BodyOutcome::TooLarge => Err(ApiError::PayloadTooLarge),
        BodyOutcome::Malformed => Err(ApiError::MalformedBody),
        BodyOutcome::Valid(p) => match store.update(p) {
            Some(q) => Ok(q),
            None => Err(ApiError::NotFound),
        },
    }
}

/// Delete a record: remove the first stored record carrying the
/// identifier, or refuse with not-found and leave the store untouched.
pub fn delete_product(store: &mut ProductStore, product_id: i32) -> (r: Result<(), ApiError>)
    ensures
        contains_id(old(store)@, product_id as int) ==> final(store)@ == old(store)@.remove(
            first_index(old(store)@, product_id as int),
        ) && match r {
            Ok(_) => true,
            Err(_) => false,
        },
        !contains_id(old(store)@, product_id as int) ==> final(store)@ == old(store)@ && match r {
            Ok(_) => false,
            Err(e) => e == ApiError::NotFound,
        },
{
    if store.delete(product_id) {
        Ok(())
    } else {
        Err(ApiError::NotFound)
    }
}

} // verus!
