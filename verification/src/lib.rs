//! The verified core of an administrative backend: the generator of its
//! 64-bit identifiers, and the rules and text formats around it.
use vstd::prelude::*;

pub mod auth;
mod cell;
pub mod clock;
pub mod config;
pub mod datetime;
pub mod error;
pub mod hash;
pub mod json;
pub mod models;
pub mod params;
pub mod routes;
pub mod snowflake;
pub mod text;
pub mod theorems;
pub mod validator;

verus! {

/// Sum of two unsigned integers that is known not to overflow.
pub fn add(left: u64, right: u64) -> (sum: u64)
    requires
        left + right <= u64::MAX,
    ensures
        sum == left + right,
{
    left + right
}

} // verus!
