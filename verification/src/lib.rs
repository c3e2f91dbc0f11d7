pub mod api;
pub mod model;
pub mod repository;
pub mod service;
pub mod sql;
pub mod validate;

use vstd::prelude::*;

verus! {

/// Cost parameter handed to the password-hashing primitive.
pub const HASH_COST: u32 = 4;

} // verus!
