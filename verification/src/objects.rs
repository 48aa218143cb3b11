//! The domain objects of the API.

use vstd::prelude::*;

verus! {

/// A user of the API.
#[derive(Debug, Clone, PartialEq, Eq)]
pub struct User {
    pub id: u64,
}

} // verus!
