//! A customer as the ordering core sees them.

use vstd::prelude::*;

verus! {

/// A customer and whether their phone number was verified.
#[derive(Debug, Clone)]
pub struct Customer {
    pub id: u128,
    pub phone_number: String,
    pub is_verified: bool,
}

impl Customer {
    /// Only a verified customer may order.
    pub fn can_order(&self) -> (r: bool)
        ensures
            r == self.is_verified,
    {
        self.is_verified
    }
}

} // verus!
