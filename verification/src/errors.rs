//! Errors of the cart, menu and order use-cases.

use vstd::prelude::*;

verus! {

/// Why a cart operation failed.
#[derive(Debug, Clone, Copy, PartialEq, Eq, Structural)]
pub enum CartError {
    NoActiveCart,
    NoConfirmingCart,
    InvalidState,
    Internal,
    CartLocked,
}

impl CartError {
    /// The human-readable description of the error.
    pub fn message(&self) -> (m: &'static str)
        ensures
            m@ == match *self {
                CartError::NoActiveCart => "no active cart found"@,
                CartError::NoConfirmingCart => "no confirming cart found"@,
                CartError::InvalidState => "invalid cart state"@,
                CartError::Internal => "internal cart error"@,
                CartError::CartLocked => "cart is locked"@,
            },
    {
        match self {
            CartError::NoActiveCart => "no active cart found",
            CartError::NoConfirmingCart => "no confirming cart found",
            CartError::InvalidState => "invalid cart state",
            CartError::Internal => "internal cart error",
            CartError::CartLocked => "cart is locked",
        }
    }
}

/// Why the menu could not be read.
#[derive(Debug, Clone, Copy, PartialEq, Eq, Structural)]
pub enum MenuError {
    Database,
    Internal,
}

impl MenuError {
    /// The human-readable description of the error.
    pub fn message(&self) -> (m: &'static str)
        ensures
            m@ == match *self {
                MenuError::Database => "database error"@,
                MenuError::Internal => "internal error"@,
            },
    {
        match self {
            MenuError::Database => "database error",
            MenuError::Internal => "internal error",
        }
    }
}

} // verus!
