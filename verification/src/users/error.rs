//! Why authentication failed.

use vstd::prelude::*;

verus! {

/// Why a customer could not be authenticated.
#[derive(Debug, Clone, Copy, PartialEq, Eq, Structural)]
pub enum AuthError {
    PhoneNotRegistered,
    InvalidPhone,
    NotVerified,
    Internal,
}

impl AuthError {
    /// The human-readable description of the error.
    pub fn message(&self) -> (m: &'static str)
        ensures
            m@ == match *self {
                AuthError::PhoneNotRegistered => "phone number is not registered"@,
                AuthError::InvalidPhone => "invalid phone number"@,
                AuthError::NotVerified => "user is not verified"@,
                AuthError::Internal => "unexpected auth error"@,
            },
    {
        match self {
            AuthError::PhoneNotRegistered => "phone number is not registered",
            AuthError::InvalidPhone => "invalid phone number",
            AuthError::NotVerified => "user is not verified",
            AuthError::Internal => "unexpected auth error",
        }
    }
}

} // verus!
