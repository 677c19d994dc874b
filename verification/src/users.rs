//! Customers and staff: roles, accounts, phone numbers and authentication.

pub mod error;
pub mod phone;
pub mod services;
pub mod types;
