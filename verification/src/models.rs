//! Stored domain records: operator state and the persisted order.

pub mod menu;
pub mod operator_state;
pub mod order;
