//! Ordering logic of a restaurant ordering bot: carts, orders, operator
//! dispatch, customer authentication and the texts and keyboards the bot
//! shows, each with a verified contract.

pub mod assign;
pub mod bot;
pub mod cart;
pub mod customer;
pub mod errors;
pub mod ids;
pub mod models;
pub mod order;
pub mod repo;
pub mod text;
pub mod users;
