//! Stored carts and what a cart shows.

use vstd::prelude::*;

verus! {

/// Where a stored cart stands.
#[derive(Debug, Clone, Copy, PartialEq, Eq, Structural)]
pub enum CartStatus {
    Active,
    Confirming,
    Locked,
}

/// A stored cart.
#[derive(Debug, Clone, Copy, PartialEq, Eq, Structural)]
pub struct Cart {
    pub id: u128,
    pub user_id: u128,
    pub status: CartStatus,
}

/// One line of a cart as shown: the item, how many, and its price when chosen.
#[derive(Debug)]
pub struct CartItemView {
    pub menu_item_id: u128,
    pub title: String,
    pub quantity: i32,
    pub price_snapshot: i64,
}

/// A cart as shown: its lines and their total.
#[derive(Debug)]
pub struct CartView {
    pub items: Vec<CartItemView>,
    pub total_price: i64,
}

} // verus!
