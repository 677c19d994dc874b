//! A customer's cart held in memory: menu items with quantities, which can be
//! locked against further changes.

pub mod service;
pub mod types;

use std::collections::HashMap;
use vstd::prelude::*;

verus! {

broadcast use vstd::std_specs::hash::group_hash_axioms;

/// One menu item in a cart and how many of it were chosen.
#[derive(Debug, Clone, Copy, PartialEq, Eq)]
pub struct CartItem {
    pub menu_item_id: u128,
    pub quantity: u32,
}

/// A cart: the chosen items, keyed by menu item id.
#[derive(Debug, Clone)]
pub struct Cart {
    pub user_id: u128,
    pub items: HashMap<u128, CartItem>,
    pub locked: bool,
}

/// The items after one more of `id` was chosen: its quantity grows by one,
/// or it enters the cart with quantity one.
pub open spec fn items_after_add(m: Map<u128, CartItem>, id: u128) -> Map<u128, CartItem> {
    if m.contains_key(id) {
        m.insert(id, CartItem { menu_item_id: m[id].menu_item_id, quantity: (m[id].quantity + 1) as u32 })
    } else {
        m.insert(id, CartItem { menu_item_id: id, quantity: 1 })
    }
}

/// The items after one of `id` was taken away: its quantity shrinks by one,
/// it leaves the cart at its last unit, and nothing changes when it is absent.
pub open spec fn items_after_remove(m: Map<u128, CartItem>, id: u128) -> Map<u128, CartItem> {
    if m.contains_key(id) {
        if m[id].quantity > 1 {
            m.insert(id, CartItem { menu_item_id: m[id].menu_item_id, quantity: (m[id].quantity - 1) as u32 })
        } else {
            m.remove(id)
        }
    } else {
        m
    }
}

/// Every entry is filed under its own menu item id and holds at least one unit.
pub open spec fn items_well_formed(m: Map<u128, CartItem>) -> bool {
    forall|k: u128| #[trigger] m.contains_key(k) ==> m[k].menu_item_id == k && m[k].quantity >= 1
}

/// Whether one more of `id` can be counted without the quantity overflowing.
pub open spec fn can_add(m: Map<u128, CartItem>, id: u128) -> bool {
    m.contains_key(id) ==> m[id].quantity < u32::MAX
}

impl Cart {
    /// Whether the cart's items are well formed.
    pub open spec fn well_formed(&self) -> bool {
        items_well_formed(self.items@)
    }

    /// An empty, unlocked cart of a user.
    pub fn new(user_id: u128) -> (c: Cart)
        ensures
            c.user_id == user_id,
            c.items@ == Map::<u128, CartItem>::empty(),
            !c.locked,
            c.well_formed(),
    {
        Cart { user_id, items: HashMap::new(), locked: false }
    }

    /// Adds one unit of a menu item; a locked cart refuses and stays as it was.
    pub fn add_item(&mut self, menu_item_id: u128) -> (r: Result<(), &'static str>)
        requires
            !old(self).locked ==> can_add(old(self).items@, menu_item_id),
        ensures
            old(self).locked ==> (r matches Err(m) && m@ == "cart is locked"@ && *final(self) == *old(self)),
            !old(self).locked ==> r is Ok && final(self).items@ == items_after_add(old(self).items@, menu_item_id)
                && final(self).user_id == old(self).user_id && final(self).locked == old(self).locked,
    {
        if self.locked {
            return Err("cart is locked");
        }
        let existing: Option<CartItem> = match self.items.get(&menu_item_id) {
            Some(item) => Some(*item),
            None => None,
        };
        match existing {
            Some(item) => {
                self.items.insert(menu_item_id, CartItem { menu_item_id: item.menu_item_id, quantity: item.quantity + 1 });
            },
            None => {
                self.items.insert(menu_item_id, CartItem { menu_item_id, quantity: 1 });
            },
        }
        Ok(())
    }

    /// Takes one unit of a menu item away; a locked cart refuses and stays as it was.
    pub fn remove_item(&mut self, menu_item_id: u128) -> (r: Result<(), &'static str>)
        ensures
            old(self).locked ==> (r matches Err(m) && m@ == "cart is locked"@ && *final(self) == *old(self)),
            !old(self).locked ==> r is Ok && final(self).items@ == items_after_remove(old(self).items@, menu_item_id)
                && final(self).user_id == old(self).user_id && final(self).locked == old(self).locked,
    {
        if self.locked {
            return Err("cart is locked");
        }
        let existing: Option<CartItem> = match self.items.get(&menu_item_id) {
            Some(item) => Some(*item),
            None => None,
        };
        match existing {
            Some(item) => {
                if item.quantity > 1 {
                    self.items.insert(menu_item_id, CartItem { menu_item_id: item.menu_item_id, quantity: item.quantity - 1 });
                } else {
                    self.items.remove(&menu_item_id);
                }
            },
            None => {},
        }
        Ok(())
    }

    /// Locks the cart against further changes.
    pub fn lock(&mut self)
        ensures
            final(self).locked,
            final(self).items@ == old(self).items@,
            final(self).user_id == old(self).user_id,
    {
        self.locked = true;
    }
}

/// In well-formed items, taking away the unit just added gives back the
/// items as they were.
pub proof fn lemma_remove_undoes_add(m: Map<u128, CartItem>, id: u128)
    requires
        items_well_formed(m),
        can_add(m, id),
    ensures
        items_after_remove(items_after_add(m, id), id) == m,
{
    if m.contains_key(id) {
        let a = items_after_add(m, id);
        assert(a[id].quantity == m[id].quantity + 1);
        assert(a[id].quantity > 1);
        assert(items_after_remove(a, id)[id] == m[id]);
        assert(items_after_remove(items_after_add(m, id), id) =~= m);
    } else {
        assert(items_after_remove(items_after_add(m, id), id) =~= m);
    }
}

/// In well-formed items, adding back a unit just taken away gives back the
/// items as they were.
pub proof fn lemma_add_undoes_remove(m: Map<u128, CartItem>, id: u128)
    requires
        items_well_formed(m),
        m.contains_key(id),
    ensures
        items_after_add(items_after_remove(m, id), id) == m,
{
    assert(items_after_add(items_after_remove(m, id), id) =~= m);
}

/// Adding and taking away units keeps the items well formed.
pub proof fn lemma_changes_keep_items_well_formed(m: Map<u128, CartItem>, id: u128)
    requires
        items_well_formed(m),
    ensures
        can_add(m, id) ==> items_well_formed(items_after_add(m, id)),
        items_well_formed(items_after_remove(m, id)),
{
}

/// Adding a unit leaves every other item untouched and the added item present.
pub proof fn lemma_add_is_local(m: Map<u128, CartItem>, id: u128, other: u128)
    requires
        other != id,
    ensures
        items_after_add(m, id).contains_key(id),
        items_after_add(m, id).contains_key(other) == m.contains_key(other),
        m.contains_key(other) ==> items_after_add(m, id)[other] == m[other],
{
}

} // verus!
