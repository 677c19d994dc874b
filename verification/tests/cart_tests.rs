use fastorder::cart::{Cart, CartItem};

fn item(cart: &Cart, id: u128) -> Option<CartItem> {
    cart.items.get(&id).copied()
}

#[test]
fn new_cart_is_empty_and_unlocked() {
    let c = Cart::new(7);
    assert_eq!(c.user_id, 7);
    assert!(c.items.is_empty());
    assert!(!c.locked);
}

#[test]
fn add_item_counts_units() {
    let mut c = Cart::new(1);
    assert!(c.add_item(10).is_ok());
    assert_eq!(item(&c, 10), Some(CartItem { menu_item_id: 10, quantity: 1 }));
    assert!(c.add_item(10).is_ok());
    assert_eq!(item(&c, 10), Some(CartItem { menu_item_id: 10, quantity: 2 }));
    assert!(c.add_item(11).is_ok());
    assert_eq!(c.items.len(), 2);
}

#[test]
fn remove_item_takes_one_unit_and_drops_last() {
    let mut c = Cart::new(1);
    c.add_item(5).unwrap();
    c.add_item(5).unwrap();
    c.remove_item(5).unwrap();
    assert_eq!(item(&c, 5), Some(CartItem { menu_item_id: 5, quantity: 1 }));
    c.remove_item(5).unwrap();
    assert_eq!(item(&c, 5), None);
    assert!(c.items.is_empty());
}

#[test]
fn remove_absent_item_changes_nothing() {
    let mut c = Cart::new(1);
    c.add_item(3).unwrap();
    assert!(c.remove_item(99).is_ok());
    assert_eq!(c.items.len(), 1);
    assert_eq!(item(&c, 3), Some(CartItem { menu_item_id: 3, quantity: 1 }));
}

#[test]
fn remove_undoes_add() {
    let mut c = Cart::new(1);
    c.add_item(4).unwrap();
    c.add_item(4).unwrap();
    c.add_item(8).unwrap();
    let before: Vec<(u128, CartItem)> = {
        let mut v: Vec<_> = c.items.iter().map(|(k, v)| (*k, *v)).collect();
        v.sort_by_key(|p| p.0);
        v
    };
    c.add_item(4).unwrap();
    c.remove_item(4).unwrap();
    c.add_item(12).unwrap();
    c.remove_item(12).unwrap();
    let mut after: Vec<_> = c.items.iter().map(|(k, v)| (*k, *v)).collect();
    after.sort_by_key(|p| p.0);
    assert_eq!(before, after);
}

#[test]
fn add_undoes_remove() {
    let mut c = Cart::new(1);
    c.add_item(4).unwrap();
    c.add_item(4).unwrap();
    c.remove_item(4).unwrap();
    c.add_item(4).unwrap();
    assert_eq!(item(&c, 4), Some(CartItem { menu_item_id: 4, quantity: 2 }));
}

#[test]
fn locked_cart_refuses_changes() {
    let mut c = Cart::new(1);
    c.add_item(2).unwrap();
    c.lock();
    assert!(c.locked);
    assert_eq!(c.add_item(2), Err("cart is locked"));
    assert_eq!(c.remove_item(2), Err("cart is locked"));
    assert_eq!(item(&c, 2), Some(CartItem { menu_item_id: 2, quantity: 1 }));
    c.lock();
    assert!(c.locked);
}
