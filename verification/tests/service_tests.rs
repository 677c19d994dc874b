use fastorder::cart::service::{
    active_cart_after_create, active_cart_after_lookup, cart_result, confirming_cart_from, resolve_after_active,
    resolve_after_confirming, ActiveCartStep, CartState, ResolveStep,
};
use fastorder::cart::types::{Cart, CartStatus};
use fastorder::customer::Customer;
use fastorder::errors::{CartError, MenuError};
use fastorder::models::menu::{menu_items_from_rows, menu_result, AvailableItemRow};
use fastorder::order::error::{map_order_error, text_contains, OrderError};
use fastorder::order::{Order, OrderItem, OrderStatus};
use fastorder::repo::RepoError;
use fastorder::users::error::AuthError;
use fastorder::users::services::{
    auth_result, contact_after_phone_lookup, contact_after_refetch, customer_check_after_lookup,
    verified_user_after_lookup, verified_user_after_role_check, AccountWrite, AuthStep, CustomerCheckStep,
};
use fastorder::users::types::{Role, User};

fn failure() -> RepoError {
    RepoError { message: "connection reset".to_string() }
}

fn cart(id: u128, status: CartStatus) -> Cart {
    Cart { id, user_id: 1, status }
}

fn user(id: u128) -> User {
    User {
        id,
        telegram_id: 77,
        telegram_username: Some("ali".to_string()),
        phone: None,
        full_name: Some("Ali".to_string()),
        is_verified: false,
        is_active: true,
    }
}

#[test]
fn active_cart_wins() {
    match resolve_after_active(1, Ok(Some(cart(5, CartStatus::Active)))) {
        ResolveStep::Done(r) => assert_eq!(r, Ok(CartState::Active(5))),
        _ => panic!("expected a state"),
    }
}

#[test]
fn confirming_cart_when_no_active() {
    match resolve_after_active(1, Ok(None)) {
        ResolveStep::FindConfirming { user_id } => assert_eq!(user_id, 1),
        _ => panic!("expected a second lookup"),
    }
    assert_eq!(resolve_after_confirming(Ok(Some(cart(6, CartStatus::Confirming)))), Ok(CartState::Confirming(6)));
    assert_eq!(resolve_after_confirming(Ok(None)), Ok(CartState::New));
}

#[test]
fn failed_lookups_are_internal() {
    match resolve_after_active(1, Err(failure())) {
        ResolveStep::Done(r) => assert_eq!(r, Err(CartError::Internal)),
        _ => panic!("expected a state"),
    }
    assert_eq!(resolve_after_confirming(Err(failure())), Err(CartError::Internal));
}

#[test]
fn active_cart_is_found_or_opened() {
    let c = cart(5, CartStatus::Active);
    match active_cart_after_lookup(1, Ok(Some(c))) {
        ActiveCartStep::Done(r) => assert_eq!(r, Ok(c)),
        _ => panic!("expected the found cart"),
    }
    match active_cart_after_lookup(1, Ok(None)) {
        ActiveCartStep::Create { user_id } => assert_eq!(user_id, 1),
        _ => panic!("expected a request to open a cart"),
    }
    match active_cart_after_lookup(1, Err(failure())) {
        ActiveCartStep::Done(r) => assert_eq!(r, Err(CartError::Internal)),
        _ => panic!("expected an error"),
    }
    assert_eq!(active_cart_after_create(Ok(c)), Ok(c));
    assert_eq!(active_cart_after_create(Err(failure())), Err(CartError::Internal));
}

#[test]
fn confirming_cart_must_exist() {
    let c = cart(6, CartStatus::Confirming);
    assert_eq!(confirming_cart_from(Ok(Some(c))), Ok(c));
    assert_eq!(confirming_cart_from(Ok(None)), Err(CartError::NoConfirmingCart));
    assert_eq!(confirming_cart_from(Err(failure())), Err(CartError::Internal));
    assert_eq!(cart_result(Ok::<u8, RepoError>(3)), Ok(3));
    assert_eq!(cart_result::<()>(Err(failure())), Err(CartError::Internal));
}

#[test]
fn error_messages() {
    assert_eq!(CartError::NoActiveCart.message(), "no active cart found");
    assert_eq!(CartError::NoConfirmingCart.message(), "no confirming cart found");
    assert_eq!(CartError::InvalidState.message(), "invalid cart state");
    assert_eq!(CartError::Internal.message(), "internal cart error");
    assert_eq!(CartError::CartLocked.message(), "cart is locked");
    assert_eq!(MenuError::Database.message(), "database error");
    assert_eq!(MenuError::Internal.message(), "internal error");
    assert_eq!(OrderError::InvalidCart.message(), "cart not found or not confirmable");
    assert_eq!(OrderError::EmptyCart.message(), "cart is empty");
    assert_eq!(OrderError::Database.message(), "database error");
    assert_eq!(OrderError::Internal.message(), "internal error");
    assert_eq!(AuthError::PhoneNotRegistered.message(), "phone number is not registered");
    assert_eq!(AuthError::InvalidPhone.message(), "invalid phone number");
    assert_eq!(AuthError::NotVerified.message(), "user is not verified");
    assert_eq!(AuthError::Internal.message(), "unexpected auth error");
}

#[test]
fn menu_rows_become_available_items() {
    let rows = vec![
        AvailableItemRow { id: 1, category_id: 10, title: "a".to_string(), price: 5, category_title: "x".to_string(), position: 2 },
        AvailableItemRow { id: 2, category_id: 11, title: "b".to_string(), price: 7, category_title: "y".to_string(), position: 1 },
    ];
    let items = menu_items_from_rows(rows);
    assert_eq!(items.len(), 2);
    assert_eq!(items[0].id, 1);
    assert_eq!(items[0].title, "a");
    assert_eq!(items[0].category_title, "x");
    assert_eq!(items[0].position, 2);
    assert!(items[0].is_available);
    assert_eq!(items[1].id, 2);
    assert_eq!(items[1].price, 7);
    assert!(menu_items_from_rows(vec![]).is_empty());
    assert_eq!(menu_result(Ok::<u8, RepoError>(1)), Ok(1));
    assert_eq!(menu_result::<u8>(Err(failure())), Err(MenuError::Database));
}

#[test]
fn order_errors_are_read_from_messages() {
    assert_eq!(map_order_error("cart 12 is not confirming"), OrderError::InvalidCart);
    assert_eq!(map_order_error("cart is empty"), OrderError::EmptyCart);
    assert_eq!(map_order_error("timeout"), OrderError::Database);
    assert_eq!(map_order_error(""), OrderError::Database);
    assert_eq!(map_order_error("not confirming and cart is empty"), OrderError::InvalidCart);
    assert!(text_contains("abc", ""));
    assert!(text_contains("abc", "bc"));
    assert!(!text_contains("ab", "abc"));
}

fn pending_order() -> Order {
    Order {
        id: 1,
        customer_id: 2,
        items: vec![OrderItem { title: "a".to_string(), price: 10, quantity: 2 }],
        total_price: 20,
        status: OrderStatus::Pending,
    }
}

#[test]
fn pending_order_is_accepted_once() {
    let mut o = pending_order();
    assert_eq!(o.accept(15), Ok(()));
    assert_eq!(o.status, OrderStatus::Accepted { prep_time_minutes: 15 });
    assert_eq!(o.accept(20), Err("order cannot be accepted"));
    assert_eq!(o.reject(), Err("order cannot be rejected"));
    assert_eq!(o.status, OrderStatus::Accepted { prep_time_minutes: 15 });
}

#[test]
fn pending_order_is_rejected_once() {
    let mut o = pending_order();
    assert_eq!(o.reject(), Ok(()));
    assert_eq!(o.status, OrderStatus::Rejected);
    assert_eq!(o.accept(5), Err("order cannot be accepted"));
    assert_eq!(o.status, OrderStatus::Rejected);
    assert_eq!(o.total_price, 20);
}

#[test]
fn only_verified_customers_may_order() {
    assert!(Customer { id: 1, phone_number: "+989123456789".to_string(), is_verified: true }.can_order());
    assert!(!Customer { id: 1, phone_number: "".to_string(), is_verified: false }.can_order());
}

#[test]
fn verified_user_lookup() {
    match verified_user_after_lookup(Ok(None)) {
        AuthStep::Done(Err(e)) => assert_eq!(e, AuthError::NotVerified),
        _ => panic!("expected not verified"),
    }
    match verified_user_after_lookup(Err(failure())) {
        AuthStep::Done(Err(e)) => assert_eq!(e, AuthError::Internal),
        _ => panic!("expected internal"),
    }
    match verified_user_after_lookup(Ok(Some(user(4)))) {
        AuthStep::CheckCustomerRole { user_id, user } => {
            assert_eq!(user_id, 4);
            assert_eq!(user.id, 4);
        }
        _ => panic!("expected a role check"),
    }
    assert_eq!(verified_user_after_role_check(user(4), Ok(true)).unwrap().id, 4);
    assert_eq!(verified_user_after_role_check(user(4), Ok(false)).unwrap_err(), AuthError::NotVerified);
    assert_eq!(verified_user_after_role_check(user(4), Err(failure())).unwrap_err(), AuthError::Internal);
}

#[test]
fn customer_check() {
    assert!(matches!(customer_check_after_lookup(Ok(None)), CustomerCheckStep::Done(Ok(false))));
    assert!(matches!(customer_check_after_lookup(Err(failure())), CustomerCheckStep::Done(Err(AuthError::Internal))));
    assert!(matches!(
        customer_check_after_lookup(Ok(Some(user(8)))),
        CustomerCheckStep::CheckCustomerRole { user_id: 8 }
    ));
    assert_eq!(auth_result(Ok::<bool, RepoError>(true)), Ok(true));
    assert_eq!(auth_result::<bool>(Err(failure())), Err(AuthError::Internal));
}

#[test]
fn contact_activates_registered_accounts_only() {
    let w = contact_after_phone_lookup(Ok(Some(user(4))), 77, Some("ali"), Some("Ali"), "+989123456789").unwrap();
    assert_eq!(w.len(), 3);
    match &w[0] {
        AccountWrite::BindTelegram { user_id, telegram_id, telegram_username, full_name } => {
            assert_eq!(*user_id, 4);
            assert_eq!(*telegram_id, 77);
            assert_eq!(telegram_username.as_deref(), Some("ali"));
            assert_eq!(full_name.as_deref(), Some("Ali"));
        }
        _ => panic!("expected the Telegram binding first"),
    }
    match &w[1] {
        AccountWrite::SetPhoneAndVerify { user_id, phone } => {
            assert_eq!(*user_id, 4);
            assert_eq!(phone, "+989123456789");
        }
        _ => panic!("expected the phone second"),
    }
    assert!(matches!(w[2], AccountWrite::AssignRole { user_id: 4, role: Role::Customer }));
    assert_eq!(
        contact_after_phone_lookup(Ok(None), 77, None, None, "+989123456789").unwrap_err(),
        AuthError::PhoneNotRegistered
    );
    assert_eq!(
        contact_after_phone_lookup(Err(failure()), 77, None, None, "+989123456789").unwrap_err(),
        AuthError::Internal
    );
    assert_eq!(contact_after_refetch(Ok(Some(user(4)))).unwrap().id, 4);
    assert_eq!(contact_after_refetch(Ok(None)).unwrap_err(), AuthError::Internal);
    assert_eq!(contact_after_refetch(Err(failure())).unwrap_err(), AuthError::Internal);
}
