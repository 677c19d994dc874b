use fastorder::bot::flows::{
    cart_message, contact_after_verify, contact_phone, is_new_order_request, menu_intro, new_order_after_auth,
    request_phone_keyboard, start_after_check, start_after_fetch, welcome_message, ContactOutcome, Entry,
    ReplyMarkup, StartStep,
};
use fastorder::bot::views::{confirming_keyboard, CartRenderResult, InlineKeyboard};
use fastorder::users::error::AuthError;
use fastorder::users::types::User;

fn user(id: u128, full_name: Option<&str>) -> User {
    User {
        id,
        telegram_id: 555,
        telegram_username: None,
        phone: Some("+989123456789".to_string()),
        full_name: full_name.map(|s| s.to_string()),
        is_verified: true,
        is_active: true,
    }
}

#[test]
fn welcome_is_plain_text() {
    let r = welcome_message();
    assert_eq!(r.text, "👋 خوش اومدی به FastOrder!\nسفارش سریع، بدون تماس تلفنی.");
    assert!(matches!(r.markup, ReplyMarkup::Plain));
}

#[test]
fn phone_request_keyboard() {
    let k = request_phone_keyboard();
    assert_eq!(k.button_text, "📱 ارسال شماره تلفن");
    assert_eq!(k.placeholder, "ارسال شماره تلفن");
}

#[test]
fn start_asks_strangers_for_their_phone() {
    match start_after_check(Ok(false)) {
        StartStep::Say(r) => {
            assert_eq!(r.text, "برای استفاده از سرویس، لطفاً شماره تلفن خودت رو ارسال کن 👇");
            assert!(matches!(r.markup, ReplyMarkup::RequestPhone(_)));
        }
        _ => panic!("expected a reply"),
    }
    assert!(matches!(start_after_check(Ok(true)), StartStep::FetchUser));
    match start_after_check(Err(AuthError::Internal)) {
        StartStep::Say(r) => assert_eq!(r.text, "❌ خطایی رخ داد"),
        _ => panic!("expected a reply"),
    }
}

#[test]
fn start_enters_the_menu_for_customers() {
    assert!(matches!(start_after_fetch(Ok(user(9, None))), Entry::EnterMenu { user_id: 9 }));
    match start_after_fetch(Err(AuthError::NotVerified)) {
        Entry::Say(r) => assert_eq!(r.text, "❌ خطایی رخ داد"),
        _ => panic!("expected a reply"),
    }
}

#[test]
fn shared_phone_is_normalized_or_refused() {
    assert_eq!(contact_phone("+98 912 345 6789").unwrap(), "+989123456789");
    match contact_phone("123") {
        Err(r) => {
            assert_eq!(r.text, "❌ شماره تلفن نامعتبر است");
            assert!(matches!(r.markup, ReplyMarkup::Plain));
        }
        Ok(_) => panic!("expected a refusal"),
    }
}

#[test]
fn verified_contact_is_greeted_by_name() {
    match contact_after_verify(Ok(user(3, Some("علی")))) {
        ContactOutcome::Welcome { reply, user_id } => {
            assert_eq!(user_id, 3);
            assert_eq!(reply.text, "علی عزیز خوش آمدی");
            assert!(matches!(reply.markup, ReplyMarkup::RemoveKeyboard));
        }
        _ => panic!("expected a welcome"),
    }
    match contact_after_verify(Ok(user(3, None))) {
        ContactOutcome::Welcome { reply, .. } => assert_eq!(reply.text, " عزیز خوش آمدی"),
        _ => panic!("expected a welcome"),
    }
}

#[test]
fn unregistered_contact_is_told_to_call() {
    match contact_after_verify(Err(AuthError::PhoneNotRegistered)) {
        ContactOutcome::Say(r) => {
            assert_eq!(r.text, "❌ شماره شما در سیستم ثبت نشده است.\nلطفاً با رستوران تماس بگیرید.");
            assert!(matches!(r.markup, ReplyMarkup::RemoveKeyboard));
        }
        _ => panic!("expected a refusal"),
    }
    match contact_after_verify(Err(AuthError::Internal)) {
        ContactOutcome::Say(r) => assert_eq!(r.text, "❌ خطا در احراز هویت"),
        _ => panic!("expected a refusal"),
    }
}

#[test]
fn new_order_button_is_recognized() {
    assert!(is_new_order_request(Some("🛒 سفارش جدید")));
    assert!(!is_new_order_request(Some("سلام")));
    assert!(!is_new_order_request(None));
    assert!(matches!(new_order_after_auth(Ok(user(4, None))), Entry::EnterMenu { user_id: 4 }));
    match new_order_after_auth(Err(AuthError::NotVerified)) {
        Entry::Say(r) => assert_eq!(r.text, "❌ ابتدا باید احراز هویت شوید"),
        _ => panic!("expected a reply"),
    }
}

#[test]
fn menu_instructions() {
    let r = menu_intro();
    assert_eq!(
        r.text,
        "👇 منو اینجاست\nبا دکمه‌های + و − انتخاب کن\nسفارشت بالا، به‌صورت لحظه‌ای نشون داده می‌شه\nوقتی تموم شدی، روی «✅ تکمیل سفارش» بزن"
    );
    assert!(matches!(r.markup, ReplyMarkup::RemoveKeyboard));
}

#[test]
fn cart_message_carries_the_render() {
    let r = cart_message(Some(CartRenderResult::Confirming { text: "x".to_string(), keyboard: confirming_keyboard() }));
    assert_eq!(r.text, "x");
    match r.markup {
        ReplyMarkup::Inline(k) => assert_eq!(k.rows.len(), 1),
        _ => panic!("expected buttons"),
    }
    let r = cart_message(Some(CartRenderResult::Active { text: "y".to_string(), keyboard: InlineKeyboard { rows: vec![] } }));
    assert_eq!(r.text, "y");
    let r = cart_message(None);
    assert_eq!(r.text, "❌ خطا در نمایش سبد خرید");
    assert!(matches!(r.markup, ReplyMarkup::Plain));
}
