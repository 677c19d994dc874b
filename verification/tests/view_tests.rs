use fastorder::bot::views::{
    active_render, category_emoji, confirming_keyboard, confirming_render, find_quantity, order_placed_message,
    render_cart_view, render_confirming_view, Button, CartRenderResult, InlineKeyboard,
};
use fastorder::cart::types::{CartItemView, CartView};
use fastorder::ids::uuid_text;
use fastorder::models::menu::MenuItem;

fn dish(id: u128, category_id: u128, category_title: &str, title: &str, price: i64) -> MenuItem {
    MenuItem {
        id,
        category_id,
        title: title.to_string(),
        price,
        is_available: true,
        category_title: category_title.to_string(),
        position: 0,
    }
}

fn line(menu_item_id: u128, title: &str, quantity: i32, price_snapshot: i64) -> CartItemView {
    CartItemView { menu_item_id, title: title.to_string(), quantity, price_snapshot }
}

fn menu() -> Vec<MenuItem> {
    vec![
        dish(100, 1, "پیتزا", "مارگاریتا", 250000),
        dish(101, 1, "پیتزا", "پپرونی", 320000),
        dish(200, 2, "سوخاری", "بال", 150000),
    ]
}

fn rows(k: &InlineKeyboard) -> Vec<Vec<(String, String)>> {
    k.rows
        .iter()
        .map(|r| r.iter().map(|b: &Button| (b.text.clone(), b.data.clone())).collect())
        .collect()
}

fn pair(text: &str, data: &str) -> (String, String) {
    (text.to_string(), data.to_string())
}

#[test]
fn category_icons() {
    assert_eq!(category_emoji("پیتزا"), "🍕");
    assert_eq!(category_emoji("سوخاری"), "🍗");
    assert_eq!(category_emoji("پیش غذا"), "🥗");
    assert_eq!(category_emoji("پیش\u{200c}غذا"), "🥗");
    assert_eq!(category_emoji("نوشیدنی"), "📂");
}

#[test]
fn cart_quantity_is_read_from_the_lines() {
    let items = vec![line(100, "a", 2, 1), line(200, "b", 1, 1)];
    assert_eq!(find_quantity(&items, 100), Some(2));
    assert_eq!(find_quantity(&items, 200), Some(1));
    assert_eq!(find_quantity(&items, 300), None);
}

#[test]
fn active_cart_text_and_keyboard() {
    let view = CartView { items: vec![line(100, "مارگاریتا", 2, 250000)], total_price: 500000 };
    let (text, keyboard) = render_cart_view(&view, &menu());
    assert_eq!(text, "🛒 سفارش شما:\n• مارگاریتا × 2\n\n💰 جمع کل: 500,000 تومان\n\n");
    let u100 = uuid_text(100);
    let u101 = uuid_text(101);
    let u200 = uuid_text(200);
    assert_eq!(u100, "00000000-0000-0000-0000-000000000064");
    assert_eq!(
        rows(&keyboard),
        vec![
            vec![pair("🍕 پیتزا", "noop")],
            vec![pair("مارگاریتا × 2 — 250,000", "noop")],
            vec![pair("➖", &format!("cart:dec:{}", u100)), pair("➕", &format!("cart:inc:{}", u100))],
            vec![pair("پپرونی — 320,000", "noop")],
            vec![pair("-", "noop"), pair("➕", &format!("cart:inc:{}", u101))],
            vec![pair("🍗 سوخاری", "noop")],
            vec![pair("بال — 150,000", "noop")],
            vec![pair("-", "noop"), pair("➕", &format!("cart:inc:{}", u200))],
            vec![pair("✅ تکمیل سفارش", "cart:complete"), pair("🔄 سفارش جدید", "cart:reset")],
        ]
    );
}

#[test]
fn empty_cart_shows_hint_and_no_checkout() {
    let view = CartView { items: vec![], total_price: 0 };
    let (text, keyboard) = render_cart_view(&view, &menu());
    assert_eq!(text, "🛒 سفارش شما:\n— هنوز چیزی انتخاب نکردی —\n\n💰 جمع کل: 0 تومان\n\n");
    let r = rows(&keyboard);
    assert_eq!(r.len(), 8);
    assert_eq!(r[7][0], pair("-", "noop"));
}

#[test]
fn zero_quantity_lines_are_not_listed() {
    let view = CartView { items: vec![line(101, "پپرونی", 0, 320000)], total_price: 0 };
    let (text, keyboard) = render_cart_view(&view, &menu());
    assert_eq!(text, "🛒 سفارش شما:\n— هنوز چیزی انتخاب نکردی —\n\n💰 جمع کل: 0 تومان\n\n");
    assert_eq!(rows(&keyboard)[3], vec![pair("پپرونی — 320,000", "noop")]);
}

#[test]
fn empty_menu_keyboard() {
    let view = CartView { items: vec![], total_price: 0 };
    let (_, keyboard) = render_cart_view(&view, &vec![]);
    assert!(keyboard.rows.is_empty());
}

#[test]
fn confirming_summary() {
    let view = CartView {
        items: vec![line(100, "مارگاریتا", 2, 250000), line(200, "بال", 1, 150000)],
        total_price: 650000,
    };
    assert_eq!(
        render_confirming_view(&view),
        "🧾 *خلاصه سفارش شما:*\n\n• مارگاریتا × 2 — 500,000 تومان\n• بال × 1 — 150,000 تومان\n\n───────────────\n💰 *جمع کل:* 650,000 تومان\n\n❓ آیا سفارش نهایی شود؟"
    );
}

#[test]
fn confirmation_keyboard() {
    assert_eq!(
        rows(&confirming_keyboard()),
        vec![vec![pair("✏️ ویرایش سفارش", "cart:edit"), pair("✅ تأیید نهایی", "cart:confirm")]]
    );
}

#[test]
fn renders_by_state() {
    let view = CartView { items: vec![line(200, "بال", 3, 150000)], total_price: 450000 };
    match active_render(&view, &menu()) {
        CartRenderResult::Active { text, keyboard } => {
            assert_eq!(text, "🛒 سفارش شما:\n• بال × 3\n\n💰 جمع کل: 450,000 تومان\n\n");
            assert_eq!(keyboard.rows.len(), 9);
        }
        _ => panic!("expected an active render"),
    }
    match confirming_render(&view) {
        CartRenderResult::Confirming { text, keyboard } => {
            assert!(text.contains("• بال × 3 — 450,000 تومان"));
            assert_eq!(rows(&keyboard), rows(&confirming_keyboard()));
        }
        _ => panic!("expected a confirming render"),
    }
}

#[test]
fn order_placed_text() {
    assert_eq!(order_placed_message("A-17"), "✅ سفارش شما ثبت شد\n\n🧾 کد سفارش: A-17");
}
