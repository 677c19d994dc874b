//! What the bot shows for a cart: the editable cart with its buttons, the
//! read-only summary awaiting confirmation, and the confirmation keyboard.

use vstd::prelude::*;
use vstd::string::*;
use crate::cart::types::{CartItemView, CartView};
use crate::ids::{uuid_hyphenated, uuid_text};
use crate::models::menu::MenuItem;
use crate::order::error::contains_text;
use crate::text::{comma_separated, decimal_text, i32_text, i64_with_commas, str_equal};

verus! {

/// A button under a message: its label and the data it sends back.
#[derive(Debug)]
pub struct Button {
    pub text: String,
    pub data: String,
}

/// Buttons under a message, row by row.
#[derive(Debug)]
pub struct InlineKeyboard {
    pub rows: Vec<Vec<Button>>,
}

/// A button as its label and data.
pub type ButtonText = (Seq<char>, Seq<char>);

/// The label and data of a button.
pub open spec fn button_view(b: Button) -> ButtonText {
    (b.text@, b.data@)
}

/// The labels and data of a row of buttons.
pub open spec fn row_view(r: Vec<Button>) -> Seq<ButtonText> {
    r@.map_values(|b: Button| button_view(b))
}

/// The labels and data of all rows of a keyboard.
pub open spec fn rows_view(rows: Seq<Vec<Button>>) -> Seq<Seq<ButtonText>> {
    rows.map_values(|r: Vec<Button>| row_view(r))
}

/// A cart as shown, by the state it is in.
#[derive(Debug)]
pub enum CartRenderResult {
    Active { text: String, keyboard: InlineKeyboard },
    Confirming { text: String, keyboard: InlineKeyboard },
}

/// The icon shown before a menu category.
pub open spec fn category_icon(title: Seq<char>) -> Seq<char> {
    if title == "پیتزا"@ {
        "🍕"@
    } else if title == "سوخاری"@ {
        "🍗"@
    } else if title == "پیش غذا"@ || title == "پیش‌غذا"@ {
        "🥗"@
    } else {
        "📂"@
    }
}

/// The icon shown before a menu category.
pub fn category_emoji(title: &str) -> (icon: &'static str)
    ensures
        icon@ == category_icon(title@),
{
    if str_equal(title, "پیتزا") {
        "🍕"
    } else if str_equal(title, "سوخاری") {
        "🍗"
    } else if str_equal(title, "پیش غذا") || str_equal(title, "پیش‌غذا") {
        "🥗"
    } else {
        "📂"
    }
}

/// How many of a menu item the cart holds, as the last cart line for it says.
pub open spec fn cart_quantity(items: Seq<CartItemView>, id: u128) -> Option<i32>
    decreases items.len(),
{
    if items.len() == 0 {
        None
    } else if items.last().menu_item_id == id {
        Some(items.last().quantity)
    } else {
        cart_quantity(items.drop_last(), id)
    }
}

/// How many of a menu item the cart holds, zero when none.
pub open spec fn quantity_or_zero(items: Seq<CartItemView>, id: u128) -> i32 {
    match cart_quantity(items, id) {
        Some(q) => q,
        None => 0,
    }
}

/// The cart's quantity of a menu item, when it has a line for it.
pub fn find_quantity(items: &Vec<CartItemView>, id: u128) -> (q: Option<i32>)
    ensures
        q == cart_quantity(items@, id),
{
    let mut i = items.len();
    assert(items@.take(i as int) =~= items@);
    while i > 0
        invariant
            i <= items.len(),
            cart_quantity(items@, id) == cart_quantity(items@.take(i as int), id),
        decreases i,
    {
        let ghost prefix = items@.take(i as int);
        assert(prefix.drop_last() =~= items@.take(i - 1));
        assert(prefix.last() == items@[i - 1]);
        if items[i - 1].menu_item_id == id {
            return Some(items[i - 1].quantity);
        }
        i = i - 1;
    }
    None
}

/// The summary line of a menu item in the cart text, present when the cart holds some of it.
pub open spec fn summary_line(item: MenuItem, q: Option<i32>) -> Seq<char> {
    match q {
        Some(n) => if n > 0 {
            "• "@ + item.title@ + " × "@ + decimal_text(n as int) + "\n"@
        } else {
            Seq::<char>::empty()
        },
        None => Seq::<char>::empty(),
    }
}

/// The summary lines of the first `n` menu items.
pub open spec fn summary_lines(menu: Seq<MenuItem>, items: Seq<CartItemView>, n: int) -> Seq<char>
    decreases n,
{
    if n <= 0 {
        Seq::<char>::empty()
    } else {
        summary_lines(menu, items, n - 1) + summary_line(menu[n - 1], cart_quantity(items, menu[n - 1].id))
    }
}

/// The text of an editable cart: the chosen dishes in menu order, a hint when
/// nothing is chosen yet, and the total.
pub open spec fn cart_text(menu: Seq<MenuItem>, items: Seq<CartItemView>, total: i64) -> Seq<char> {
    "🛒 سفارش شما:\n"@ + summary_lines(menu, items, menu.len() as int)
        + (if total == 0 { "— هنوز چیزی انتخاب نکردی —\n"@ } else { Seq::<char>::empty() })
        + "\n💰 جمع کل: "@ + comma_separated(total as int) + " تومان\n\n"@
}

/// Whether the `i`-th menu item opens a new category.
pub open spec fn starts_category(menu: Seq<MenuItem>, i: int) -> bool {
    i == 0 || menu[i - 1].category_id != menu[i].category_id
}

/// The header row of a category.
pub open spec fn category_row(item: MenuItem) -> Seq<ButtonText> {
    seq![(category_icon(item.category_title@) + " "@ + item.category_title@, "noop"@)]
}

/// The label of a menu item: its title, how many are chosen (when any), and its price.
pub open spec fn item_label(item: MenuItem, q: i32) -> Seq<char> {
    if q > 0 {
        item.title@ + " × "@ + decimal_text(q as int) + " — "@ + comma_separated(item.price as int)
    } else {
        item.title@ + " — "@ + comma_separated(item.price as int)
    }
}

/// The data of a button acting on one menu item: `cart:<action>:<id>`.
pub open spec fn item_data(action: Seq<char>, id: u128) -> Seq<char> {
    "cart:"@ + action + ":"@ + uuid_hyphenated(id)
}

/// The `−`/`+` row of a menu item: `−` takes one away (a dead `-` when none is chosen), `+` adds one.
pub open spec fn control_row(item: MenuItem, q: i32) -> Seq<ButtonText> {
    seq![
        if q > 0 { ("➖"@, item_data("dec"@, item.id)) } else { ("-"@, "noop"@) },
        ("➕"@, item_data("inc"@, item.id)),
    ]
}

/// The rows of the `i`-th menu item: its category header when it opens a
/// category, its label, and its `−`/`+` controls.
pub open spec fn item_rows(menu: Seq<MenuItem>, items: Seq<CartItemView>, i: int) -> Seq<Seq<ButtonText>> {
    let item = menu[i];
    let q = quantity_or_zero(items, item.id);
    (if starts_category(menu, i) { seq![category_row(item)] } else { Seq::<Seq<ButtonText>>::empty() })
        + seq![seq![(item_label(item, q), "noop"@)], control_row(item, q)]
}

/// The rows of the first `n` menu items.
pub open spec fn menu_rows(menu: Seq<MenuItem>, items: Seq<CartItemView>, n: int) -> Seq<Seq<ButtonText>>
    decreases n,
{
    if n <= 0 {
        Seq::<Seq<ButtonText>>::empty()
    } else {
        menu_rows(menu, items, n - 1) + item_rows(menu, items, n - 1)
    }
}

/// The row that finishes or restarts a non-empty cart.
pub open spec fn checkout_row() -> Seq<ButtonText> {
    seq![("✅ تکمیل سفارش"@, "cart:complete"@), ("🔄 سفارش جدید"@, "cart:reset"@)]
}

/// The keyboard of an editable cart: the menu rows, then the checkout row
/// when the total is positive.
pub open spec fn cart_keyboard(menu: Seq<MenuItem>, items: Seq<CartItemView>, total: i64) -> Seq<Seq<ButtonText>> {
    menu_rows(menu, items, menu.len() as int)
        + (if total > 0 { seq![checkout_row()] } else { Seq::<Seq<ButtonText>>::empty() })
}

/// A button with a label and data.
fn button(text: String, data: String) -> (b: Button)
    ensures
        b.text@ == text@,
        b.data@ == data@,
{
    Button { text, data }
}

/// The text of a literal.
fn owned(s: &str) -> (r: String)
    ensures
        r@ == s@,
{
    String::from_str(s)
}

/// `a` followed by `b`.
fn joined(a: &str, b: &str) -> (r: String)
    ensures
        r@ == a@ + b@,
{
    let mut r = String::from_str(a);
    r.append(b);
    r
}

/// Pushing onto a vector of rows extends its view by the row's view.
proof fn lemma_rows_push(rows: Seq<Vec<Button>>, r: Vec<Button>)
    ensures
        rows_view(rows.push(r)) == rows_view(rows).push(row_view(r)),
{
    assert(rows_view(rows.push(r)) =~= rows_view(rows).push(row_view(r)));
}

/// The data `cart:<action>:<id>` of a button acting on a menu item.
fn item_data_text(action: &str, id: u128) -> (s: String)
    ensures
        s@ == item_data(action@, id),
{
    let mut s = String::from_str("cart:");
    s.append(action);
    s.append(":");
    let u = uuid_text(id);
    s.append(u.as_str());
    s
}

/// The rows of one menu item, appended to `rows`.
fn push_item_rows(rows: &mut Vec<Vec<Button>>, menu: &Vec<MenuItem>, items: &Vec<CartItemView>, i: usize)
    requires
        i < menu.len(),
    ensures
        rows_view(final(rows)@) == rows_view(old(rows)@) + item_rows(menu@, items@, i as int),
{
    let item = &menu[i];
    let ghost start = rows_view(rows@);
    let opens = i == 0 || menu[i - 1].category_id != item.category_id;
    if opens {
        let mut t = String::from_str(category_emoji(item.category_title.as_str()));
        t.append(" ");
        t.append(item.category_title.as_str());
        let mut r: Vec<Button> = Vec::new();
        r.push(button(t, owned("noop")));
        assert(row_view(r) =~= category_row(*item));
        proof { lemma_rows_push(rows@, r); }
        rows.push(r);
    }
    let ghost after_header = rows_view(rows@);
    assert(after_header == start + (if starts_category(menu@, i as int) { seq![category_row(*item)] } else { Seq::<Seq<ButtonText>>::empty() }));
    let q = match find_quantity(items, item.id) {
        Some(n) => n,
        None => 0,
    };
    let mut label = String::from_str(item.title.as_str());
    if q > 0 {
        label.append(" × ");
        let qt = i32_text(q);
        label.append(qt.as_str());
    }
    label.append(" — ");
    let pt = i64_with_commas(item.price);
    label.append(pt.as_str());
    let mut lr: Vec<Button> = Vec::new();
    lr.push(button(label, owned("noop")));
    assert(row_view(lr) =~= seq![(item_label(*item, q), "noop"@)]);
    proof { lemma_rows_push(rows@, lr); }
    rows.push(lr);
    let mut controls: Vec<Button> = Vec::new();
    if q > 0 {
        controls.push(button(owned("➖"), item_data_text("dec", item.id)));
    } else {
        controls.push(button(owned("-"), owned("noop")));
    }
    controls.push(button(owned("➕"), item_data_text("inc", item.id)));
    assert(row_view(controls) =~= control_row(*item, q));
    proof { lemma_rows_push(rows@, controls); }
    rows.push(controls);
    assert(rows_view(rows@) =~= rows_view(old(rows)@) + item_rows(menu@, items@, i as int));
}

/// The editable cart: its text and keyboard, from the cart's lines and total
/// and the menu in display order.
pub fn render_cart_view(view: &CartView, menu: &Vec<MenuItem>) -> (r: (String, InlineKeyboard))
    ensures
        r.0@ == cart_text(menu@, view.items@, view.total_price),
        rows_view(r.1.rows@) == cart_keyboard(menu@, view.items@, view.total_price),
{
    let mut text = String::from_str("🛒 سفارش شما:\n");
    let mut i: usize = 0;
    while i < menu.len()
        invariant
            i <= menu.len(),
            text@ == "🛒 سفارش شما:\n"@ + summary_lines(menu@, view.items@, i as int),
        decreases menu.len() - i,
    {
        let item = &menu[i];
        let q = find_quantity(&view.items, item.id);
        match q {
            Some(n) => {
                if n > 0 {
                    text.append("• ");
                    text.append(item.title.as_str());
                    text.append(" × ");
                    let nt = i32_text(n);
                    text.append(nt.as_str());
                    text.append("\n");
                }
            },
            None => {},
        }
        i = i + 1;
        assert(text@ =~= "🛒 سفارش شما:\n"@ + summary_lines(menu@, view.items@, i as int));
    }
    if view.total_price == 0 {
        text.append("— هنوز چیزی انتخاب نکردی —\n");
    }
    text.append("\n💰 جمع کل: ");
    let tt = i64_with_commas(view.total_price);
    text.append(tt.as_str());
    text.append(" تومان\n\n");
    assert(text@ =~= cart_text(menu@, view.items@, view.total_price));

    let mut rows: Vec<Vec<Button>> = Vec::new();
    let mut j: usize = 0;
    assert(rows_view(rows@) =~= menu_rows(menu@, view.items@, 0));
    while j < menu.len()
        invariant
            j <= menu.len(),
            rows_view(rows@) == menu_rows(menu@, view.items@, j as int),
        decreases menu.len() - j,
    {
        push_item_rows(&mut rows, menu, &view.items, j);
        j = j + 1;
    }
    if view.total_price > 0 {
        let mut last: Vec<Button> = Vec::new();
        last.push(button(owned("✅ تکمیل سفارش"), owned("cart:complete")));
        last.push(button(owned("🔄 سفارش جدید"), owned("cart:reset")));
        assert(row_view(last) =~= checkout_row());
        proof { lemma_rows_push(rows@, last); }
        rows.push(last);
    }
    assert(rows_view(rows@) =~= cart_keyboard(menu@, view.items@, view.total_price));
    (text, InlineKeyboard { rows })
}

/// Whether every line's total (price times quantity) fits in an `i64`.
pub open spec fn line_totals_fit(items: Seq<CartItemView>) -> bool {
    forall|i: int| 0 <= i < items.len() ==> i64::MIN <= #[trigger] items[i].price_snapshot * items[i].quantity <= i64::MAX
}

/// The summary line of a cart line: title, quantity and line total.
pub open spec fn confirming_line(item: CartItemView) -> Seq<char> {
    "• "@ + item.title@ + " × "@ + decimal_text(item.quantity as int) + " — "@
        + comma_separated(item.price_snapshot * item.quantity) + " تومان"@
}

/// The summary lines of the first `n` cart lines, one per line.
pub open spec fn confirming_lines(items: Seq<CartItemView>, n: int) -> Seq<char>
    decreases n,
{
    if n <= 0 {
        Seq::<char>::empty()
    } else if n == 1 {
        confirming_line(items[0])
    } else {
        confirming_lines(items, n - 1) + "\n"@ + confirming_line(items[n - 1])
    }
}

/// The read-only summary of a cart awaiting confirmation.
pub open spec fn confirming_text(items: Seq<CartItemView>, total: i64) -> Seq<char> {
    "🧾 *خلاصه سفارش شما:*\n\n"@ + confirming_lines(items, items.len() as int) + "\n\n───────────────\n💰 *جمع کل:* "@
        + comma_separated(total as int) + " تومان\n\n❓ آیا سفارش نهایی شود؟"@
}

/// The read-only summary of a cart awaiting confirmation.
pub fn render_confirming_view(view: &CartView) -> (text: String)
    requires
        line_totals_fit(view.items@),
    ensures
        text@ == confirming_text(view.items@, view.total_price),
{
    let mut lines = String::new();
    let mut i: usize = 0;
    while i < view.items.len()
        invariant
            i <= view.items.len(),
            line_totals_fit(view.items@),
            lines@ == confirming_lines(view.items@, i as int),
        decreases view.items.len() - i,
    {
        let item = &view.items[i];
        if i > 0 {
            lines.append("\n");
        }
        lines.append("• ");
        lines.append(item.title.as_str());
        lines.append(" × ");
        let qt = i32_text(item.quantity);
        lines.append(qt.as_str());
        lines.append(" — ");
        assert(i64::MIN <= view.items@[i as int].price_snapshot * view.items@[i as int].quantity <= i64::MAX);
        let line_total = item.price_snapshot * (item.quantity as i64);
        let lt = i64_with_commas(line_total);
        lines.append(lt.as_str());
        lines.append(" تومان");
        i = i + 1;
        assert(lines@ =~= confirming_lines(view.items@, i as int));
    }
    let mut text = String::from_str("🧾 *خلاصه سفارش شما:*\n\n");
    text.append(lines.as_str());
    text.append("\n\n───────────────\n💰 *جمع کل:* ");
    let tt = i64_with_commas(view.total_price);
    text.append(tt.as_str());
    text.append(" تومان\n\n❓ آیا سفارش نهایی شود؟");
    text
}

/// The keyboard under a cart awaiting confirmation: edit it, or confirm it.
pub open spec fn confirming_rows() -> Seq<Seq<ButtonText>> {
    seq![seq![("✏️ ویرایش سفارش"@, "cart:edit"@), ("✅ تأیید نهایی"@, "cart:confirm"@)]]
}

/// The keyboard under a cart awaiting confirmation.
pub fn confirming_keyboard() -> (k: InlineKeyboard)
    ensures
        rows_view(k.rows@) == confirming_rows(),
{
    let mut row: Vec<Button> = Vec::new();
    row.push(button(owned("✏️ ویرایش سفارش"), owned("cart:edit")));
    row.push(button(owned("✅ تأیید نهایی"), owned("cart:confirm")));
    assert(row_view(row) =~= confirming_rows()[0]);
    let mut rows: Vec<Vec<Button>> = Vec::new();
    proof { lemma_rows_push(rows@, row); }
    rows.push(row);
    assert(rows_view(rows@) =~= confirming_rows());
    InlineKeyboard { rows }
}

/// An active cart as shown: its editable text and keyboard.
pub fn active_render(view: &CartView, menu: &Vec<MenuItem>) -> (r: CartRenderResult)
    ensures
        r matches CartRenderResult::Active { text, keyboard }
            && text@ == cart_text(menu@, view.items@, view.total_price)
            && rows_view(keyboard.rows@) == cart_keyboard(menu@, view.items@, view.total_price),
{
    let (text, keyboard) = render_cart_view(view, menu);
    CartRenderResult::Active { text, keyboard }
}

/// A confirming cart as shown: its summary and the confirmation keyboard.
pub fn confirming_render(view: &CartView) -> (r: CartRenderResult)
    requires
        line_totals_fit(view.items@),
    ensures
        r matches CartRenderResult::Confirming { text, keyboard }
            && text@ == confirming_text(view.items@, view.total_price)
            && rows_view(keyboard.rows@) == confirming_rows(),
{
    CartRenderResult::Confirming { text: render_confirming_view(view), keyboard: confirming_keyboard() }
}

/// The message that replaces the cart once the order is placed, with its code.
pub open spec fn order_placed_text(order_code: Seq<char>) -> Seq<char> {
    "✅ سفارش شما ثبت شد\n\n🧾 کد سفارش: "@ + order_code
}

/// The message that replaces the cart once the order is placed.
pub fn order_placed_message(order_code: &str) -> (t: String)
    ensures
        t@ == order_placed_text(order_code@),
{
    joined("✅ سفارش شما ثبت شد\n\n🧾 کد سفارش: ", order_code)
}

/// The summary lines of the first `n` menu items begin with those of the first `i`.
proof fn lemma_summary_lines_extend(menu: Seq<MenuItem>, items: Seq<CartItemView>, i: int, n: int) -> (rest: Seq<char>)
    requires
        0 <= i <= n,
    ensures
        summary_lines(menu, items, n) == summary_lines(menu, items, i) + rest,
    decreases n - i,
{
    if n == i {
        assert(summary_lines(menu, items, n) =~= summary_lines(menu, items, i) + Seq::<char>::empty());
        Seq::<char>::empty()
    } else {
        let r = lemma_summary_lines_extend(menu, items, i, n - 1);
        let line = summary_line(menu[n - 1], cart_quantity(items, menu[n - 1].id));
        assert(summary_lines(menu, items, n) =~= summary_lines(menu, items, i) + (r + line));
        r + line
    }
}

/// Every dish the cart holds at least one of is listed in the cart text as
/// `• <title> × <quantity>` on a line of its own, whatever its quantity.
pub proof fn lemma_cart_text_lists_chosen_dishes(
    menu: Seq<MenuItem>,
    items: Seq<CartItemView>,
    total: i64,
    i: int,
    q: i32,
)
    requires
        0 <= i < menu.len(),
        cart_quantity(items, menu[i].id) == Some(q),
        q > 0,
    ensures
        contains_text(
            cart_text(menu, items, total),
            "• "@ + menu[i].title@ + " × "@ + decimal_text(q as int) + "\n"@,
        ),
{
    let pat = "• "@ + menu[i].title@ + " × "@ + decimal_text(q as int) + "\n"@;
    let rest = lemma_summary_lines_extend(menu, items, i + 1, menu.len() as int);
    let head = "🛒 سفارش شما:\n"@ + summary_lines(menu, items, i);
    let tail = rest + (if total == 0 { "— هنوز چیزی انتخاب نکردی —\n"@ } else { Seq::<char>::empty() })
        + "\n💰 جمع کل: "@ + comma_separated(total as int) + " تومان\n\n"@;
    assert(summary_line(menu[i], cart_quantity(items, menu[i].id)) == pat);
    let t = cart_text(menu, items, total);
    assert(t =~= head + pat + tail);
    let k = head.len() as int;
    assert(t.subrange(k, k + pat.len()) =~= pat);
}

/// The total closes the cart text: `💰 جمع کل: <total with grouped digits> تومان`.
pub proof fn lemma_cart_text_ends_with_total(menu: Seq<MenuItem>, items: Seq<CartItemView>, total: i64)
    ensures
        ({
            let t = cart_text(menu, items, total);
            let tail = "\n💰 جمع کل: "@ + comma_separated(total as int) + " تومان\n\n"@;
            tail.len() <= t.len() && t.skip(t.len() - tail.len()) == tail
        }),
{
    let t = cart_text(menu, items, total);
    let tail = "\n💰 جمع کل: "@ + comma_separated(total as int) + " تومان\n\n"@;
    let head = "🛒 سفارش شما:\n"@ + summary_lines(menu, items, menu.len() as int)
        + (if total == 0 { "— هنوز چیزی انتخاب نکردی —\n"@ } else { Seq::<char>::empty() });
    assert(t =~= head + tail);
    assert(t.skip(t.len() - tail.len()) =~= tail);
}

/// The rows of the first `n` menu items begin with those of the first `i`.
proof fn lemma_menu_rows_extend(menu: Seq<MenuItem>, items: Seq<CartItemView>, i: int, n: int) -> (rest: Seq<Seq<ButtonText>>)
    requires
        0 <= i <= n,
    ensures
        menu_rows(menu, items, n) == menu_rows(menu, items, i) + rest,
    decreases n - i,
{
    if n == i {
        assert(menu_rows(menu, items, n) =~= menu_rows(menu, items, i) + Seq::<Seq<ButtonText>>::empty());
        Seq::<Seq<ButtonText>>::empty()
    } else {
        let r = lemma_menu_rows_extend(menu, items, i, n - 1);
        assert(menu_rows(menu, items, n) =~= menu_rows(menu, items, i) + (r + item_rows(menu, items, n - 1)));
        r + item_rows(menu, items, n - 1)
    }
}

/// Every dish of the menu gets a row of two buttons: `➖`, which takes one
/// of that dish away (a dead `-` when none is chosen), and `➕`, which adds one.
pub proof fn lemma_keyboard_has_dish_controls(menu: Seq<MenuItem>, items: Seq<CartItemView>, total: i64, i: int)
    requires
        0 <= i < menu.len(),
    ensures
        ({
            let id = menu[i].id;
            let q = match cart_quantity(items, id) { Some(n) => n, None => 0i32 };
            let minus = if q > 0 { ("➖"@, "cart:dec:"@ + uuid_hyphenated(id)) } else { ("-"@, "noop"@) };
            cart_keyboard(menu, items, total).contains(seq![minus, ("➕"@, "cart:inc:"@ + uuid_hyphenated(id))])
        }),
{
    reveal_strlit("cart:");
    reveal_strlit(":");
    reveal_strlit("dec");
    reveal_strlit("inc");
    reveal_strlit("cart:dec:");
    reveal_strlit("cart:inc:");
    let id = menu[i].id;
    let rest = lemma_menu_rows_extend(menu, items, i + 1, menu.len() as int);
    let before = menu_rows(menu, items, i);
    let mine = item_rows(menu, items, i);
    let kb = cart_keyboard(menu, items, total);
    let q = quantity_or_zero(items, id);
    assert("cart:"@ + "dec"@ + ":"@ =~= "cart:dec:"@);
    assert("cart:"@ + "inc"@ + ":"@ =~= "cart:inc:"@);
    assert(item_data("dec"@, id) =~= "cart:dec:"@ + uuid_hyphenated(id));
    assert(item_data("inc"@, id) =~= "cart:inc:"@ + uuid_hyphenated(id));
    let row = control_row(menu[i], q);
    assert(mine[mine.len() - 1] == row);
    let extra = if total > 0 { seq![checkout_row()] } else { Seq::<Seq<ButtonText>>::empty() };
    assert(kb =~= before + mine + rest + extra);
    let r = before.len() + mine.len() - 1;
    assert(kb[r] == row);
}

/// The confirmation summary lists every cart line as
/// `• <title> × <quantity> — <price × quantity, digits grouped> تومان`.
pub proof fn lemma_confirming_text_lists_lines(items: Seq<CartItemView>, total: i64, i: int)
    requires
        0 <= i < items.len(),
    ensures
        contains_text(
            confirming_text(items, total),
            "• "@ + items[i].title@ + " × "@ + decimal_text(items[i].quantity as int) + " — "@
                + comma_separated(items[i].price_snapshot * items[i].quantity) + " تومان"@,
        ),
{
    let pat = "• "@ + items[i].title@ + " × "@ + decimal_text(items[i].quantity as int) + " — "@
        + comma_separated(items[i].price_snapshot * items[i].quantity) + " تومان"@;
    assert(confirming_line(items[i]) == pat);
    let pre: Seq<char> = if i == 0 { Seq::<char>::empty() } else { confirming_lines(items, i) + "\n"@ };
    assert(confirming_lines(items, i + 1) =~= pre + pat);
    let rest = lemma_confirming_lines_extend(items, i + 1, items.len() as int);
    let head = "🧾 *خلاصه سفارش شما:*\n\n"@ + pre;
    let tail = rest + "\n\n───────────────\n💰 *جمع کل:* "@ + comma_separated(total as int)
        + " تومان\n\n❓ آیا سفارش نهایی شود؟"@;
    let t = confirming_text(items, total);
    assert(t =~= head + pat + tail);
    let k = head.len() as int;
    assert(t.subrange(k, k + pat.len()) =~= pat);
}

/// The summary lines of the first `n` cart lines begin with those of the first `i` (`i >= 1`).
proof fn lemma_confirming_lines_extend(items: Seq<CartItemView>, i: int, n: int) -> (rest: Seq<char>)
    requires
        1 <= i <= n,
    ensures
        confirming_lines(items, n) == confirming_lines(items, i) + rest,
    decreases n - i,
{
    if n == i {
        assert(confirming_lines(items, n) =~= confirming_lines(items, i) + Seq::<char>::empty());
        Seq::<char>::empty()
    } else {
        let r = lemma_confirming_lines_extend(items, i, n - 1);
        let add = "\n"@ + confirming_line(items[n - 1]);
        assert(confirming_lines(items, n) =~= confirming_lines(items, i) + (r + add));
        r + add
    }
}

} // verus!
