//! The bot's conversation decisions: greeting, phone verification, opening
//! the menu, showing a cart, and answering button presses.

use vstd::prelude::*;
use vstd::string::*;
use crate::bot::cart_action::ActionPlan;
use crate::bot::cart_action::CartCommand;
use crate::bot::views::{CartRenderResult, InlineKeyboard};
use crate::cart::service::CartState;
use crate::users::error::AuthError;
use crate::users::phone::{normalize_phone, normalized_phone};
use crate::users::types::User;
use crate::text::str_equal;

verus! {

/// The one-button keyboard that asks the customer to share their phone number.
#[derive(Debug)]
pub struct ContactKeyboard {
    pub button_text: String,
    pub placeholder: String,
}

/// How a reply is decorated.
#[derive(Debug)]
pub enum ReplyMarkup {
    /// No keyboard change.
    Plain,
    /// Buttons under the message.
    Inline(InlineKeyboard),
    /// The keyboard that shares the phone number.
    RequestPhone(ContactKeyboard),
    /// Remove the custom keyboard.
    RemoveKeyboard,
}

/// A message the bot sends.
#[derive(Debug)]
pub struct Reply {
    pub text: String,
    pub markup: ReplyMarkup,
}

/// The greeting sent on `/start`.
pub open spec fn welcome_text() -> Seq<char> {
    "👋 خوش اومدی به FastOrder!\nسفارش سریع، بدون تماس تلفنی."@
}

/// The keyboard that asks the customer to share their phone number.
pub fn request_phone_keyboard() -> (k: ContactKeyboard)
    ensures
        k.button_text@ == "📱 ارسال شماره تلفن"@,
        k.placeholder@ == "ارسال شماره تلفن"@,
{
    ContactKeyboard {
        button_text: String::from_str("📱 ارسال شماره تلفن"),
        placeholder: String::from_str("ارسال شماره تلفن"),
    }
}

/// A reply with plain text.
fn plain(text: &str) -> (r: Reply)
    ensures
        r.text@ == text@,
        r.markup is Plain,
{
    Reply { text: String::from_str(text), markup: ReplyMarkup::Plain }
}

/// A reply that also removes the custom keyboard.
fn removing(text: String) -> (r: Reply)
    ensures
        r.text@ == text@,
        r.markup is RemoveKeyboard,
{
    Reply { text, markup: ReplyMarkup::RemoveKeyboard }
}

/// The greeting sent on `/start`.
pub fn welcome_message() -> (r: Reply)
    ensures
        r.text@ == welcome_text(),
        r.markup is Plain,
{
    plain("👋 خوش اومدی به FastOrder!\nسفارش سریع، بدون تماس تلفنی.")
}

/// What the `/start` conversation does after the verified-customer check.
#[derive(Debug)]
pub enum StartStep {
    /// A verified customer: fetch their account, then call [`start_after_fetch`].
    FetchUser,
    /// Send this and stop.
    Say(Reply),
}

/// After checking whether the sender is a verified customer: a customer's
/// account is fetched, anyone else is asked for their phone number, and a
/// failed check is reported.
pub fn start_after_check(verified: Result<bool, AuthError>) -> (step: StartStep)
    ensures
        match verified {
            Ok(true) => step is FetchUser,
            Ok(false) => step matches StartStep::Say(r) && r.text@ == "برای استفاده از سرویس، لطفاً شماره تلفن خودت رو ارسال کن 👇"@
                && (r.markup matches ReplyMarkup::RequestPhone(k) && k.button_text@ == "📱 ارسال شماره تلفن"@
                && k.placeholder@ == "ارسال شماره تلفن"@),
            Err(_) => step matches StartStep::Say(r) && r.text@ == "❌ خطایی رخ داد"@ && r.markup is Plain,
        },
{
    match verified {
        Ok(true) => StartStep::FetchUser,
        Ok(false) => StartStep::Say(Reply {
            text: String::from_str("برای استفاده از سرویس، لطفاً شماره تلفن خودت رو ارسال کن 👇"),
            markup: ReplyMarkup::RequestPhone(request_phone_keyboard()),
        }),
        Err(_) => StartStep::Say(plain("❌ خطایی رخ داد")),
    }
}

/// Either the customer enters the menu, or the bot says something and stops.
#[derive(Debug)]
pub enum Entry {
    /// Show the menu and this customer's cart.
    EnterMenu { user_id: u128 },
    /// Send this and stop.
    Say(Reply),
}

/// After fetching a verified customer's account on `/start`.
pub fn start_after_fetch(user: Result<User, AuthError>) -> (e: Entry)
    ensures
        match user {
            Ok(u) => e == (Entry::EnterMenu { user_id: u.id }),
            Err(_) => e matches Entry::Say(r) && r.text@ == "❌ خطایی رخ داد"@ && r.markup is Plain,
        },
{
    match user {
        Ok(u) => Entry::EnterMenu { user_id: u.id },
        Err(_) => Entry::Say(plain("❌ خطایی رخ داد")),
    }
}

/// The shared phone number in canonical form, or the reply refusing it.
pub fn contact_phone(raw: &str) -> (r: Result<String, Reply>)
    ensures
        match r {
            Ok(p) => normalized_phone(raw@) == Some(p@),
            Err(reply) => normalized_phone(raw@) is None && reply.text@ == "❌ شماره تلفن نامعتبر است"@
                && reply.markup is Plain,
        },
{
    match normalize_phone(raw) {
        Some(p) => Ok(p),
        None => Err(plain("❌ شماره تلفن نامعتبر است")),
    }
}

/// The greeting of a newly verified customer: `<name>  عزیز خوش آمدی`.
pub open spec fn greeting_text(full_name: Option<String>) -> Seq<char> {
    (match full_name {
        Some(n) => n@,
        None => Seq::<char>::empty(),
    }) + " عزیز خوش آمدی"@
}

/// What happens after verifying a shared contact.
#[derive(Debug)]
pub enum ContactOutcome {
    /// Greet the customer with this (removing the phone keyboard), then show the menu.
    Welcome { reply: Reply, user_id: u128 },
    /// Send this and stop.
    Say(Reply),
}

/// After verifying a shared contact: a verified customer is greeted by name
/// and enters the menu; an unregistered number is told to call the
/// restaurant; any other failure is reported.
pub fn contact_after_verify(verified: Result<User, AuthError>) -> (o: ContactOutcome)
    ensures
        match verified {
            Ok(u) => o matches ContactOutcome::Welcome { reply, user_id } && user_id == u.id
                && reply.text@ == greeting_text(u.full_name) && reply.markup is RemoveKeyboard,
            Err(AuthError::PhoneNotRegistered) => o matches ContactOutcome::Say(r)
                && r.text@ == "❌ شماره شما در سیستم ثبت نشده است.\nلطفاً با رستوران تماس بگیرید."@ && r.markup is RemoveKeyboard,
            Err(_) => o matches ContactOutcome::Say(r) && r.text@ == "❌ خطا در احراز هویت"@ && r.markup is Plain,
        },
{
    match verified {
        Ok(u) => {
            let mut text = match &u.full_name {
                Some(n) => n.clone(),
                None => String::new(),
            };
            text.append(" عزیز خوش آمدی");
            ContactOutcome::Welcome { reply: removing(text), user_id: u.id }
        },
        Err(AuthError::PhoneNotRegistered) => ContactOutcome::Say(removing(String::from_str("❌ شماره شما در سیستم ثبت نشده است.\nلطفاً با رستوران تماس بگیرید."))),
        Err(_) => ContactOutcome::Say(plain("❌ خطا در احراز هویت")),
    }
}

/// The text of the reply-keyboard button that starts a new order.
pub open spec fn new_order_button_text() -> Seq<char> {
    "🛒 سفارش جدید"@
}

/// Whether a text message asks for a new order.
pub fn is_new_order_request(text: Option<&str>) -> (r: bool)
    ensures
        r == (text matches Some(t) && t@ == new_order_button_text()),
{
    match text {
        Some(t) => str_equal(t, "🛒 سفارش جدید"),
        None => false,
    }
}

/// After authenticating the sender of a new-order request: a verified
/// customer enters the menu, anyone else is told to authenticate first.
pub fn new_order_after_auth(user: Result<User, AuthError>) -> (e: Entry)
    ensures
        match user {
            Ok(u) => e == (Entry::EnterMenu { user_id: u.id }),
            Err(_) => e matches Entry::Say(r) && r.text@ == "❌ ابتدا باید احراز هویت شوید"@ && r.markup is Plain,
        },
{
    match user {
        Ok(u) => Entry::EnterMenu { user_id: u.id },
        Err(_) => Entry::Say(plain("❌ ابتدا باید احراز هویت شوید")),
    }
}

/// The instructions sent before the menu; they remove the custom keyboard.
pub fn menu_intro() -> (r: Reply)
    ensures
        r.text@ == "👇 منو اینجاست\nبا دکمه‌های + و − انتخاب کن\nسفارشت بالا، به‌صورت لحظه‌ای نشون داده می‌شه\nوقتی تموم شدی، روی «✅ تکمیل سفارش» بزن"@,
        r.markup is RemoveKeyboard,
{
    removing(String::from_str("👇 منو اینجاست\nبا دکمه‌های + و − انتخاب کن\nسفارشت بالا، به‌صورت لحظه‌ای نشون داده می‌شه\nوقتی تموم شدی، روی «✅ تکمیل سفارش» بزن"))
}

/// The message that shows a cart, or reports that it could not be shown.
pub fn cart_message(render: Option<CartRenderResult>) -> (r: Reply)
    ensures
        match render {
            Some(CartRenderResult::Active { text, keyboard }) => r.text@ == text@
                && r.markup == ReplyMarkup::Inline(keyboard),
            Some(CartRenderResult::Confirming { text, keyboard }) => r.text@ == text@
                && r.markup == ReplyMarkup::Inline(keyboard),
            None => r.text@ == "❌ خطا در نمایش سبد خرید"@ && r.markup is Plain,
        },
{
    match render {
        Some(CartRenderResult::Active { text, keyboard }) => Reply { text, markup: ReplyMarkup::Inline(keyboard) },
        Some(CartRenderResult::Confirming { text, keyboard }) => Reply { text, markup: ReplyMarkup::Inline(keyboard) },
        None => plain("❌ خطا در نمایش سبد خرید"),
    }
}

/// How a customer's cart is shown, by its state.
#[derive(Debug, Clone, Copy, PartialEq, Eq, Structural)]
pub enum RenderStep {
    /// Show this active cart, editable.
    ShowActive { cart_id: u128 },
    /// Show this cart's summary with the confirmation keyboard.
    ShowConfirming { cart_id: u128 },
    /// Open an active cart for this user, then show it editable.
    OpenAndShow { user_id: u128 },
}

/// Decides how to show a customer's cart: an active cart editable, a
/// confirming one as a summary, and with neither a new active cart is opened.
pub fn render_step(state: CartState, user_id: u128) -> (s: RenderStep)
    ensures
        s == match state {
            CartState::Active(cart_id) => RenderStep::ShowActive { cart_id },
            CartState::Confirming(cart_id) => RenderStep::ShowConfirming { cart_id },
            CartState::New => RenderStep::OpenAndShow { user_id },
        },
{
    match state {
        CartState::Active(cart_id) => RenderStep::ShowActive { cart_id },
        CartState::Confirming(cart_id) => RenderStep::ShowConfirming { cart_id },
        CartState::New => RenderStep::OpenAndShow { user_id },
    }
}

/// What editing a message in place came to.
#[derive(Debug, Clone, Copy, PartialEq, Eq, Structural)]
pub enum EditOutcome {
    Edited,
    /// The message already showed this content.
    NotModified,
    Failed,
}

/// Whether editing a message counts as done: a message that already showed
/// the content is as good as edited.
pub fn edit_done(o: EditOutcome) -> (r: bool)
    ensures
        r == !(o is Failed),
{
    match o {
        EditOutcome::Failed => false,
        _ => true,
    }
}

/// How a button press is answered.
#[derive(Debug, Clone, Copy, PartialEq, Eq, Structural)]
pub enum Press {
    /// Acknowledge the press and stop.
    Acknowledge,
    /// Stop without acknowledging the press.
    Drop,
    /// Run the command, show its follow-up, then acknowledge the press.
    Run(CartCommand),
}

/// The answer to a press in the button-data handler: a button that does
/// nothing is acknowledged, one that does not fit the cart's state is dropped
/// unacknowledged.
pub fn callback_press(plan: ActionPlan) -> (p: Press)
    ensures
        p == match plan {
            ActionPlan::Ignore => Press::Acknowledge,
            ActionPlan::WrongState => Press::Drop,
            ActionPlan::Run(c) => Press::Run(c),
        },
{
    match plan {
        ActionPlan::Ignore => Press::Acknowledge,
        ActionPlan::WrongState => Press::Drop,
        ActionPlan::Run(c) => Press::Run(c),
    }
}

/// The answer to a press in the raw-data cart handler: presses that do nothing
/// or do not fit the cart's state are acknowledged.
pub fn cart_action_press(plan: ActionPlan) -> (p: Press)
    ensures
        p == match plan {
            ActionPlan::Run(c) => Press::Run(c),
            _ => Press::Acknowledge,
        },
{
    match plan {
        ActionPlan::Run(c) => Press::Run(c),
        _ => Press::Acknowledge,
    }
}

} // verus!
