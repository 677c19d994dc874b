use fastorder::bot::callback_data::{split_parts, CallbackData};
use fastorder::bot::cart_action::{
    action_from_callback, parse_action, plan_action, route_callback, ActionPlan, CartAction, CartCommand,
    FollowUp, PayloadError,
};
use fastorder::bot::flows::{callback_press, cart_action_press, edit_done, render_step, EditOutcome, Press, RenderStep};
use fastorder::cart::service::CartState;
use fastorder::ids::uuid_text;

const ITEM: u128 = 0x67e5504410b1426f9247bb680e5fe0c8;

#[test]
fn callback_data_splits_feature_action_payload() {
    let cb = CallbackData::parse("cart:inc:abc:def").unwrap();
    assert_eq!(cb.feature, "cart");
    assert_eq!(cb.action, "inc");
    assert_eq!(cb.payload, vec!["abc".to_string(), "def".to_string()]);
}

#[test]
fn callback_data_without_action_is_refused() {
    assert!(CallbackData::parse("noop").is_none());
    assert!(CallbackData::parse("").is_none());
    let cb = CallbackData::parse("cart:").unwrap();
    assert_eq!(cb.feature, "cart");
    assert_eq!(cb.action, "");
    assert!(cb.payload.is_empty());
}

#[test]
fn splitting_keeps_empty_parts() {
    assert_eq!(split_parts("a::b:"), vec!["a", "", "b", ""]);
    assert_eq!(split_parts(""), vec![""]);
}

#[test]
fn item_buttons_read_back_as_their_actions() {
    let id = uuid_text(ITEM);
    assert_eq!(parse_action(&format!("cart:inc:{}", id)), CartAction::Inc(ITEM));
    assert_eq!(parse_action(&format!("cart:dec:{}", id)), CartAction::Dec(ITEM));
}

#[test]
fn fixed_buttons_read_back_as_their_actions() {
    assert_eq!(parse_action("cart:complete"), CartAction::Complete);
    assert_eq!(parse_action("cart:reset"), CartAction::Reset);
    assert_eq!(parse_action("cart:edit"), CartAction::Edit);
    assert_eq!(parse_action("cart:confirm"), CartAction::Confirm);
}

#[test]
fn unreadable_buttons_do_nothing() {
    assert_eq!(parse_action("noop"), CartAction::Noop);
    assert_eq!(parse_action("menu:inc:x"), CartAction::Noop);
    assert_eq!(parse_action("cart:inc"), CartAction::Noop);
    assert_eq!(parse_action("cart:inc:not-a-uuid"), CartAction::Noop);
    assert_eq!(parse_action("cart:fly"), CartAction::Noop);
    assert_eq!(parse_action("cart"), CartAction::Noop);
}

#[test]
fn callback_actions_need_a_readable_item() {
    let id = uuid_text(ITEM);
    let cb = CallbackData::parse(&format!("cart:dec:{}", id)).unwrap();
    assert_eq!(action_from_callback(&cb), Ok(CartAction::Dec(ITEM)));
    let cb = CallbackData::parse("cart:inc").unwrap();
    assert_eq!(action_from_callback(&cb), Err(PayloadError::InvalidItemId));
    let cb = CallbackData::parse("cart:dec:zzz").unwrap();
    assert_eq!(action_from_callback(&cb), Err(PayloadError::InvalidItemId));
    assert_eq!(PayloadError::InvalidItemId.message(), "invalid uuid in callback payload");
    let cb = CallbackData::parse("cart:confirm").unwrap();
    assert_eq!(action_from_callback(&cb), Ok(CartAction::Confirm));
    let cb = CallbackData::parse("cart:whatever:1").unwrap();
    assert_eq!(action_from_callback(&cb), Ok(CartAction::Noop));
}

#[test]
fn only_cart_data_is_routed() {
    assert!(route_callback(None).is_none());
    assert!(route_callback(Some("noop")).is_none());
    assert!(route_callback(Some("menu:open")).is_none());
    let cb = route_callback(Some("cart:reset")).unwrap();
    assert_eq!(cb.feature, "cart");
    assert_eq!(cb.action, "reset");
}

#[test]
fn plans_follow_the_cart_state() {
    let active = CartState::Active(5);
    let confirming = CartState::Confirming(6);
    assert_eq!(plan_action(CartAction::Inc(9), active), ActionPlan::Run(CartCommand::IncItem { cart_id: 5, item_id: 9 }));
    assert_eq!(plan_action(CartAction::Dec(9), active), ActionPlan::Run(CartCommand::DecItem { cart_id: 5, item_id: 9 }));
    assert_eq!(plan_action(CartAction::Reset, active), ActionPlan::Run(CartCommand::Reset { cart_id: 5 }));
    assert_eq!(plan_action(CartAction::Complete, active), ActionPlan::Run(CartCommand::MarkConfirming { cart_id: 5 }));
    assert_eq!(plan_action(CartAction::Edit, confirming), ActionPlan::Run(CartCommand::MarkActive { cart_id: 6 }));
    assert_eq!(plan_action(CartAction::Confirm, confirming), ActionPlan::Run(CartCommand::PlaceOrder { cart_id: 6 }));
    assert_eq!(plan_action(CartAction::Noop, active), ActionPlan::Ignore);
}

#[test]
fn wrong_state_presses_are_refused() {
    assert_eq!(plan_action(CartAction::Inc(1), CartState::Confirming(6)), ActionPlan::WrongState);
    assert_eq!(plan_action(CartAction::Confirm, CartState::Active(5)), ActionPlan::WrongState);
    assert_eq!(plan_action(CartAction::Edit, CartState::Active(5)), ActionPlan::WrongState);
    assert_eq!(plan_action(CartAction::Reset, CartState::New), ActionPlan::WrongState);
}

#[test]
fn commands_show_their_follow_up() {
    assert_eq!(CartCommand::IncItem { cart_id: 1, item_id: 2 }.follow_up(), FollowUp::RefreshCart);
    assert_eq!(CartCommand::MarkActive { cart_id: 1 }.follow_up(), FollowUp::RefreshCart);
    assert_eq!(CartCommand::MarkConfirming { cart_id: 1 }.follow_up(), FollowUp::ShowConfirming { cart_id: 1 });
    assert_eq!(CartCommand::PlaceOrder { cart_id: 1 }.follow_up(), FollowUp::ShowOrderPlaced);
}

#[test]
fn presses_are_answered() {
    let run = ActionPlan::Run(CartCommand::Reset { cart_id: 3 });
    assert_eq!(callback_press(ActionPlan::Ignore), Press::Acknowledge);
    assert_eq!(callback_press(ActionPlan::WrongState), Press::Drop);
    assert_eq!(callback_press(run), Press::Run(CartCommand::Reset { cart_id: 3 }));
    assert_eq!(cart_action_press(ActionPlan::Ignore), Press::Acknowledge);
    assert_eq!(cart_action_press(ActionPlan::WrongState), Press::Acknowledge);
    assert_eq!(cart_action_press(run), Press::Run(CartCommand::Reset { cart_id: 3 }));
}

#[test]
fn unchanged_message_counts_as_edited() {
    assert!(edit_done(EditOutcome::Edited));
    assert!(edit_done(EditOutcome::NotModified));
    assert!(!edit_done(EditOutcome::Failed));
}

#[test]
fn cart_is_shown_by_its_state() {
    assert_eq!(render_step(CartState::Active(4), 8), RenderStep::ShowActive { cart_id: 4 });
    assert_eq!(render_step(CartState::Confirming(4), 8), RenderStep::ShowConfirming { cart_id: 4 });
    assert_eq!(render_step(CartState::New, 8), RenderStep::OpenAndShow { user_id: 8 });
}

#[test]
fn shown_buttons_drive_the_cart() {
    let id = uuid_text(ITEM);
    let active = CartState::Active(5);
    let confirming = CartState::Confirming(5);
    assert_eq!(
        plan_action(parse_action(&format!("cart:inc:{}", id)), active),
        ActionPlan::Run(CartCommand::IncItem { cart_id: 5, item_id: ITEM })
    );
    assert_eq!(
        plan_action(parse_action(&format!("cart:dec:{}", id)), active),
        ActionPlan::Run(CartCommand::DecItem { cart_id: 5, item_id: ITEM })
    );
    assert_eq!(plan_action(parse_action("cart:complete"), active), ActionPlan::Run(CartCommand::MarkConfirming { cart_id: 5 }));
    assert_eq!(plan_action(parse_action("cart:reset"), active), ActionPlan::Run(CartCommand::Reset { cart_id: 5 }));
    assert_eq!(plan_action(parse_action("cart:edit"), confirming), ActionPlan::Run(CartCommand::MarkActive { cart_id: 5 }));
    assert_eq!(plan_action(parse_action("cart:confirm"), confirming), ActionPlan::Run(CartCommand::PlaceOrder { cart_id: 5 }));
}
