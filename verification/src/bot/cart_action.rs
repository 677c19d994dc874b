//! What a cart button asks for, and which cart command it runs in which cart state.

use vstd::prelude::*;
use crate::bot::callback_data::{split_colon, split_parts, colon_free, join_colon, lemma_split_join_colon,
    lemma_split_colon_nonempty, CallbackData, string_views};
use crate::bot::views::item_data;
use crate::cart::service::CartState;
use crate::ids::{parse_uuid, uuid_hyphenated, uuid_parse_result, lemma_uuid_text_has_no_colon};
use crate::text::str_equal;

verus! {

/// What a cart button asks for.
#[derive(Debug, Clone, Copy, PartialEq, Eq, Structural)]
pub enum CartAction {
    Noop,
    Inc(u128),
    Dec(u128),
    Reset,
    Complete,
    Edit,
    Confirm,
}

/// The action named `name`, with the menu item it acts on when one was read;
/// `inc`/`dec` without a readable item, and unknown names, do nothing.
pub open spec fn action_named(name: Seq<char>, item: Option<u128>) -> CartAction {
    if name == "inc"@ {
        match item {
            Some(id) => CartAction::Inc(id),
            None => CartAction::Noop,
        }
    } else if name == "dec"@ {
        match item {
            Some(id) => CartAction::Dec(id),
            None => CartAction::Noop,
        }
    } else if name == "reset"@ {
        CartAction::Reset
    } else if name == "complete"@ {
        CartAction::Complete
    } else if name == "edit"@ {
        CartAction::Edit
    } else if name == "confirm"@ {
        CartAction::Confirm
    } else {
        CartAction::Noop
    }
}

/// The action button data `cart:<action>[:<item id>...]` asks for; data of
/// any other feature does nothing.
pub open spec fn cart_action_of(data: Seq<char>) -> CartAction {
    let parts = split_colon(data);
    if parts[0] != "cart"@ {
        CartAction::Noop
    } else {
        action_named(
            if parts.len() >= 2 { parts[1] } else { Seq::<char>::empty() },
            if parts.len() >= 3 { uuid_parse_result(parts[2]) } else { None },
        )
    }
}

/// Decides which action the action name asks for, given the item read from the data.
fn named_action(name: &str, item: Option<u128>) -> (a: CartAction)
    ensures
        a == action_named(name@, item),
{
    if str_equal(name, "inc") {
        match item {
            Some(id) => CartAction::Inc(id),
            None => CartAction::Noop,
        }
    } else if str_equal(name, "dec") {
        match item {
            Some(id) => CartAction::Dec(id),
            None => CartAction::Noop,
        }
    } else if str_equal(name, "reset") {
        CartAction::Reset
    } else if str_equal(name, "complete") {
        CartAction::Complete
    } else if str_equal(name, "edit") {
        CartAction::Edit
    } else if str_equal(name, "confirm") {
        CartAction::Confirm
    } else {
        CartAction::Noop
    }
}

/// Reads a cart button's data.
pub fn parse_action(data: &str) -> (a: CartAction)
    ensures
        a == cart_action_of(data@),
{
    let parts = split_parts(data);
    let ghost ps = split_colon(data@);
    proof { lemma_split_colon_nonempty(data@); }
    assert(parts@[0]@ == ps[0]);
    if !str_equal(parts[0].as_str(), "cart") {
        return CartAction::Noop;
    }
    let item: Option<u128> = if parts.len() >= 3 {
        assert(parts@[2]@ == ps[2]);
        parse_uuid(parts[2].as_str())
    } else {
        None
    };
    if parts.len() >= 2 {
        assert(parts@[1]@ == ps[1]);
        named_action(parts[1].as_str(), item)
    } else {
        proof { reveal_strlit(""); }
        assert(""@ =~= Seq::<char>::empty());
        named_action("", item)
    }
}

/// Button data whose item id could not be read.
#[derive(Debug, Clone, Copy, PartialEq, Eq, Structural)]
pub enum PayloadError {
    InvalidItemId,
}

impl PayloadError {
    /// The human-readable description of the error.
    pub fn message(&self) -> (m: &'static str)
        ensures
            m@ == "invalid uuid in callback payload"@,
    {
        "invalid uuid in callback payload"
    }
}

/// The action of read button data: `inc`/`dec` need a readable item id as
/// the first payload part; unknown actions do nothing.
pub open spec fn callback_action(action: Seq<char>, payload: Seq<Seq<char>>) -> Result<CartAction, PayloadError> {
    let item = if payload.len() >= 1 { uuid_parse_result(payload[0]) } else { None };
    if (action == "inc"@ || action == "dec"@) && item is None {
        Err(PayloadError::InvalidItemId)
    } else {
        Ok(action_named(action, item))
    }
}

/// The action asked for by read button data.
pub fn action_from_callback(cb: &CallbackData) -> (r: Result<CartAction, PayloadError>)
    ensures
        r == callback_action(cb.action@, string_views(cb.payload@)),
{
    let item: Option<u128> = if cb.payload.len() >= 1 {
        assert(string_views(cb.payload@)[0] == cb.payload@[0]@);
        parse_uuid(cb.payload[0].as_str())
    } else {
        None
    };
    let needs_item = str_equal(cb.action.as_str(), "inc") || str_equal(cb.action.as_str(), "dec");
    if needs_item && item.is_none() {
        Err(PayloadError::InvalidItemId)
    } else {
        Ok(named_action(cb.action.as_str(), item))
    }
}

/// Whether button data belongs to the cart feature, and its parts when it does.
pub open spec fn is_cart_callback(data: Seq<char>) -> bool {
    split_colon(data).len() >= 2 && split_colon(data)[0] == "cart"@
}

/// Routes a button press: only readable data of the cart feature is handled;
/// everything else is ignored.
pub fn route_callback(data: Option<&str>) -> (r: Option<CallbackData>)
    ensures
        match data {
            None => r is None,
            Some(d) => match r {
                Some(cb) => {
                    let parts = split_colon(d@);
                    &&& is_cart_callback(d@)
                    &&& cb.feature@ == parts[0]
                    &&& cb.action@ == parts[1]
                    &&& string_views(cb.payload@) == parts.skip(2)
                },
                None => !is_cart_callback(d@),
            },
        },
{
    match data {
        None => None,
        Some(d) => match CallbackData::parse(d) {
            None => None,
            Some(cb) => {
                if str_equal(cb.feature.as_str(), "cart") {
                    Some(cb)
                } else {
                    None
                }
            },
        },
    }
}

/// A change to a stored cart, or placing its order.
#[derive(Debug, Clone, Copy, PartialEq, Eq, Structural)]
pub enum CartCommand {
    IncItem { cart_id: u128, item_id: u128 },
    DecItem { cart_id: u128, item_id: u128 },
    Reset { cart_id: u128 },
    MarkConfirming { cart_id: u128 },
    MarkActive { cart_id: u128 },
    PlaceOrder { cart_id: u128 },
}

/// What a button press comes to in the customer's cart state.
#[derive(Debug, Clone, Copy, PartialEq, Eq, Structural)]
pub enum ActionPlan {
    /// The button does nothing.
    Ignore,
    /// The button does not apply to the cart in its present state.
    WrongState,
    /// Run this command.
    Run(CartCommand),
}

/// Editing (`+`, `−`, reset) and completing act on an active cart only;
/// editing again and confirming act on a confirming cart only.
pub open spec fn plan_for(action: CartAction, state: CartState) -> ActionPlan {
    match action {
        CartAction::Noop => ActionPlan::Ignore,
        CartAction::Inc(item_id) => match state {
            CartState::Active(cart_id) => ActionPlan::Run(CartCommand::IncItem { cart_id, item_id }),
            _ => ActionPlan::WrongState,
        },
        CartAction::Dec(item_id) => match state {
            CartState::Active(cart_id) => ActionPlan::Run(CartCommand::DecItem { cart_id, item_id }),
            _ => ActionPlan::WrongState,
        },
        CartAction::Reset => match state {
            CartState::Active(cart_id) => ActionPlan::Run(CartCommand::Reset { cart_id }),
            _ => ActionPlan::WrongState,
        },
        CartAction::Complete => match state {
            CartState::Active(cart_id) => ActionPlan::Run(CartCommand::MarkConfirming { cart_id }),
            _ => ActionPlan::WrongState,
        },
        CartAction::Edit => match state {
            CartState::Confirming(cart_id) => ActionPlan::Run(CartCommand::MarkActive { cart_id }),
            _ => ActionPlan::WrongState,
        },
        CartAction::Confirm => match state {
            CartState::Confirming(cart_id) => ActionPlan::Run(CartCommand::PlaceOrder { cart_id }),
            _ => ActionPlan::WrongState,
        },
    }
}

/// Decides what a button press comes to in the customer's cart state.
pub fn plan_action(action: CartAction, state: CartState) -> (p: ActionPlan)
    ensures
        p == plan_for(action, state),
{
    match action {
        CartAction::Noop => ActionPlan::Ignore,
        CartAction::Inc(item_id) => match state {
            CartState::Active(cart_id) => ActionPlan::Run(CartCommand::IncItem { cart_id, item_id }),
            _ => ActionPlan::WrongState,
        },
        CartAction::Dec(item_id) => match state {
            CartState::Active(cart_id) => ActionPlan::Run(CartCommand::DecItem { cart_id, item_id }),
            _ => ActionPlan::WrongState,
        },
        CartAction::Reset => match state {
            CartState::Active(cart_id) => ActionPlan::Run(CartCommand::Reset { cart_id }),
            _ => ActionPlan::WrongState,
        },
        CartAction::Complete => match state {
            CartState::Active(cart_id) => ActionPlan::Run(CartCommand::MarkConfirming { cart_id }),
            _ => ActionPlan::WrongState,
        },
        CartAction::Edit => match state {
            CartState::Confirming(cart_id) => ActionPlan::Run(CartCommand::MarkActive { cart_id }),
            _ => ActionPlan::WrongState,
        },
        CartAction::Confirm => match state {
            CartState::Confirming(cart_id) => ActionPlan::Run(CartCommand::PlaceOrder { cart_id }),
            _ => ActionPlan::WrongState,
        },
    }
}

/// What the message shows after a command ran.
#[derive(Debug, Clone, Copy, PartialEq, Eq, Structural)]
pub enum FollowUp {
    /// Show the cart again, in whatever state it now is.
    RefreshCart,
    /// Show the summary awaiting confirmation, with the confirmation keyboard.
    ShowConfirming { cart_id: u128 },
    /// Show that the order was placed, with its code and no keyboard.
    ShowOrderPlaced,
}

impl CartCommand {
    /// What the message shows after this command ran.
    pub fn follow_up(&self) -> (f: FollowUp)
        ensures
            f == match *self {
                CartCommand::MarkConfirming { cart_id } => FollowUp::ShowConfirming { cart_id },
                CartCommand::PlaceOrder { .. } => FollowUp::ShowOrderPlaced,
                _ => FollowUp::RefreshCart,
            },
    {
        match self {
            CartCommand::MarkConfirming { cart_id } => FollowUp::ShowConfirming { cart_id: *cart_id },
            CartCommand::PlaceOrder { .. } => FollowUp::ShowOrderPlaced,
            _ => FollowUp::RefreshCart,
        }
    }
}

/// A confirming cart cannot be edited: in that state the only commands are
/// editing it again and placing its order; an active cart cannot be ordered.
pub proof fn lemma_state_guards(action: CartAction, cart_id: u128)
    ensures
        plan_for(action, CartState::Confirming(cart_id)) matches ActionPlan::Run(c) ==>
            (c == CartCommand::MarkActive { cart_id } || c == CartCommand::PlaceOrder { cart_id }),
        plan_for(action, CartState::Active(cart_id)) matches ActionPlan::Run(c) ==> !(c is PlaceOrder || c is MarkActive),
        plan_for(action, CartState::New) matches ActionPlan::Run(_) ==> false,
{
}

/// The `−` and `+` buttons of a menu item read back as taking away and adding
/// that very item, given that the UUID parser reads the id's hyphenated form
/// back to it (as `uuid_text` guarantees for the text it returns).
pub proof fn lemma_item_buttons_read_back(id: u128)
    requires
        uuid_parse_result(uuid_hyphenated(id)) == Some(id),
    ensures
        cart_action_of(item_data("inc"@, id)) == CartAction::Inc(id),
        cart_action_of(item_data("dec"@, id)) == CartAction::Dec(id),
{
    reveal_strlit("cart:");
    reveal_strlit(":");
    reveal_strlit("cart");
    reveal_strlit("inc");
    reveal_strlit("dec");
    lemma_uuid_text_has_no_colon(id);
    let u = uuid_hyphenated(id);
    assert(colon_free(u));
    assert(colon_free("cart"@));
    assert(colon_free("inc"@));
    assert(colon_free("dec"@));
    let pi = seq!["cart"@, "inc"@, u];
    let pd = seq!["cart"@, "dec"@, u];
    lemma_split_join_colon(pi);
    lemma_split_join_colon(pd);
    assert("cart:"@ =~= "cart"@ + seq![':']);
    assert(":"@ =~= seq![':']);
    assert(join_colon(seq!["cart"@]) == "cart"@);
    assert(pi.drop_last() =~= seq!["cart"@, "inc"@]);
    assert(seq!["cart"@, "inc"@].drop_last() =~= seq!["cart"@]);
    assert(join_colon(seq!["cart"@, "inc"@]) == "cart"@ + seq![':'] + "inc"@);
    assert(join_colon(pi) == "cart"@ + seq![':'] + "inc"@ + seq![':'] + u);
    assert(join_colon(pi) =~= item_data("inc"@, id));
    assert(pd.drop_last() =~= seq!["cart"@, "dec"@]);
    assert(seq!["cart"@, "dec"@].drop_last() =~= seq!["cart"@]);
    assert(join_colon(seq!["cart"@, "dec"@]) == "cart"@ + seq![':'] + "dec"@);
    assert(join_colon(pd) == "cart"@ + seq![':'] + "dec"@ + seq![':'] + u);
    assert(join_colon(pd) =~= item_data("dec"@, id));
    assert("dec"@[0] != "inc"@[0]);
}

/// Button data `cart:<name>` reads back as the action of that name.
proof fn lemma_named_button(name: Seq<char>)
    requires
        colon_free(name),
    ensures
        cart_action_of("cart"@ + seq![':'] + name) == action_named(name, None),
{
    reveal_strlit("cart");
    assert(colon_free("cart"@));
    let p = seq!["cart"@, name];
    lemma_split_join_colon(p);
    assert(p.drop_last() =~= seq!["cart"@]);
    assert(join_colon(seq!["cart"@]) == "cart"@);
    assert(join_colon(p) == "cart"@ + seq![':'] + name);
}

/// The checkout and confirmation buttons read back as the actions they name:
/// `cart:complete`, `cart:reset`, `cart:edit` and `cart:confirm`.
pub proof fn lemma_fixed_buttons_read_back()
    ensures
        cart_action_of("cart:complete"@) == CartAction::Complete,
        cart_action_of("cart:reset"@) == CartAction::Reset,
        cart_action_of("cart:edit"@) == CartAction::Edit,
        cart_action_of("cart:confirm"@) == CartAction::Confirm,
{
    reveal_strlit("cart");
    reveal_strlit("cart:complete");
    reveal_strlit("cart:reset");
    reveal_strlit("cart:edit");
    reveal_strlit("cart:confirm");
    reveal_strlit("complete");
    reveal_strlit("reset");
    reveal_strlit("edit");
    reveal_strlit("confirm");
    reveal_strlit("inc");
    reveal_strlit("dec");
    assert(colon_free("complete"@));
    assert(colon_free("reset"@));
    assert(colon_free("edit"@));
    assert(colon_free("confirm"@));
    lemma_named_button("complete"@);
    lemma_named_button("reset"@);
    lemma_named_button("edit"@);
    lemma_named_button("confirm"@);
    assert("cart:complete"@ =~= "cart"@ + seq![':'] + "complete"@);
    assert("cart:reset"@ =~= "cart"@ + seq![':'] + "reset"@);
    assert("cart:edit"@ =~= "cart"@ + seq![':'] + "edit"@);
    assert("cart:confirm"@ =~= "cart"@ + seq![':'] + "confirm"@);
    assert("complete"@.len() != "inc"@.len() && "complete"@.len() != "dec"@.len() && "complete"@.len() != "reset"@.len());
    assert("reset"@.len() != "inc"@.len() && "reset"@.len() != "dec"@.len());
    assert("edit"@.len() != "inc"@.len() && "edit"@.len() != "dec"@.len() && "edit"@.len() != "reset"@.len()
        && "edit"@.len() != "complete"@.len());
    assert("confirm"@.len() != "inc"@.len() && "confirm"@.len() != "dec"@.len() && "confirm"@.len() != "reset"@.len()
        && "confirm"@.len() != "complete"@.len() && "confirm"@.len() != "edit"@.len());
}

/// The buttons the bot shows do what they say: on an active cart, a dish's
/// `+` and `−` add and take away that dish, checkout asks for confirmation
/// and the reset button empties the cart; on a confirming cart, the edit
/// button reopens it and the confirmation button places the order (given,
/// as for [`lemma_item_buttons_read_back`], that ids read back).
pub proof fn lemma_buttons_drive_the_cart(cart_id: u128, id: u128)
    requires
        uuid_parse_result(uuid_hyphenated(id)) == Some(id),
    ensures
        plan_for(cart_action_of(item_data("inc"@, id)), CartState::Active(cart_id))
            == ActionPlan::Run(CartCommand::IncItem { cart_id, item_id: id }),
        plan_for(cart_action_of(item_data("dec"@, id)), CartState::Active(cart_id))
            == ActionPlan::Run(CartCommand::DecItem { cart_id, item_id: id }),
        plan_for(cart_action_of("cart:complete"@), CartState::Active(cart_id))
            == ActionPlan::Run(CartCommand::MarkConfirming { cart_id }),
        plan_for(cart_action_of("cart:reset"@), CartState::Active(cart_id))
            == ActionPlan::Run(CartCommand::Reset { cart_id }),
        plan_for(cart_action_of("cart:edit"@), CartState::Confirming(cart_id))
            == ActionPlan::Run(CartCommand::MarkActive { cart_id }),
        plan_for(cart_action_of("cart:confirm"@), CartState::Confirming(cart_id))
            == ActionPlan::Run(CartCommand::PlaceOrder { cart_id }),
{
    lemma_item_buttons_read_back(id);
    lemma_fixed_buttons_read_back();
}

/// A press read into its parts keeps the action it names: `inc`/`dec` with a
/// first payload part that reads as an id add/take away that very item, and
/// fail when it does not read; `reset`, `complete`, `edit` and `confirm` are
/// those actions whatever the payload.
pub proof fn lemma_callback_action_names(payload: Seq<Seq<char>>, id: u128)
    ensures
        (payload.len() >= 1 && uuid_parse_result(payload[0]) == Some(id)) ==> {
            &&& callback_action("inc"@, payload) == Ok::<CartAction, PayloadError>(CartAction::Inc(id))
            &&& callback_action("dec"@, payload) == Ok::<CartAction, PayloadError>(CartAction::Dec(id))
        },
        (payload.len() == 0 || uuid_parse_result(payload[0]) is None) ==> {
            &&& callback_action("inc"@, payload) == Err::<CartAction, PayloadError>(PayloadError::InvalidItemId)
            &&& callback_action("dec"@, payload) == Err::<CartAction, PayloadError>(PayloadError::InvalidItemId)
        },
        callback_action("reset"@, payload) == Ok::<CartAction, PayloadError>(CartAction::Reset),
        callback_action("complete"@, payload) == Ok::<CartAction, PayloadError>(CartAction::Complete),
        callback_action("edit"@, payload) == Ok::<CartAction, PayloadError>(CartAction::Edit),
        callback_action("confirm"@, payload) == Ok::<CartAction, PayloadError>(CartAction::Confirm),
{
    reveal_strlit("inc");
    reveal_strlit("dec");
    reveal_strlit("reset");
    reveal_strlit("complete");
    reveal_strlit("edit");
    reveal_strlit("confirm");
    assert("dec"@[0] != "inc"@[0]);
    assert("complete"@.len() != "inc"@.len() && "complete"@.len() != "dec"@.len() && "complete"@.len() != "reset"@.len());
    assert("reset"@.len() != "inc"@.len() && "reset"@.len() != "dec"@.len());
    assert("edit"@.len() != "inc"@.len() && "edit"@.len() != "dec"@.len() && "edit"@.len() != "reset"@.len()
        && "edit"@.len() != "complete"@.len());
    assert("confirm"@.len() != "inc"@.len() && "confirm"@.len() != "dec"@.len() && "confirm"@.len() != "reset"@.len()
        && "confirm"@.len() != "complete"@.len() && "confirm"@.len() != "edit"@.len());
}

/// The two ways of reading a cart button agree: when the parts of
/// `cart:<action>[:<payload>...]` (none holding `:`) give an action, reading
/// the raw data gives the same action.
pub proof fn lemma_callback_paths_agree(action: Seq<char>, payload: Seq<Seq<char>>, a: CartAction)
    requires
        colon_free(action),
        forall|i: int| 0 <= i < payload.len() ==> colon_free(#[trigger] payload[i]),
        callback_action(action, payload) == Ok::<CartAction, PayloadError>(a),
    ensures
        cart_action_of(join_colon(seq!["cart"@, action] + payload)) == a,
{
    reveal_strlit("cart");
    assert(colon_free("cart"@));
    let all = seq!["cart"@, action] + payload;
    assert forall|i: int| 0 <= i < all.len() implies colon_free(#[trigger] all[i]) by {
        if i >= 2 {
            assert(all[i] == payload[i - 2]);
        }
    }
    lemma_split_join_colon(all);
    if payload.len() >= 1 {
        assert(all[2] == payload[0]);
    }
}

} // verus!
