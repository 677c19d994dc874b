//! Cart use-cases: which cart a customer is working on, finding or opening
//! their active cart, and how store failures surface as cart errors.

use vstd::prelude::*;
use crate::cart::types::Cart;
use crate::errors::CartError;
use crate::repo::RepoError;

verus! {

/// Which cart a customer is working on.
#[derive(Debug, Clone, Copy, PartialEq, Eq, Structural)]
pub enum CartState {
    /// An editable cart.
    Active(u128),
    /// A cart waiting for the final confirmation.
    Confirming(u128),
    /// No active or confirming cart (none at all, or only locked ones): a new order starts.
    New,
}

/// The cart state from the two lookups: an active cart wins over a
/// confirming one; a failed lookup is an internal error.
pub open spec fn resolved_cart_state(
    active: Result<Option<Cart>, RepoError>,
    confirming: Result<Option<Cart>, RepoError>,
) -> Result<CartState, CartError> {
    match active {
        Err(_) => Err(CartError::Internal),
        Ok(Some(c)) => Ok(CartState::Active(c.id)),
        Ok(None) => match confirming {
            Err(_) => Err(CartError::Internal),
            Ok(Some(c)) => Ok(CartState::Confirming(c.id)),
            Ok(None) => Ok(CartState::New),
        },
    }
}

/// What resolving the cart state needs after the active-cart lookup.
#[derive(Debug)]
pub enum ResolveStep {
    /// The state is known.
    Done(Result<CartState, CartError>),
    /// Look up the user's confirming cart, then call [`resolve_after_confirming`].
    FindConfirming { user_id: u128 },
}

/// Decides the cart state from the active-cart lookup of `user_id`, or asks
/// for the confirming-cart lookup.
pub fn resolve_after_active(user_id: u128, active: Result<Option<Cart>, RepoError>) -> (step: ResolveStep)
    ensures
        match active {
            Ok(None) => step == (ResolveStep::FindConfirming { user_id }),
            _ => step matches ResolveStep::Done(r) && forall|c: Result<Option<Cart>, RepoError>|
                r == #[trigger] resolved_cart_state(active, c),
        },
{
    match active {
        Err(_) => ResolveStep::Done(Err(CartError::Internal)),
        Ok(Some(c)) => ResolveStep::Done(Ok(CartState::Active(c.id))),
        Ok(None) => ResolveStep::FindConfirming { user_id },
    }
}

/// Decides the cart state from the confirming-cart lookup, the active one having found nothing.
pub fn resolve_after_confirming(confirming: Result<Option<Cart>, RepoError>) -> (r: Result<CartState, CartError>)
    ensures
        r == resolved_cart_state(Ok(None), confirming),
{
    match confirming {
        Err(_) => Err(CartError::Internal),
        Ok(Some(c)) => Ok(CartState::Confirming(c.id)),
        Ok(None) => Ok(CartState::New),
    }
}

/// What finding or opening the active cart needs after the lookup.
#[derive(Debug)]
pub enum ActiveCartStep {
    /// The outcome is known.
    Done(Result<Cart, CartError>),
    /// Open a new active cart for the user, then call [`active_cart_after_create`].
    Create { user_id: u128 },
}

/// The user's active cart when the lookup found one, else a request to open one.
pub fn active_cart_after_lookup(user_id: u128, found: Result<Option<Cart>, RepoError>) -> (step: ActiveCartStep)
    ensures
        match found {
            Err(_) => step == ActiveCartStep::Done(Err(CartError::Internal)),
            Ok(Some(c)) => step == ActiveCartStep::Done(Ok(c)),
            Ok(None) => step == (ActiveCartStep::Create { user_id }),
        },
{
    match found {
        Err(_) => ActiveCartStep::Done(Err(CartError::Internal)),
        Ok(Some(c)) => ActiveCartStep::Done(Ok(c)),
        Ok(None) => ActiveCartStep::Create { user_id },
    }
}

/// The newly opened cart, or an internal error when the store failed.
pub fn active_cart_after_create(created: Result<Cart, RepoError>) -> (r: Result<Cart, CartError>)
    ensures
        match created {
            Ok(c) => r == Ok::<Cart, CartError>(c),
            Err(_) => r == Err::<Cart, CartError>(CartError::Internal),
        },
{
    match created {
        Ok(c) => Ok(c),
        Err(_) => Err(CartError::Internal),
    }
}

/// The user's confirming cart; none is an error of its own.
pub fn confirming_cart_from(found: Result<Option<Cart>, RepoError>) -> (r: Result<Cart, CartError>)
    ensures
        match found {
            Err(_) => r == Err::<Cart, CartError>(CartError::Internal),
            Ok(None) => r == Err::<Cart, CartError>(CartError::NoConfirmingCart),
            Ok(Some(c)) => r == Ok::<Cart, CartError>(c),
        },
{
    match found {
        Err(_) => Err(CartError::Internal),
        Ok(None) => Err(CartError::NoConfirmingCart),
        Ok(Some(c)) => Ok(c),
    }
}

/// A store result as a cart result: any store failure is an internal cart error.
pub fn cart_result<T>(r: Result<T, RepoError>) -> (out: Result<T, CartError>)
    ensures
        match r {
            Ok(v) => out == Ok::<T, CartError>(v),
            Err(_) => out == Err::<T, CartError>(CartError::Internal),
        },
{
    match r {
        Ok(v) => Ok(v),
        Err(_) => Err(CartError::Internal),
    }
}

} // verus!
