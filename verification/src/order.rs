//! An order under review: it is accepted with a preparation time, or rejected,
//! once; and how the store's refusal to create an order is classified.

pub mod error;

use vstd::prelude::*;

verus! {

/// Where an order under review stands.
#[derive(Debug, Clone, Copy, PartialEq, Eq, Structural)]
pub enum OrderStatus {
    Pending,
    Accepted { prep_time_minutes: u32 },
    Rejected,
}

/// A line of an order.
#[derive(Debug, Clone)]
pub struct OrderItem {
    pub title: String,
    pub price: i64,
    pub quantity: u32,
}

/// An order under review.
#[derive(Debug, Clone)]
pub struct Order {
    pub id: u128,
    pub customer_id: u128,
    pub items: Vec<OrderItem>,
    pub total_price: i64,
    pub status: OrderStatus,
}

/// The status after accepting with a preparation time; only a pending order can be accepted.
pub open spec fn status_after_accept(s: OrderStatus, prep_time_minutes: u32) -> Option<OrderStatus> {
    match s {
        OrderStatus::Pending => Some(OrderStatus::Accepted { prep_time_minutes }),
        _ => None,
    }
}

/// The status after rejecting; only a pending order can be rejected.
pub open spec fn status_after_reject(s: OrderStatus) -> Option<OrderStatus> {
    match s {
        OrderStatus::Pending => Some(OrderStatus::Rejected),
        _ => None,
    }
}

impl Order {
    /// Accepts a pending order with its preparation time; any other order
    /// refuses and stays as it was.
    pub fn accept(&mut self, prep_time_minutes: u32) -> (r: Result<(), &'static str>)
        ensures
            match status_after_accept(old(self).status, prep_time_minutes) {
                Some(s) => r is Ok && final(self).status == s && final(self).id == old(self).id
                    && final(self).customer_id == old(self).customer_id && final(self).items@ == old(self).items@
                    && final(self).total_price == old(self).total_price,
                None => r matches Err(m) && m@ == "order cannot be accepted"@ && *final(self) == *old(self),
            },
    {
        match self.status {
            OrderStatus::Pending => {
                self.status = OrderStatus::Accepted { prep_time_minutes };
                Ok(())
            },
            _ => Err("order cannot be accepted"),
        }
    }

    /// Rejects a pending order; any other order refuses and stays as it was.
    pub fn reject(&mut self) -> (r: Result<(), &'static str>)
        ensures
            match status_after_reject(old(self).status) {
                Some(s) => r is Ok && final(self).status == s && final(self).id == old(self).id
                    && final(self).customer_id == old(self).customer_id && final(self).items@ == old(self).items@
                    && final(self).total_price == old(self).total_price,
                None => r matches Err(m) && m@ == "order cannot be rejected"@ && *final(self) == *old(self),
            },
    {
        match self.status {
            OrderStatus::Pending => {
                self.status = OrderStatus::Rejected;
                Ok(())
            },
            _ => Err("order cannot be rejected"),
        }
    }
}

/// Only a pending order can be decided; accepting records exactly the given
/// preparation time, and rejecting makes it rejected.
pub proof fn lemma_decisions_record_what_was_decided(s: OrderStatus, prep: u32)
    ensures
        status_after_accept(s, prep) is Some <==> s == OrderStatus::Pending,
        status_after_reject(s) is Some <==> s == OrderStatus::Pending,
        status_after_accept(s, prep) matches Some(t) ==> t == (OrderStatus::Accepted { prep_time_minutes: prep }),
        status_after_reject(s) matches Some(t) ==> t == OrderStatus::Rejected,
{
}

/// A decision is final: once an order was accepted or rejected, it can be
/// neither accepted nor rejected again.
pub proof fn lemma_decision_is_final(s: OrderStatus, prep: u32, again: u32)
    ensures
        status_after_accept(s, prep) matches Some(t) ==> status_after_accept(t, again) is None
            && status_after_reject(t) is None,
        status_after_reject(s) matches Some(t) ==> status_after_accept(t, again) is None
            && status_after_reject(t) is None,
{
}

} // verus!
