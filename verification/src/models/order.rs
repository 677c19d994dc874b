//! The stored order, its dispatch status and the status's text form.

use vstd::prelude::*;
use crate::text::{chars_of, chars_equal, str_equal, string_of_chars};

verus! {

/// `chrono::NaiveDate`, carried through unread.
#[verifier::external_type_specification]
#[verifier::external_body]
pub struct ExNaiveDate(chrono::NaiveDate);

/// `chrono::NaiveDateTime`, carried through unread.
#[verifier::external_type_specification]
#[verifier::external_body]
pub struct ExNaiveDateTime(chrono::NaiveDateTime);

/// A stored order.
#[derive(Debug)]
pub struct Order {
    pub id: u128,
    pub user_id: u128,
    pub order_day: chrono::NaiveDate,
    pub daily_no: i32,
    pub order_code: String,
    pub total_price: i64,
    pub status: OrderStatus,
    pub operator_id: Option<u128>,
    pub assigned_at: Option<chrono::NaiveDateTime>,
    pub seen_at: Option<chrono::NaiveDateTime>,
    pub prep_time_minutes: Option<i32>,
    pub retry_count: i32,
    pub created_at: chrono::NaiveDateTime,
}

/// Where a stored order stands in dispatch.
#[derive(Debug, Clone, Copy, PartialEq, Eq, Structural)]
pub enum OrderStatus {
    PendingAssign,
    AssignedUnseen,
    AssignedInReview,
    WaitingForOperator,
    Accepted,
    Rejected,
}

/// The stored text of a status.
pub open spec fn order_status_text(s: OrderStatus) -> Seq<char> {
    match s {
        OrderStatus::PendingAssign => "PENDING_ASSIGN"@,
        OrderStatus::AssignedUnseen => "ASSIGNED_UNSEEN"@,
        OrderStatus::AssignedInReview => "ASSIGNED_IN_REVIEW"@,
        OrderStatus::WaitingForOperator => "WAITING_FOR_OPERATOR"@,
        OrderStatus::Accepted => "ACCEPTED"@,
        OrderStatus::Rejected => "REJECTED"@,
    }
}

/// The status a stored text names, if any.
pub open spec fn order_status_from_text(t: Seq<char>) -> Option<OrderStatus> {
    if t == "PENDING_ASSIGN"@ {
        Some(OrderStatus::PendingAssign)
    } else if t == "ASSIGNED_UNSEEN"@ {
        Some(OrderStatus::AssignedUnseen)
    } else if t == "ASSIGNED_IN_REVIEW"@ {
        Some(OrderStatus::AssignedInReview)
    } else if t == "WAITING_FOR_OPERATOR"@ {
        Some(OrderStatus::WaitingForOperator)
    } else if t == "ACCEPTED"@ {
        Some(OrderStatus::Accepted)
    } else if t == "REJECTED"@ {
        Some(OrderStatus::Rejected)
    } else {
        None
    }
}

/// A stored status text that names no status.
#[derive(Debug, Clone)]
pub struct UnknownOrderStatus {
    pub value: String,
}

impl UnknownOrderStatus {
    /// `unknown order status: <value>`.
    pub fn message(&self) -> (m: String)
        ensures
            m@ == "unknown order status: "@ + self.value@,
    {
        let mut m = String::from_str("unknown order status: ");
        m.append(self.value.as_str());
        m
    }
}

impl OrderStatus {
    /// The text under which this status is stored.
    pub fn as_str(&self) -> (s: &'static str)
        ensures
            s@ == order_status_text(*self),
    {
        match self {
            OrderStatus::PendingAssign => "PENDING_ASSIGN",
            OrderStatus::AssignedUnseen => "ASSIGNED_UNSEEN",
            OrderStatus::AssignedInReview => "ASSIGNED_IN_REVIEW",
            OrderStatus::WaitingForOperator => "WAITING_FOR_OPERATOR",
            OrderStatus::Accepted => "ACCEPTED",
            OrderStatus::Rejected => "REJECTED",
        }
    }

    /// Reads a stored status; a text that names none is an error carrying it.
    pub fn try_from(value: &str) -> (r: Result<OrderStatus, UnknownOrderStatus>)
        ensures
            match r {
                Ok(s) => order_status_from_text(value@) == Some(s),
                Err(e) => order_status_from_text(value@) is None && e.value@ == value@,
            },
    {
        let v = chars_of(value);
        if chars_equal(&v, &chars_of("PENDING_ASSIGN")) {
            Ok(OrderStatus::PendingAssign)
        } else if chars_equal(&v, &chars_of("ASSIGNED_UNSEEN")) {
            Ok(OrderStatus::AssignedUnseen)
        } else if chars_equal(&v, &chars_of("ASSIGNED_IN_REVIEW")) {
            Ok(OrderStatus::AssignedInReview)
        } else if chars_equal(&v, &chars_of("WAITING_FOR_OPERATOR")) {
            Ok(OrderStatus::WaitingForOperator)
        } else if chars_equal(&v, &chars_of("ACCEPTED")) {
            Ok(OrderStatus::Accepted)
        } else if chars_equal(&v, &chars_of("REJECTED")) {
            Ok(OrderStatus::Rejected)
        } else {
            Err(UnknownOrderStatus { value: string_of_chars(&v) })
        }
    }
}

/// Reading back the stored text of a status gives the same status.
pub proof fn lemma_order_status_text_round_trip(s: OrderStatus)
    ensures
        order_status_from_text(order_status_text(s)) == Some(s),
{
    reveal_strlit("PENDING_ASSIGN");
    reveal_strlit("ASSIGNED_UNSEEN");
    reveal_strlit("ASSIGNED_IN_REVIEW");
    reveal_strlit("WAITING_FOR_OPERATOR");
    reveal_strlit("ACCEPTED");
    reveal_strlit("REJECTED");
    assert("PENDING_ASSIGN"@.len() == 14);
    assert("ASSIGNED_UNSEEN"@.len() == 15);
    assert("ASSIGNED_IN_REVIEW"@.len() == 18);
    assert("WAITING_FOR_OPERATOR"@.len() == 20);
    assert("ACCEPTED"@.len() == 8 && "REJECTED"@.len() == 8);
    assert("ACCEPTED"@[0] != "REJECTED"@[0]);
}

} // verus!
