//! What an operator is looking at, and whether they are on shift.

use vstd::prelude::*;
use crate::text::str_equal;

verus! {

/// The screen an operator currently has open.
#[derive(Debug, Clone, Copy, PartialEq, Eq, Structural)]
pub enum OperatorView {
    List,
    Order,
}

/// The stored text of a view.
pub open spec fn operator_view_text(v: OperatorView) -> Seq<char> {
    match v {
        OperatorView::List => "LIST"@,
        OperatorView::Order => "ORDER"@,
    }
}

/// The view a stored text stands for: `ORDER` is the order view, anything
/// else falls back to the list view.
pub open spec fn operator_view_from_text(s: Seq<char>) -> OperatorView {
    if s == "ORDER"@ {
        OperatorView::Order
    } else {
        OperatorView::List
    }
}

impl OperatorView {
    /// The text under which this view is stored.
    pub fn as_str(&self) -> (s: &'static str)
        ensures
            s@ == operator_view_text(*self),
    {
        match self {
            OperatorView::List => "LIST",
            OperatorView::Order => "ORDER",
        }
    }

    /// Reads a stored view; unknown texts give the list view.
    pub fn from_str(value: &str) -> (v: OperatorView)
        ensures
            v == operator_view_from_text(value@),
    {
        if str_equal(value, "ORDER") {
            OperatorView::Order
        } else {
            OperatorView::List
        }
    }
}

/// Reading back the stored text of a view gives the same view.
pub proof fn lemma_operator_view_text_round_trip(v: OperatorView)
    ensures
        operator_view_from_text(operator_view_text(v)) == v,
{
    reveal_strlit("LIST");
    reveal_strlit("ORDER");
    assert("LIST"@ != "ORDER"@) by {
        assert("LIST"@[0] != "ORDER"@[0]);
    }
}

/// An operator's shift and screen.
#[derive(Debug, Clone)]
pub struct OperatorState {
    pub operator_id: u128,
    pub is_on_shift: bool,
    pub current_view: OperatorView,
    pub current_order_id: Option<u128>,
}

impl OperatorState {
    /// Whether the operator has an order open.
    pub fn is_viewing_order(&self) -> (r: bool)
        ensures
            r == (self.current_view == OperatorView::Order),
    {
        self.current_view == OperatorView::Order
    }
}

} // verus!
