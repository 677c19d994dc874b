//! Why an order could not be created from a cart.

use vstd::prelude::*;
use crate::text::chars_of;

verus! {

/// Why an order could not be created.
#[derive(Debug, Clone, Copy, PartialEq, Eq, Structural)]
pub enum OrderError {
    InvalidCart,
    EmptyCart,
    Database,
    Internal,
}

impl OrderError {
    /// The human-readable description of the error.
    pub fn message(&self) -> (m: &'static str)
        ensures
            m@ == match *self {
                OrderError::InvalidCart => "cart not found or not confirmable"@,
                OrderError::EmptyCart => "cart is empty"@,
                OrderError::Database => "database error"@,
                OrderError::Internal => "internal error"@,
            },
    {
        match self {
            OrderError::InvalidCart => "cart not found or not confirmable",
            OrderError::EmptyCart => "cart is empty",
            OrderError::Database => "database error",
            OrderError::Internal => "internal error",
        }
    }
}

/// Whether `pat` occurs in `s`.
pub open spec fn contains_text(s: Seq<char>, pat: Seq<char>) -> bool {
    exists|i: int| 0 <= i && i + pat.len() <= s.len() && #[trigger] s.subrange(i, i + pat.len()) == pat
}

/// Whether `pat` occurs in `s` at position `i`.
fn occurs_at(s: &Vec<char>, pat: &Vec<char>, i: usize) -> (r: bool)
    requires
        i + pat.len() <= s.len(),
    ensures
        r == (s@.subrange(i as int, i + pat.len()) == pat@),
{
    let mut j: usize = 0;
    while j < pat.len()
        invariant
            i + pat.len() <= s.len(),
            j <= pat.len(),
            forall|k: int| 0 <= k < j ==> s@[i + k] == pat@[k],
        decreases pat.len() - j,
    {
        if s[i + j] != pat[j] {
            assert(s@.subrange(i as int, i + pat.len())[j as int] != pat@[j as int]);
            return false;
        }
        j = j + 1;
    }
    assert(s@.subrange(i as int, i + pat.len()) =~= pat@);
    true
}

/// Whether `pat` occurs in `s`.
pub fn text_contains(s: &str, pat: &str) -> (r: bool)
    ensures
        r == contains_text(s@, pat@),
{
    let sv = chars_of(s);
    let pv = chars_of(pat);
    if pv.len() > sv.len() {
        return false;
    }
    let last = sv.len() - pv.len();
    let mut i: usize = 0;
    while i < last
        invariant
            pv.len() <= sv.len(),
            last == sv.len() - pv.len(),
            sv@ == s@,
            pv@ == pat@,
            i <= last,
            forall|k: int| 0 <= k < i ==> #[trigger] sv@.subrange(k, k + pv.len()) != pv@,
        decreases last - i,
    {
        if occurs_at(&sv, &pv, i) {
            return true;
        }
        i = i + 1;
    }
    let found = occurs_at(&sv, &pv, last);
    proof {
        if !found && contains_text(s@, pat@) {
            let k = choose|k: int| 0 <= k && k + pat@.len() <= s@.len()
                && #[trigger] s@.subrange(k, k + pat@.len()) == pat@;
            assert(sv@.subrange(k, k + pv.len()) != pv@);
        }
    }
    found
}

/// The order error a store failure stands for, read from its message: a cart
/// that is not confirming is invalid, an empty cart is empty, anything else is
/// a database error.
pub open spec fn order_error_for(message: Seq<char>) -> OrderError {
    if contains_text(message, "not confirming"@) {
        OrderError::InvalidCart
    } else if contains_text(message, "cart is empty"@) {
        OrderError::EmptyCart
    } else {
        OrderError::Database
    }
}

/// Classifies the store's failure to create an order by its message.
pub fn map_order_error(message: &str) -> (e: OrderError)
    ensures
        e == order_error_for(message@),
{
    if text_contains(message, "not confirming") {
        OrderError::InvalidCart
    } else if text_contains(message, "cart is empty") {
        OrderError::EmptyCart
    } else {
        OrderError::Database
    }
}

} // verus!
