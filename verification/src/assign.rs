//! Dispatching orders to operators: round-robin choice of the next operator,
//! the writes that record an assignment, and the seen/decision timeouts.

use vstd::prelude::*;
use crate::models::order::OrderStatus;

verus! {

/// An instant, in nanoseconds since the Unix epoch.
#[derive(Debug, Clone, Copy, PartialEq, Eq, Structural)]
pub struct Timestamp {
    pub nanos: i128,
}

/// A length of time, in nanoseconds.
#[derive(Debug, Clone, Copy, PartialEq, Eq, Structural)]
pub struct Span {
    pub nanos: i128,
}

/// The bound on instants and spans: far beyond any calendar date or time
/// span the clock can express (about ten million years).
pub open spec fn time_bound() -> int {
    0x1_0000_0000_0000_0000_0000_0000_0000
}

impl Timestamp {
    /// Whether the instant lies within the range clocks can express.
    pub open spec fn in_range(self) -> bool {
        -time_bound() <= self.nanos <= time_bound()
    }
}

impl Span {
    /// Whether the span lies within the range clocks can express.
    pub open spec fn in_range(self) -> bool {
        -time_bound() <= self.nanos <= time_bound()
    }
}

/// Whether at least `limit` has passed from `since` to `now`.
pub open spec fn limit_reached(now: Timestamp, since: Timestamp, limit: Span) -> bool {
    !(now.nanos - since.nanos < limit.nanos)
}

/// Whether a timeout that started at `since` with length `limit` has run out at `now`.
pub fn timeout_elapsed(now: Timestamp, since: Timestamp, limit: Span) -> (r: bool)
    requires
        now.in_range(),
        since.in_range(),
        limit.in_range(),
    ensures
        r == limit_reached(now, since, limit),
{
    !(now.nanos - since.nanos < limit.nanos)
}

/// A timeout runs out exactly at its deadline `since + limit`: before it the
/// order waits, from it on (and ever after) the timeout has run out.
pub proof fn lemma_timeout_deadline(now: Timestamp, later: Timestamp, since: Timestamp, limit: Span)
    requires
        now.in_range(),
        later.in_range(),
        since.in_range(),
        limit.in_range(),
    ensures
        limit_reached(now, since, limit) <==> now.nanos >= since.nanos + limit.nanos,
        now.nanos < since.nanos + limit.nanos ==> !limit_reached(now, since, limit),
        (limit_reached(now, since, limit) && now.nanos <= later.nanos) ==> limit_reached(later, since, limit),
{
}

/// Whether `i` is the first position of `x` in `s`.
pub open spec fn is_first_position(s: Seq<u128>, x: u128, i: int) -> bool {
    &&& 0 <= i < s.len()
    &&& s[i] == x
    &&& forall|j: int| 0 <= j < i ==> s[j] != x
}

/// The first position of `x` in `s` (meaningful when `s` contains `x`).
pub open spec fn first_position(s: Seq<u128>, x: u128) -> int {
    choose|i: int| is_first_position(s, x, i)
}

/// The operator who gets the next order: the one after the last assigned
/// operator in the list of available operators (wrapping around), or the
/// first available one when the last is unknown or no longer available.
pub open spec fn next_operator(operators: Seq<u128>, last: Option<u128>) -> u128 {
    match last {
        Some(l) => if operators.contains(l) {
            operators[(first_position(operators, l) + 1) % (operators.len() as int)]
        } else {
            operators[0]
        },
        None => operators[0],
    }
}

/// A value in a sequence has exactly one first position.
pub proof fn lemma_first_position(s: Seq<u128>, x: u128, i: int)
    requires
        0 <= i < s.len(),
        s[i] == x,
    ensures
        is_first_position(s, x, first_position(s, x)),
        first_position(s, x) <= i,
    decreases i,
{
    if exists|j: int| 0 <= j < i && s[j] == x {
        let j = choose|j: int| 0 <= j < i && s[j] == x;
        lemma_first_position(s, x, j);
    } else {
        assert(is_first_position(s, x, i));
    }
    let f = first_position(s, x);
    if f > i {
        assert(s[i] != x);
    }
}

/// Picks the operator who gets the next order, round-robin after the last one.
pub fn pick_next_operator(operators: &Vec<u128>, last: Option<u128>) -> (chosen: u128)
    requires
        operators.len() > 0,
    ensures
        chosen == next_operator(operators@, last),
        operators@.contains(chosen),
{
    let n = operators.len();
    match last {
        Some(l) => {
            let mut i: usize = 0;
            while i < n
                invariant
                    n == operators.len(),
                    n > 0,
                    last == Some(l),
                    i <= n,
                    forall|j: int| 0 <= j < i ==> operators@[j] != l,
                decreases n - i,
            {
                if operators[i] == l {
                    proof {
                        lemma_first_position(operators@, l, i as int);
                        let f = first_position(operators@, l);
                        if f < i {
                            assert(operators@[f] != l);
                        }
                        assert(f == i);
                        assert(operators@.contains(l));
                    }
                    let k = (i + 1) % n;
                    assert(k as int == (i as int + 1) % (n as int));
                    return operators[k];
                }
                i = i + 1;
            }
            proof {
                if operators@.contains(l) {
                    let j = choose|j: int| 0 <= j < operators@.len() && operators@[j] == l;
                    assert(operators@[j] != l);
                }
            }
            operators[0]
        },
        None => operators[0],
    }
}

/// Choosing operators one after another, each time after the previous choice.
pub open spec fn picks_from(operators: Seq<u128>, last: Option<u128>, t: nat) -> u128
    decreases t,
{
    if t == 0 {
        next_operator(operators, last)
    } else {
        next_operator(operators, Some(picks_from(operators, last, (t - 1) as nat)))
    }
}

/// Round-robin fairness: when the available operators are distinct and the
/// last assigned one is the `k`-th, the next `n` orders go to the operators
/// `k+1, k+2, ...` in list order, so every available operator gets one of
/// any `n` consecutive orders.
pub proof fn lemma_round_robin_cycles(operators: Seq<u128>, k: int, t: nat)
    requires
        operators.no_duplicates(),
        0 <= k < operators.len(),
    ensures
        picks_from(operators, Some(operators[k]), t) == operators[(k + t + 1) % (operators.len() as int)],
    decreases t,
{
    let n = operators.len() as int;
    if t == 0 {
        lemma_next_after_position(operators, k);
    } else {
        lemma_round_robin_cycles(operators, k, (t - 1) as nat);
        let p = (k + t) % n;
        assert(0 <= p < n) by (nonlinear_arith)
            requires n > 0, p == (k + t) % n,
        ;
        lemma_next_after_position(operators, p);
        assert((p + 1) % n == (k + t + 1) % n) by {
            vstd::arithmetic::div_mod::lemma_add_mod_noop_right(1, k + t, n);
            assert(1 + p == p + 1);
            assert(1 + (k + t) == k + t + 1);
        }
    }
}

/// With distinct operators, the one after the `k`-th is the `(k+1)`-th, wrapping around.
pub proof fn lemma_next_after_position(operators: Seq<u128>, k: int)
    requires
        operators.no_duplicates(),
        0 <= k < operators.len(),
    ensures
        next_operator(operators, Some(operators[k])) == operators[(k + 1) % (operators.len() as int)],
{
    lemma_first_position(operators, operators[k], k);
    let f = first_position(operators, operators[k]);
    assert(operators.contains(operators[k]));
    assert(f == k);
}

/// The operator who gets the next order: when the last assigned operator is
/// unknown or no longer available, the first available one; otherwise the one
/// right after the last operator's first place in the list, wrapping around.
pub proof fn lemma_next_operator_choice(operators: Seq<u128>, last: Option<u128>, k: int)
    requires
        operators.len() > 0,
    ensures
        (last is None || !operators.contains(last->0)) ==> next_operator(operators, last) == operators[0],
        (last matches Some(l) && 0 <= k < operators.len() && operators[k] == l
            && forall|j: int| 0 <= j < k ==> operators[j] != l)
            ==> next_operator(operators, last) == operators[(k + 1) % (operators.len() as int)],
        operators.contains(next_operator(operators, last)),
{
    let n = operators.len() as int;
    assert(operators.contains(operators[0]));
    if let Some(l) = last {
        if operators.contains(l) {
            let j = choose|j: int| 0 <= j < operators.len() && operators[j] == l;
            lemma_first_position(operators, l, j);
            let f = first_position(operators, l);
            assert(0 <= (f + 1) % n < n) by (nonlinear_arith)
                requires n > 0,
            ;
            assert(operators.contains(operators[(f + 1) % n]));
            if 0 <= k < operators.len() && operators[k] == l && forall|j2: int| 0 <= j2 < k ==> operators[j2] != l {
                if f < k {
                    assert(operators[f] == l);
                }
                if k < f {
                    assert(operators[k] != l);
                }
                assert(f == k);
            }
        }
    }
}

/// A write to the order store, or to the operator records, that the dispatcher asks for.
#[derive(Debug, Clone, Copy, PartialEq, Eq, Structural)]
#[allow(inconsistent_fields)]
pub enum DispatchWrite {
    SetStatus { order_id: u128, status: OrderStatus },
    AssignOperator { order_id: u128, operator_id: Option<u128>, assigned_at: Option<Timestamp> },
    MarkSeen { order_id: u128, seen_at: Timestamp },
    SetLastOperator { operator_id: u128 },
    EndShift { operator_id: u128 },
}

/// What assigning an order needs after the available operators were listed.
#[derive(Debug, Clone, PartialEq, Eq)]
pub enum AssignStep {
    /// Nobody is available: perform these writes, in order, and stop.
    Park(Vec<DispatchWrite>),
    /// Someone is available: read the last assigned operator, then call
    /// [`assignment_writes`].
    ReadLastOperator,
}

/// The writes that park an order until an operator is available.
pub open spec fn parking_writes(order_id: u128) -> Seq<DispatchWrite> {
    seq![
        DispatchWrite::SetStatus { order_id, status: OrderStatus::WaitingForOperator },
        DispatchWrite::AssignOperator { order_id, operator_id: None, assigned_at: None },
    ]
}

/// Decides how to assign an order once the available operators are known.
pub fn assign_after_listing(order_id: u128, operators: &Vec<u128>) -> (step: AssignStep)
    ensures
        operators.len() == 0 ==> (step matches AssignStep::Park(w) && w@ == parking_writes(order_id)),
        operators.len() > 0 ==> step == AssignStep::ReadLastOperator,
{
    if operators.len() == 0 {
        let mut w: Vec<DispatchWrite> = Vec::new();
        w.push(DispatchWrite::SetStatus { order_id, status: OrderStatus::WaitingForOperator });
        w.push(DispatchWrite::AssignOperator { order_id, operator_id: None, assigned_at: None });
        assert(w@ =~= parking_writes(order_id));
        AssignStep::Park(w)
    } else {
        AssignStep::ReadLastOperator
    }
}

/// The writes that hand an order to `chosen` at `now` and remember the choice.
pub open spec fn handover_writes(order_id: u128, chosen: u128, now: Timestamp) -> Seq<DispatchWrite> {
    seq![
        DispatchWrite::AssignOperator { order_id, operator_id: Some(chosen), assigned_at: Some(now) },
        DispatchWrite::SetStatus { order_id, status: OrderStatus::AssignedUnseen },
        DispatchWrite::SetLastOperator { operator_id: chosen },
    ]
}

/// The writes that assign an order to the next operator in turn.
pub fn assignment_writes(order_id: u128, operators: &Vec<u128>, last: Option<u128>, now: Timestamp) -> (w: Vec<DispatchWrite>)
    requires
        operators.len() > 0,
    ensures
        w@ == handover_writes(order_id, next_operator(operators@, last), now),
{
    let chosen = pick_next_operator(operators, last);
    let mut w: Vec<DispatchWrite> = Vec::new();
    w.push(DispatchWrite::AssignOperator { order_id, operator_id: Some(chosen), assigned_at: Some(now) });
    w.push(DispatchWrite::SetStatus { order_id, status: OrderStatus::AssignedUnseen });
    w.push(DispatchWrite::SetLastOperator { operator_id: chosen });
    assert(w@ =~= handover_writes(order_id, chosen, now));
    w
}

/// The writes that record that the assigned operator opened the order.
pub open spec fn seen_writes(order_id: u128, now: Timestamp) -> Seq<DispatchWrite> {
    seq![
        DispatchWrite::MarkSeen { order_id, seen_at: now },
        DispatchWrite::SetStatus { order_id, status: OrderStatus::AssignedInReview },
    ]
}

/// The writes that mark an order as seen at `now`.
pub fn mark_seen_writes(order_id: u128, now: Timestamp) -> (w: Vec<DispatchWrite>)
    ensures
        w@ == seen_writes(order_id, now),
{
    let mut w: Vec<DispatchWrite> = Vec::new();
    w.push(DispatchWrite::MarkSeen { order_id, seen_at: now });
    w.push(DispatchWrite::SetStatus { order_id, status: OrderStatus::AssignedInReview });
    assert(w@ =~= seen_writes(order_id, now));
    w
}

/// What a timeout check asks for.
#[derive(Debug, Clone, PartialEq, Eq)]
pub enum TimeoutStep {
    /// The limit has not run out: nothing to do.
    Wait,
    /// Perform these writes, in order, then assign the order again.
    Reassign(Vec<DispatchWrite>),
}

/// The assigned operator has not opened the order within `limit` of its
/// assignment: the order goes to the next operator.
pub fn on_seen_timeout(now: Timestamp, assigned_at: Timestamp, limit: Span) -> (step: TimeoutStep)
    requires
        now.in_range(),
        assigned_at.in_range(),
        limit.in_range(),
    ensures
        !limit_reached(now, assigned_at, limit) ==> step == TimeoutStep::Wait,
        limit_reached(now, assigned_at, limit) ==> (step matches TimeoutStep::Reassign(w) && w@.len() == 0),
{
    if timeout_elapsed(now, assigned_at, limit) {
        TimeoutStep::Reassign(Vec::new())
    } else {
        TimeoutStep::Wait
    }
}

/// The operator opened the order but did not decide within `limit`: their
/// shift ends and the order goes to the next operator.
pub fn on_decision_timeout(now: Timestamp, seen_at: Timestamp, limit: Span, operator_id: u128) -> (step: TimeoutStep)
    requires
        now.in_range(),
        seen_at.in_range(),
        limit.in_range(),
    ensures
        !limit_reached(now, seen_at, limit) ==> step == TimeoutStep::Wait,
        limit_reached(now, seen_at, limit) ==> (step matches TimeoutStep::Reassign(w)
            && w@ == seq![DispatchWrite::EndShift { operator_id }]),
{
    if timeout_elapsed(now, seen_at, limit) {
        let mut w: Vec<DispatchWrite> = Vec::new();
        w.push(DispatchWrite::EndShift { operator_id });
        assert(w@ =~= seq![DispatchWrite::EndShift { operator_id }]);
        TimeoutStep::Reassign(w)
    } else {
        TimeoutStep::Wait
    }
}

} // verus!
