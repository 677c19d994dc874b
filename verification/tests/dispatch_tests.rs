use fastorder::assign::{
    assign_after_listing, assignment_writes, mark_seen_writes, on_decision_timeout, on_seen_timeout,
    pick_next_operator, timeout_elapsed, AssignStep, DispatchWrite, Span, TimeoutStep, Timestamp,
};
use fastorder::models::order::OrderStatus;

#[test]
fn next_operator_follows_the_last_one() {
    let ops = vec![10u128, 20, 30];
    assert_eq!(pick_next_operator(&ops, Some(10)), 20);
    assert_eq!(pick_next_operator(&ops, Some(20)), 30);
}

#[test]
fn next_operator_wraps_around() {
    let ops = vec![10u128, 20, 30];
    assert_eq!(pick_next_operator(&ops, Some(30)), 10);
    assert_eq!(pick_next_operator(&vec![42u128], Some(42)), 42);
}

#[test]
fn next_operator_without_known_last_is_first() {
    let ops = vec![10u128, 20, 30];
    assert_eq!(pick_next_operator(&ops, None), 10);
    assert_eq!(pick_next_operator(&ops, Some(99)), 10);
}

#[test]
fn next_operator_uses_first_position_of_duplicates() {
    let ops = vec![10u128, 20, 10, 30];
    assert_eq!(pick_next_operator(&ops, Some(10)), 20);
}

#[test]
fn round_robin_gives_everyone_one_of_n_orders() {
    let ops = vec![1u128, 2, 3, 4];
    let mut last = Some(3u128);
    let mut got = Vec::new();
    for _ in 0..4 {
        let c = pick_next_operator(&ops, last);
        got.push(c);
        last = Some(c);
    }
    assert_eq!(got, vec![4, 1, 2, 3]);
}

#[test]
fn nobody_available_parks_the_order() {
    match assign_after_listing(5, &vec![]) {
        AssignStep::Park(w) => assert_eq!(
            w,
            vec![
                DispatchWrite::SetStatus { order_id: 5, status: OrderStatus::WaitingForOperator },
                DispatchWrite::AssignOperator { order_id: 5, operator_id: None, assigned_at: None },
            ]
        ),
        other => panic!("unexpected {:?}", other),
    }
    assert_eq!(assign_after_listing(5, &vec![1]), AssignStep::ReadLastOperator);
}

#[test]
fn assignment_hands_over_and_remembers() {
    let now = Timestamp { nanos: 1_000 };
    let w = assignment_writes(9, &vec![1, 2], Some(1), now);
    assert_eq!(
        w,
        vec![
            DispatchWrite::AssignOperator { order_id: 9, operator_id: Some(2), assigned_at: Some(now) },
            DispatchWrite::SetStatus { order_id: 9, status: OrderStatus::AssignedUnseen },
            DispatchWrite::SetLastOperator { operator_id: 2 },
        ]
    );
}

#[test]
fn marking_seen_records_time_and_review() {
    let now = Timestamp { nanos: 77 };
    assert_eq!(
        mark_seen_writes(3, now),
        vec![
            DispatchWrite::MarkSeen { order_id: 3, seen_at: now },
            DispatchWrite::SetStatus { order_id: 3, status: OrderStatus::AssignedInReview },
        ]
    );
}

#[test]
fn timeouts_wait_until_the_limit() {
    let at = Timestamp { nanos: 1_000 };
    let limit = Span { nanos: 500 };
    assert!(!timeout_elapsed(Timestamp { nanos: 1_499 }, at, limit));
    assert!(timeout_elapsed(Timestamp { nanos: 1_500 }, at, limit));
    assert_eq!(on_seen_timeout(Timestamp { nanos: 1_200 }, at, limit), TimeoutStep::Wait);
    assert_eq!(on_seen_timeout(Timestamp { nanos: 2_000 }, at, limit), TimeoutStep::Reassign(vec![]));
}

#[test]
fn decision_timeout_ends_the_shift_first() {
    let at = Timestamp { nanos: 0 };
    let limit = Span { nanos: 10 };
    assert_eq!(on_decision_timeout(Timestamp { nanos: 5 }, at, limit, 4), TimeoutStep::Wait);
    assert_eq!(
        on_decision_timeout(Timestamp { nanos: 10 }, at, limit, 4),
        TimeoutStep::Reassign(vec![DispatchWrite::EndShift { operator_id: 4 }])
    );
}
