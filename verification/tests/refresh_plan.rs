use booklog::ids::UserId;
use booklog::services::{RefreshPlan, TimelineInvalidation, plan_refresh, users_to_recompute};

fn entity(entity_type: &str, entity_id: i64) -> TimelineInvalidation {
    TimelineInvalidation::specific(entity_type, entity_id)
}

#[test]
fn refresh_plan_refreshes_each_entity_once() {
    let signals = vec![
        entity("book", 3),
        entity("author", 1),
        entity("book", 3),
        entity("book", 4),
        entity("author", 1),
    ];
    match plan_refresh(&signals) {
        RefreshPlan::Entities(v) => assert_eq!(
            v,
            vec![
                ("book".to_string(), 3),
                ("author".to_string(), 1),
                ("book".to_string(), 4),
            ]
        ),
        RefreshPlan::Full => panic!("no signal asked for a full rebuild"),
    }
}

#[test]
fn refresh_plan_is_full_when_any_signal_asks_for_it() {
    let signals = vec![entity("genre", 2), TimelineInvalidation::Full, entity("book", 5)];
    assert!(matches!(plan_refresh(&signals), RefreshPlan::Full));
}

#[test]
fn refresh_plan_of_no_signals_refreshes_nothing() {
    match plan_refresh(&[]) {
        RefreshPlan::Entities(v) => assert!(v.is_empty()),
        RefreshPlan::Full => panic!("no signal asked for a full rebuild"),
    }
}

#[test]
fn stats_are_recomputed_once_per_signalled_user() {
    let signals = [UserId::new(4), UserId::new(2), UserId::new(4), UserId::new(4), UserId::new(9)];
    assert_eq!(
        users_to_recompute(&signals),
        vec![UserId::new(4), UserId::new(2), UserId::new(9)]
    );
    assert!(users_to_recompute(&[]).is_empty());
}
