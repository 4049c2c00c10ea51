use tui_coach::domain::{
    build_coach_views, build_player_views, find_subscription, make_session_record, MarkOutcome,
    SubscriptionTable,
};
use tui_coach::models::{Session, SkillLevel, Subscription, SubscriptionStatus};
use tui_coach::ui::session_filter::SessionFilter;
use tui_coach::ui::session_form::SessionForm;

fn session(id: i64, title: &str, created_by: i64) -> Session {
    Session {
        id,
        title: title.to_string(),
        description: None,
        scheduled_date: None,
        scheduled_time: None,
        duration_minutes: None,
        skill_level: None,
        created_by,
        created_at: 0,
        updated_at: 0,
    }
}

fn rows_equal(a: &[Subscription], b: &[Subscription]) -> bool {
    a.len() == b.len()
        && a.iter().zip(b.iter()).all(|(x, y)| {
            x.id == y.id
                && x.user_id == y.user_id
                && x.session_id == y.session_id
                && x.subscribed_at == y.subscribed_at
                && x.completed_at == y.completed_at
                && x.status == y.status
                && x.notes == y.notes
        })
}

#[test]
fn test_is_subscribed() {
    let mut table = SubscriptionTable::new();

    // Not subscribed initially
    assert!(!table.is_subscribed(2, 10));

    // Subscribe
    assert!(table.subscribe(1, 2, 10, 100).is_ok());

    // Now subscribed
    assert!(table.is_subscribed(2, 10));
}

#[test]
fn test_find_by_user_and_session() {
    let mut table = SubscriptionTable::new();

    // No subscription initially
    assert!(table.find_by_user_and_session(2, 10).is_none());

    // Create subscription
    assert!(table.subscribe(1, 2, 10, 100).is_ok());

    // Now found
    let result = table.find_by_user_and_session(2, 10);
    assert!(result.is_some());

    let subscription = result.unwrap();
    assert_eq!(subscription.user_id, 2);
    assert_eq!(subscription.session_id, 10);
    assert_eq!(subscription.status, SubscriptionStatus::Active);
    assert_eq!(subscription.completed_at, None);
}

#[test]
fn test_mark_completed() {
    let mut table = SubscriptionTable::new();
    assert!(table.subscribe(1, 2, 10, 100).is_ok());

    // Not completed initially
    let subscription = table.find_by_user_and_session(2, 10).unwrap();
    assert!(subscription.completed_at.is_none());

    // Mark as completed
    assert_eq!(table.mark_session_complete(2, 10, 200), MarkOutcome::Completed);

    // Now completed
    let subscription = table.find_by_user_and_session(2, 10).unwrap();
    assert!(subscription.completed_at.is_some());
    assert_eq!(subscription.status, SubscriptionStatus::Completed);
}

#[test]
fn test_delete_by_user_and_session() {
    let mut table = SubscriptionTable::new();
    assert!(table.subscribe(1, 2, 10, 100).is_ok());

    // Exists
    assert!(table.is_subscribed(2, 10));

    // Delete by user and session
    table.unsubscribe(2, 10);

    // No longer exists
    assert!(!table.is_subscribed(2, 10));
}

#[test]
fn test_unique_constraint() {
    let mut table = SubscriptionTable::new();

    // First subscription succeeds
    assert!(table.subscribe(1, 2, 10, 100).is_ok());

    // Second subscription to same session should fail (unique constraint)
    let result = table.subscribe(2, 2, 10, 101);
    assert!(result.is_err());
    assert_eq!(table.rows.len(), 1);
}

#[test]
fn test_subscribe_unsubscribe_roundtrip() {
    let mut table = SubscriptionTable::new();
    assert!(table.subscribe(1, 3, 20, 50).is_ok());
    assert!(table.subscribe(2, 2, 10, 60).is_ok());
    let before = table.rows.clone();

    // Subscribe a fresh pair, then unsubscribe it again
    assert!(table.subscribe(7, 5, 20, 100).is_ok());
    assert_eq!(table.rows.len(), 3);
    table.unsubscribe(5, 20);

    // The table is exactly as before
    assert!(rows_equal(&table.rows, &before));
}

#[test]
fn test_mark_complete_twice_updates_once() {
    let mut table = SubscriptionTable::new();
    assert!(table.subscribe(1, 2, 10, 100).is_ok());

    assert_eq!(table.mark_session_complete(2, 10, 200), MarkOutcome::Completed);
    let first = table.find_by_user_and_session(2, 10).unwrap();
    assert_eq!(first.completed_at, Some(200));

    // The second call reports "already complete" and keeps the timestamp
    assert_eq!(
        table.mark_session_complete(2, 10, 300),
        MarkOutcome::AlreadyComplete
    );
    let second = table.find_by_user_and_session(2, 10).unwrap();
    assert_eq!(second.completed_at, Some(200));
}

#[test]
fn test_mark_complete_requires_subscription() {
    let mut table = SubscriptionTable::new();
    assert_eq!(
        table.mark_session_complete(2, 10, 200),
        MarkOutcome::NotSubscribed
    );
    assert_eq!(table.rows.len(), 0);
}

#[test]
fn test_player_views_annotation_and_filter() {
    let sessions = vec![
        session(10, "Serve Basics", 1),
        session(11, "Footwork", 1),
        session(12, "Backhand Clinic", 1),
    ];
    let mut table = SubscriptionTable::new();
    assert!(table.subscribe(1, 2, 10, 100).is_ok());
    assert!(table.subscribe(2, 2, 12, 110).is_ok());

    let all = build_player_views(&sessions, &table.rows, 2, &SessionFilter::AllAvailable);
    assert_eq!(all.len(), 3);
    assert!(all[0].is_subscribed());
    assert!(!all[1].is_subscribed());
    assert!(all[2].is_subscribed());

    // MySubscriptions is exactly the subscribed subset of AllAvailable
    let mine = build_player_views(&sessions, &table.rows, 2, &SessionFilter::MySubscriptions);
    assert_eq!(mine.len(), 2);
    assert_eq!(mine[0].session.id, 10);
    assert_eq!(mine[1].session.id, 12);
}

#[test]
fn test_player_views_ignore_other_users() {
    let sessions = vec![session(10, "Serve Basics", 1)];
    let mut table = SubscriptionTable::new();
    assert!(table.subscribe(1, 9, 10, 100).is_ok());

    let mine = build_player_views(&sessions, &table.rows, 2, &SessionFilter::MySubscriptions);
    assert_eq!(mine.len(), 0);
    assert!(find_subscription(&table.rows, 2, 10).is_none());
    assert!(find_subscription(&table.rows, 9, 10).is_some());
}

#[test]
fn test_coach_views_only_own_sessions() {
    let sessions = vec![
        session(10, "Serve Basics", 1),
        session(11, "Footwork", 4),
        session(12, "Backhand Clinic", 1),
    ];
    let views = build_coach_views(&sessions, 1);
    assert_eq!(views.len(), 2);
    assert_eq!(views[0].session.id, 10);
    assert_eq!(views[1].session.id, 12);
    assert!(!views[0].is_subscribed());
}

#[test]
fn test_empty_listing() {
    let sessions: Vec<Session> = Vec::new();
    let table = SubscriptionTable::new();
    let all = build_player_views(&sessions, &table.rows, 2, &SessionFilter::AllAvailable);
    assert_eq!(all.len(), 0);
    let views = build_coach_views(&sessions, 1);
    assert_eq!(views.len(), 0);
}

#[test]
fn test_make_session_record_normalizes_dates() {
    let record = make_session_record(
        "Serve Clinic".to_string(),
        String::new(),
        Some("2026-02-15".to_string()),
        Some("14:30".to_string()),
        Some(60),
        "advanced",
    );
    assert_eq!(record.title, "Serve Clinic");
    assert_eq!(record.description, None);
    assert_eq!(record.scheduled_date, Some("2026-02-15".to_string()));
    assert_eq!(record.scheduled_time, Some("14:30".to_string()));
    assert_eq!(record.duration_minutes, Some(60));
    assert_eq!(record.skill_level, Some(SkillLevel::Advanced));
}

#[test]
fn test_make_session_record_drops_invalid_date_and_time() {
    let record = make_session_record(
        "Serve Clinic".to_string(),
        "Notes".to_string(),
        Some("2026-99-99".to_string()),
        Some("25:99".to_string()),
        None,
        "unknown",
    );
    assert_eq!(record.description, Some("Notes".to_string()));
    assert_eq!(record.scheduled_date, None);
    assert_eq!(record.scheduled_time, None);
    assert_eq!(record.skill_level, None);
}

#[test]
fn test_serve_clinic_scenario() {
    // The coach fills the creation form
    let mut form = SessionForm::new();
    form.title = "Serve Clinic".to_string();
    form.duration_minutes = "60".to_string();
    form.skill_level = "advanced".to_string();
    assert!(form.validate().is_ok());
    let (title, desc, date, time, duration, skill) = form.as_db_values();
    let record = make_session_record(title, desc, date, time, duration, &skill);
    assert_eq!(record.duration_minutes, Some(60));
    assert_eq!(record.skill_level, Some(SkillLevel::Advanced));

    // The store assigns an id and the coach's listing includes it
    let stored = Session {
        id: 10,
        title: record.title.clone(),
        description: record.description.clone(),
        scheduled_date: record.scheduled_date.clone(),
        scheduled_time: record.scheduled_time.clone(),
        duration_minutes: record.duration_minutes,
        skill_level: record.skill_level,
        created_by: 1,
        created_at: 100,
        updated_at: 100,
    };
    let sessions = vec![stored];
    let coach_views = build_coach_views(&sessions, 1);
    assert_eq!(coach_views.len(), 1);
    assert_eq!(coach_views[0].session.title, "Serve Clinic");

    // A player who has not subscribed sees it only under AllAvailable
    let mut table = SubscriptionTable::new();
    let all = build_player_views(&sessions, &table.rows, 2, &SessionFilter::AllAvailable);
    assert_eq!(all.len(), 1);
    let mine = build_player_views(&sessions, &table.rows, 2, &SessionFilter::MySubscriptions);
    assert_eq!(mine.len(), 0);

    // After subscribing it also appears under MySubscriptions
    assert!(table.subscribe(1, 2, 10, 200).is_ok());
    let mine = build_player_views(&sessions, &table.rows, 2, &SessionFilter::MySubscriptions);
    assert_eq!(mine.len(), 1);
    assert!(mine[0].is_subscribed());

    // After mark-complete the detail view reports the session completed
    assert_eq!(table.mark_session_complete(2, 10, 300), MarkOutcome::Completed);
    let detail = build_player_views(&sessions, &table.rows, 2, &SessionFilter::AllAvailable);
    assert!(detail[0].is_completed());
    assert_eq!(
        detail[0].subscription.as_ref().unwrap().status,
        SubscriptionStatus::Completed
    );
}
