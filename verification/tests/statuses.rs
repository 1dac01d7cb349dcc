use admin_panel::shared::db::{JobStatus, StatusSats};

fn rows(items: &[(&str, i64)]) -> Vec<(String, i64)> {
    items.iter().map(|(name, count)| (name.to_string(), *count)).collect()
}

#[test]
fn status_names_are_the_stored_texts() {
    assert_eq!(JobStatus::Queued.to_string(), "queued");
    assert_eq!(JobStatus::Completed.to_string(), "completed");
    assert_eq!(JobStatus::Processing.to_string(), "processing");
    assert_eq!(JobStatus::Failed.to_string(), "failed");
    assert_eq!(JobStatus::Cancelled.to_string(), "cancelled");
}

#[test]
fn default_stats_are_zero() {
    let s = StatusSats::default();
    assert_eq!(
        (s.completed, s.processing, s.cancelled, s.queued, s.failed),
        (0, 0, 0, 0, 0)
    );
}

#[test]
fn stats_from_grouped_rows() {
    let s = StatusSats::from_rows(&rows(&[
        ("queued", 3),
        ("completed", 7),
        ("failed", 1),
        ("processing", 2),
        ("cancelled", 5),
    ]));
    assert_eq!(s.queued, 3);
    assert_eq!(s.completed, 7);
    assert_eq!(s.failed, 1);
    assert_eq!(s.processing, 2);
    assert_eq!(s.cancelled, 5);
}

#[test]
fn stats_missing_status_counts_zero() {
    let s = StatusSats::from_rows(&rows(&[("completed", 4)]));
    assert_eq!(s.completed, 4);
    assert_eq!(
        (s.processing, s.cancelled, s.queued, s.failed),
        (0, 0, 0, 0)
    );
}

#[test]
fn stats_of_no_rows_are_zero() {
    let s = StatusSats::from_rows(&Vec::new());
    assert_eq!(
        (s.completed, s.processing, s.cancelled, s.queued, s.failed),
        (0, 0, 0, 0, 0)
    );
}

#[test]
fn stats_later_row_wins() {
    let s = StatusSats::from_rows(&rows(&[("queued", 3), ("failed", 9), ("queued", 8)]));
    assert_eq!(s.queued, 8);
    assert_eq!(s.failed, 9);
}

#[test]
fn stats_ignore_unknown_status() {
    let with = StatusSats::from_rows(&rows(&[("queued", 3), ("paused", 40), ("Queued", 6)]));
    let without = StatusSats::from_rows(&rows(&[("queued", 3)]));
    assert_eq!(with.queued, without.queued);
    assert_eq!(
        (with.completed, with.processing, with.cancelled, with.failed),
        (0, 0, 0, 0)
    );
}
