use sqlx::Arguments;
use admin_panel::shared::db::{active, jobs_query_postgres, jobs_query_sqlite, Backend};

fn some(s: &str) -> Option<String> {
    Some(s.to_string())
}

#[test]
fn active_filter_drops_empty_text() {
    assert_eq!(active(None), None);
    assert_eq!(active(some("")), None);
    assert_eq!(active(some("completed")), some("completed"));
}

#[test]
fn postgres_jobs_query_without_filters() {
    let (sql, _args) = jobs_query_postgres(None, None);
    assert_eq!(
        sql,
        "SELECT * FROM pg_loco_queue WHERE 1=1  ORDER BY created_at DESC"
    );
}

#[test]
fn postgres_jobs_query_by_status() {
    let (sql, _args) = jobs_query_postgres(None, some("completed"));
    assert_eq!(
        sql,
        "SELECT * FROM pg_loco_queue WHERE 1=1  AND status = $1 ORDER BY created_at DESC"
    );
}

#[test]
fn postgres_jobs_query_by_name() {
    let (sql, _args) = jobs_query_postgres(some("UserAccountActivation"), None);
    assert_eq!(
        sql,
        "SELECT * FROM pg_loco_queue WHERE 1=1  AND name ILIKE $1 ORDER BY created_at DESC"
    );
}

#[test]
fn postgres_jobs_query_by_status_and_name() {
    let (sql, _args) = jobs_query_postgres(some("UserAccountActivation"), some("completed"));
    assert_eq!(
        sql,
        "SELECT * FROM pg_loco_queue WHERE 1=1  AND status = $1 AND name ILIKE $2 ORDER BY created_at DESC"
    );
}

#[test]
fn postgres_jobs_query_empty_filters_are_ignored() {
    let (sql, _args) = jobs_query_postgres(some(""), some(""));
    assert_eq!(
        sql,
        "SELECT * FROM pg_loco_queue WHERE 1=1  ORDER BY created_at DESC"
    );
}

#[test]
fn sqlite_jobs_query_without_filters() {
    let (sql, _args) = jobs_query_sqlite(None, None);
    assert_eq!(
        sql,
        "SELECT * FROM sqlt_loco_queue WHERE 1=1  ORDER BY created_at DESC"
    );
}

#[test]
fn sqlite_jobs_query_by_status() {
    let (sql, _args) = jobs_query_sqlite(None, some("completed"));
    assert_eq!(
        sql,
        "SELECT * FROM sqlt_loco_queue WHERE 1=1  AND status = ? ORDER BY created_at DESC"
    );
}

#[test]
fn sqlite_jobs_query_by_name() {
    let (sql, _args) = jobs_query_sqlite(some("UserAccountActivation"), None);
    assert_eq!(
        sql,
        "SELECT * FROM sqlt_loco_queue WHERE 1=1  AND name LIKE ? ORDER BY created_at DESC"
    );
}

#[test]
fn sqlite_jobs_query_by_status_and_name() {
    let (sql, _args) = jobs_query_sqlite(some("UserAccountActivation"), some("completed"));
    assert_eq!(
        sql,
        "SELECT * FROM sqlt_loco_queue WHERE 1=1  AND status = ? AND name LIKE ? ORDER BY created_at DESC"
    );
}

#[test]
fn sqlite_jobs_query_empty_filters_are_ignored() {
    let (sql, _args) = jobs_query_sqlite(some(""), some(""));
    assert_eq!(
        sql,
        "SELECT * FROM sqlt_loco_queue WHERE 1=1  ORDER BY created_at DESC"
    );
}

#[test]
fn status_stats_sql_per_backend() {
    assert_eq!(
        Backend::Postgres.status_stats_sql(),
        "SELECT status, COUNT(*) FROM pg_loco_queue GROUP BY status"
    );
    assert_eq!(
        Backend::Sqlite.status_stats_sql(),
        "SELECT status, COUNT(*) FROM sqlt_loco_queue GROUP BY status"
    );
}

#[test]
fn job_by_id_sql_per_backend() {
    assert_eq!(
        Backend::Postgres.job_by_id_sql(),
        "SELECT * FROM pg_loco_queue WHERE id = $1"
    );
    assert_eq!(
        Backend::Sqlite.job_by_id_sql(),
        "SELECT * FROM sqlt_loco_queue WHERE id = ?"
    );
}

#[test]
fn delete_job_sql_per_backend() {
    assert_eq!(
        Backend::Postgres.delete_job_sql(),
        "DELETE FROM pg_loco_queue WHERE id = $1"
    );
    assert_eq!(
        Backend::Sqlite.delete_job_sql(),
        "DELETE FROM sqlt_loco_queue WHERE id = ?"
    );
}

#[test]
fn update_status_sql_per_backend() {
    assert_eq!(
        Backend::Postgres.update_status_sql(),
        "UPDATE pg_loco_queue \n                 SET status = $1 \n                 WHERE id = $2 \n                 RETURNING *"
    );
    assert_eq!(
        Backend::Sqlite.update_status_sql(),
        "UPDATE sqlt_loco_queue \n                 SET status = ? \n                 WHERE id = ? \n                 RETURNING *"
    );
}

fn bound_count_postgres(search: Option<String>, status: Option<String>) -> usize {
    let (_sql, args) = jobs_query_postgres(search, status);
    args.len()
}

fn bound_count_sqlite(search: Option<String>, status: Option<String>) -> usize {
    let (_sql, args) = jobs_query_sqlite(search, status);
    args.len()
}

#[test]
fn jobs_query_binds_one_value_per_filter() {
    assert_eq!(bound_count_postgres(None, None), 0);
    assert_eq!(bound_count_postgres(None, some("completed")), 1);
    assert_eq!(bound_count_postgres(some("UserAccountActivation"), some("completed")), 2);
    assert_eq!(bound_count_postgres(some(""), some("")), 0);
    assert_eq!(bound_count_sqlite(None, None), 0);
    assert_eq!(bound_count_sqlite(some("UserAccountActivation"), None), 1);
    assert_eq!(bound_count_sqlite(some("UserAccountActivation"), some("completed")), 2);
}

#[test]
fn sqlite_jobs_query_binds_status_then_pattern() {
    let (_sql, args) = jobs_query_sqlite(some("UserAccountActivation"), some("completed"));
    let shown = format!("{args:?}");
    let status_at = shown.find("\"completed\"").expect("status bound");
    let pattern_at = shown.find("\"%UserAccountActivation%\"").expect("pattern bound");
    assert!(status_at < pattern_at);
}
