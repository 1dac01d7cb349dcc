use admin_panel::shared::db::{
    delete_job_query_postgres, delete_job_query_sqlite, job_by_id_query_postgres,
    job_by_id_query_sqlite, update_status_query_postgres, update_status_query_sqlite, JobStatus,
};
use sqlx::Arguments;

const JOB_ID: &str = "01JDM0X8EVAM823JZBGKYNBA99";

#[test]
fn postgres_job_by_id_binds_the_id() {
    let (sql, args) = job_by_id_query_postgres(JOB_ID).expect("bindable");
    assert_eq!(sql, "SELECT * FROM pg_loco_queue WHERE id = $1");
    assert_eq!(args.len(), 1);
}

#[test]
fn sqlite_job_by_id_binds_the_id() {
    let (sql, args) = job_by_id_query_sqlite(JOB_ID);
    assert_eq!(sql, "SELECT * FROM sqlt_loco_queue WHERE id = ?");
    assert_eq!(args.len(), 1);
    assert!(format!("{args:?}").contains(JOB_ID));
}

#[test]
fn postgres_delete_job_binds_the_id() {
    let (sql, args) = delete_job_query_postgres(JOB_ID).expect("bindable");
    assert_eq!(sql, "DELETE FROM pg_loco_queue WHERE id = $1");
    assert_eq!(args.len(), 1);
}

#[test]
fn sqlite_delete_job_binds_the_id() {
    let (sql, args) = delete_job_query_sqlite(JOB_ID);
    assert_eq!(sql, "DELETE FROM sqlt_loco_queue WHERE id = ?");
    assert_eq!(args.len(), 1);
    assert!(format!("{args:?}").contains(JOB_ID));
}

#[test]
fn postgres_update_status_binds_status_then_id() {
    let (sql, args) = update_status_query_postgres(&JobStatus::Failed, JOB_ID).expect("bindable");
    assert_eq!(
        sql,
        "UPDATE pg_loco_queue \n                 SET status = $1 \n                 WHERE id = $2 \n                 RETURNING *"
    );
    assert_eq!(args.len(), 2);
}

#[test]
fn sqlite_update_status_binds_status_then_id() {
    let (sql, args) = update_status_query_sqlite(&JobStatus::Queued, JOB_ID);
    assert_eq!(
        sql,
        "UPDATE sqlt_loco_queue \n                 SET status = ? \n                 WHERE id = ? \n                 RETURNING *"
    );
    assert_eq!(args.len(), 2);
    let shown = format!("{args:?}");
    let status_at = shown.find("\"queued\"").expect("status bound");
    let id_at = shown.find(JOB_ID).expect("id bound");
    assert!(status_at < id_at);
}
