//! The job queue as the panel sees it: job statuses, the statistics shown on
//! the home page, and the SQL sent to the Postgres or SQLite queue table.
use crate::shared::sql_builder::{
    pg_args_add, pg_args_new, pg_args_values, pg_bindable, pg_placeholder, pg_query_finish,
    pg_query_args, pg_query_new, pg_query_push, pg_query_push_bind, pg_query_sql,
    sqlite_args_add, sqlite_args_new, sqlite_query_args, sqlite_query_sql,
    decimal, sqlite_args_values, sqlite_query_into_sql, sqlite_query_new, sqlite_query_push,
    sqlite_query_push_bind,
};
use sqlx::postgres::PgArguments;
use sqlx::sqlite::SqliteArguments;
use vstd::prelude::*;

verus! {

/// The states a queued job can be in.
#[derive(Debug, Clone, Copy, PartialEq, Eq, Structural)]
pub enum JobStatus {
    Queued,
    Completed,
    Processing,
    Failed,
    Cancelled,
}

/// The name under which a status is stored in the queue table.
pub open spec fn status_name(status: JobStatus) -> Seq<char> {
    match status {
        JobStatus::Queued => "queued"@,
        JobStatus::Completed => "completed"@,
        JobStatus::Processing => "processing"@,
        JobStatus::Failed => "failed"@,
        JobStatus::Cancelled => "cancelled"@,
    }
}

impl JobStatus {
    /// The status as the text stored in the `status` column.
    pub fn to_string(&self) -> (s: String)
        ensures
            s@ == status_name(*self),
    {
        match self {
            JobStatus::Queued => String::from_str("queued"),
            JobStatus::Completed => String::from_str("completed"),
            JobStatus::Processing => String::from_str("processing"),
            JobStatus::Failed => String::from_str("failed"),
            JobStatus::Cancelled => String::from_str("cancelled"),
        }
    }
}

/// Distinct statuses are stored under distinct names.
pub proof fn lemma_status_names_distinct(a: JobStatus, b: JobStatus)
    ensures
        status_name(a) == status_name(b) <==> a == b,
{
    reveal_strlit("queued");
    reveal_strlit("completed");
    reveal_strlit("processing");
    reveal_strlit("failed");
    reveal_strlit("cancelled");
    if a != b {
        let (x, y) = (status_name(a), status_name(b));
        if x.len() == y.len() {
            assert(x[0] != y[0] || x[1] != y[1]);
        }
    }
}

/// The five status names are pairwise distinct.
pub open spec fn status_names_distinct() -> bool {
    forall|a: JobStatus, b: JobStatus|
        #![trigger status_name(a), status_name(b)]
        status_name(a) == status_name(b) ==> a == b
}

proof fn lemma_all_status_names_distinct()
    ensures
        status_names_distinct(),
{
    assert forall|a: JobStatus, b: JobStatus|
        #![trigger status_name(a), status_name(b)]
        status_name(a) == status_name(b) implies a == b by {
        lemma_status_names_distinct(a, b);
    }
}

/// Number of jobs in each status.
#[derive(Debug)]
pub struct StatusSats {
    pub completed: i64,
    pub processing: i64,
    pub cancelled: i64,
    pub queued: i64,
    pub failed: i64,
}

impl StatusSats {
    /// The count that the statistics give for `status`.
    pub open spec fn count(self, status: JobStatus) -> i64 {
        match status {
            JobStatus::Queued => self.queued,
            JobStatus::Completed => self.completed,
            JobStatus::Processing => self.processing,
            JobStatus::Failed => self.failed,
            JobStatus::Cancelled => self.cancelled,
        }
    }
}

impl Default for StatusSats {
    fn default() -> (s: Self)
        ensures
            forall|status: JobStatus| #[trigger] s.count(status) == 0,
    {
        StatusSats { completed: 0, processing: 0, cancelled: 0, queued: 0, failed: 0 }
    }
}

/// The count of the last row named `name`, or 0 when no row is: the rows
/// are read as a map from status name to count, later rows replacing
/// earlier ones.
pub open spec fn last_count(rows: Seq<(String, i64)>, name: Seq<char>) -> i64
    decreases rows.len(),
{
    if rows.len() == 0 {
        0
    } else if rows.last().0@ == name {
        rows.last().1
    } else {
        last_count(rows.drop_last(), name)
    }
}

/// The statistics that a list of (status, count) rows describes.
pub open spec fn stats_of(rows: Seq<(String, i64)>) -> StatusSats {
    StatusSats {
        completed: last_count(rows, status_name(JobStatus::Completed)),
        processing: last_count(rows, status_name(JobStatus::Processing)),
        cancelled: last_count(rows, status_name(JobStatus::Cancelled)),
        queued: last_count(rows, status_name(JobStatus::Queued)),
        failed: last_count(rows, status_name(JobStatus::Failed)),
    }
}

impl StatusSats {
    /// Statistics from the rows of `SELECT status, COUNT(*) ... GROUP BY status`.
    pub fn from_rows(rows: &Vec<(String, i64)>) -> (s: StatusSats)
        ensures
            s == stats_of(rows@),
    {
        let completed = JobStatus::Completed.to_string();
        let processing = JobStatus::Processing.to_string();
        let cancelled = JobStatus::Cancelled.to_string();
        let queued = JobStatus::Queued.to_string();
        let failed = JobStatus::Failed.to_string();
        let mut s = StatusSats { completed: 0, processing: 0, cancelled: 0, queued: 0, failed: 0 };
        proof {
            lemma_all_status_names_distinct();
        }
        let mut i: usize = 0;
        while i < rows.len()
            invariant
                i <= rows.len(),
                completed@ == status_name(JobStatus::Completed),
                processing@ == status_name(JobStatus::Processing),
                cancelled@ == status_name(JobStatus::Cancelled),
                queued@ == status_name(JobStatus::Queued),
                failed@ == status_name(JobStatus::Failed),
                s == stats_of(rows@.take(i as int)),
                status_names_distinct(),
            decreases rows.len() - i,
        {
            proof {
                let next = rows@.take(i + 1);
                assert(next.drop_last() =~= rows@.take(i as int));
                assert(next.last() == rows@[i as int]);
            }
            let name = &rows[i].0;
            let count = rows[i].1;
            if *name == completed {
                s.completed = count;
            } else if *name == processing {
                s.processing = count;
            } else if *name == cancelled {
                s.cancelled = count;
            } else if *name == queued {
                s.queued = count;
            } else if *name == failed {
                s.failed = count;
            }
            i = i + 1;
        }
        assert(rows@.take(rows@.len() as int) =~= rows@);
        s
    }
}

/// Each field of the statistics is the count of the status it is named after.
pub proof fn lemma_stats_count(rows: Seq<(String, i64)>, status: JobStatus)
    ensures
        stats_of(rows).count(status) == last_count(rows, status_name(status)),
{
}

/// With no rows, every status counts 0, as in the default statistics.
pub proof fn lemma_stats_of_no_rows(status: JobStatus)
    ensures
        stats_of(Seq::empty()).count(status) == 0,
{
}

/// A later row replaces what earlier rows said of its status and leaves the
/// other statuses as they were.
pub proof fn lemma_stats_later_row_wins(
    rows: Seq<(String, i64)>,
    row: (String, i64),
    status: JobStatus,
)
    ensures
        stats_of(rows.push(row)).count(status) == if row.0@ == status_name(status) {
            row.1
        } else {
            stats_of(rows).count(status)
        },
{
    assert(rows.push(row).drop_last() =~= rows);
}

/// A row whose name is no job status does not change the statistics.
pub proof fn lemma_stats_ignore_unknown_status(rows: Seq<(String, i64)>, row: (String, i64))
    requires
        forall|status: JobStatus| row.0@ != #[trigger] status_name(status),
    ensures
        stats_of(rows.push(row)) == stats_of(rows),
{
    assert(rows.push(row).drop_last() =~= rows);
    assert(row.0@ != status_name(JobStatus::Completed));
    assert(row.0@ != status_name(JobStatus::Processing));
    assert(row.0@ != status_name(JobStatus::Cancelled));
    assert(row.0@ != status_name(JobStatus::Queued));
    assert(row.0@ != status_name(JobStatus::Failed));
}

/// No row of that name: the count is 0.
pub proof fn lemma_last_count_absent(rows: Seq<(String, i64)>, name: Seq<char>)
    requires
        forall|i: int| 0 <= i < rows.len() ==> (#[trigger] rows[i]).0@ != name,
    ensures
        last_count(rows, name) == 0,
    decreases rows.len(),
{
    if rows.len() > 0 {
        assert(rows.last() == rows[rows.len() - 1]);
        let rest = rows.drop_last();
        assert forall|i: int| 0 <= i < rest.len() implies (#[trigger] rest[i]).0@ != name by {
            assert(rest[i] == rows[i]);
        }
        lemma_last_count_absent(rest, name);
    }
}

/// Exactly one row of that name: the count is that row's.
pub proof fn lemma_last_count_unique(rows: Seq<(String, i64)>, name: Seq<char>, k: int)
    requires
        0 <= k < rows.len(),
        rows[k].0@ == name,
        forall|i: int| 0 <= i < rows.len() && i != k ==> (#[trigger] rows[i]).0@ != name,
    ensures
        last_count(rows, name) == rows[k].1,
    decreases rows.len(),
{
    let rest = rows.drop_last();
    if k == rows.len() - 1 {
    } else {
        assert(rows.last() == rows[rows.len() - 1]);
        assert forall|i: int| 0 <= i < rest.len() && i != k implies (#[trigger] rest[i]).0@
            != name by {
            assert(rest[i] == rows[i]);
        }
        assert(rest[k] == rows[k]);
        lemma_last_count_unique(rest, name, k);
    }
}

/// Grouped rows (one row per name, in any order): each status counts what
/// its row says, and a status without a row counts 0.
pub proof fn lemma_stats_of_grouped_rows(rows: Seq<(String, i64)>, status: JobStatus)
    requires
        forall|i: int, j: int|
            0 <= i < rows.len() && 0 <= j < rows.len() && i != j ==> (#[trigger] rows[i]).0@
                != (#[trigger] rows[j]).0@,
    ensures
        forall|k: int|
            0 <= k < rows.len() && (#[trigger] rows[k]).0@ == status_name(status) ==> stats_of(
                rows,
            ).count(status) == rows[k].1,
        (forall|k: int| 0 <= k < rows.len() ==> (#[trigger] rows[k]).0@ != status_name(status))
            ==> stats_of(rows).count(status) == 0,
{
    let name = status_name(status);
    assert forall|k: int|
        0 <= k < rows.len() && (#[trigger] rows[k]).0@ == name implies stats_of(rows).count(
        status,
    ) == rows[k].1 by {
        assert forall|i: int| 0 <= i < rows.len() && i != k implies (#[trigger] rows[i]).0@
            != name by {
            assert(rows[i].0@ != rows[k].0@);
        }
        lemma_last_count_unique(rows, name, k);
    }
    if forall|k: int| 0 <= k < rows.len() ==> (#[trigger] rows[k]).0@ != name {
        lemma_last_count_absent(rows, name);
    }
}

/// The database that holds the job queue.
#[derive(Debug, Clone, Copy, PartialEq, Eq, Structural)]
pub enum Backend {
    Postgres,
    Sqlite,
}

/// The `n`-th bind parameter (counted from 1) as the backend writes it.
pub open spec fn placeholder(backend: Backend, n: nat) -> Seq<char> {
    match backend {
        Backend::Postgres => pg_placeholder(n),
        Backend::Sqlite => seq!['?'],
    }
}

impl Backend {
    /// Counts the jobs of each status.
    pub fn status_stats_sql(&self) -> (sql: &'static str)
        ensures
            sql@ == match self {
                Backend::Postgres => "SELECT status, COUNT(*) FROM pg_loco_queue GROUP BY status"@,
                Backend::Sqlite => "SELECT status, COUNT(*) FROM sqlt_loco_queue GROUP BY status"@,
            },
    {
        match self {
            Backend::Postgres => "SELECT status, COUNT(*) FROM pg_loco_queue GROUP BY status",
            Backend::Sqlite => "SELECT status, COUNT(*) FROM sqlt_loco_queue GROUP BY status",
        }
    }

    /// Reads the job whose id is bound to the one parameter.
    pub fn job_by_id_sql(&self) -> (sql: &'static str)
        ensures
            sql@ == match self {
                Backend::Postgres => "SELECT * FROM pg_loco_queue WHERE id = $1"@,
                Backend::Sqlite => "SELECT * FROM sqlt_loco_queue WHERE id = ?"@,
            },
    {
        match self {
            Backend::Postgres => "SELECT * FROM pg_loco_queue WHERE id = $1",
            Backend::Sqlite => "SELECT * FROM sqlt_loco_queue WHERE id = ?",
        }
    }

    /// Deletes the job whose id is bound to the one parameter.
    pub fn delete_job_sql(&self) -> (sql: &'static str)
        ensures
            sql@ == match self {
                Backend::Postgres => "DELETE FROM pg_loco_queue WHERE id = $1"@,
                Backend::Sqlite => "DELETE FROM sqlt_loco_queue WHERE id = ?"@,
            },
    {
        match self {
            Backend::Postgres => "DELETE FROM pg_loco_queue WHERE id = $1",
            Backend::Sqlite => "DELETE FROM sqlt_loco_queue WHERE id = ?",
        }
    }

    /// Sets the status (first parameter) of the job whose id is the second
    /// parameter, and returns the updated row.
    pub fn update_status_sql(&self) -> (sql: &'static str)
        ensures
            sql@ == match self {
                Backend::Postgres => "UPDATE pg_loco_queue \n                 SET status = $1 \n                 WHERE id = $2 \n                 RETURNING *"@,
                Backend::Sqlite => "UPDATE sqlt_loco_queue \n                 SET status = ? \n                 WHERE id = ? \n                 RETURNING *"@,
            },
    {
        match self {
            Backend::Postgres => "UPDATE pg_loco_queue \n                 SET status = $1 \n                 WHERE id = $2 \n                 RETURNING *",
            Backend::Sqlite => "UPDATE sqlt_loco_queue \n                 SET status = ? \n                 WHERE id = ? \n                 RETURNING *",
        }
    }
}

/// An optional text as a value of the model.
pub open spec fn opt_view(o: Option<String>) -> Option<Seq<char>> {
    match o {
        Some(s) => Some(s@),
        None => None,
    }
}

/// A filter takes effect only when it is given and not empty.
pub open spec fn active_filter(filter: Option<Seq<char>>) -> Option<Seq<char>> {
    match filter {
        Some(s) => if s.len() > 0 {
            Some(s)
        } else {
            None
        },
        None => None,
    }
}

/// The `LIKE` pattern that matches names containing `text`.
pub open spec fn like_pattern(text: Seq<char>) -> Seq<char> {
    seq!['%'] + text + seq!['%']
}

/// The start of the job list query.
pub open spec fn jobs_select(backend: Backend) -> Seq<char> {
    match backend {
        Backend::Postgres => "SELECT * FROM pg_loco_queue WHERE 1=1 "@,
        Backend::Sqlite => "SELECT * FROM sqlt_loco_queue WHERE 1=1 "@,
    }
}

/// The name condition: case-insensitive `ILIKE` on Postgres, `LIKE` on SQLite.
pub open spec fn name_condition(backend: Backend) -> Seq<char> {
    match backend {
        Backend::Postgres => " AND name ILIKE "@,
        Backend::Sqlite => " AND name LIKE "@,
    }
}

/// The SQL text of the job list: all jobs, newest first, restricted to the
/// given status and to names containing the search text, each only when
/// given and not empty.
pub open spec fn jobs_sql(
    backend: Backend,
    search: Option<Seq<char>>,
    status: Option<Seq<char>>,
) -> Seq<char> {
    let by_status = active_filter(status) is Some;
    let by_name = active_filter(search) is Some;
    let n_before_name: nat = if by_status {
        1
    } else {
        0
    };
    jobs_select(backend) + (if by_status {
        " AND status = "@ + placeholder(backend, 1)
    } else {
        Seq::empty()
    }) + (if by_name {
        name_condition(backend) + placeholder(backend, n_before_name + 1)
    } else {
        Seq::empty()
    }) + " ORDER BY created_at DESC"@
}

/// The values bound to the job list query, in the order of their placeholders.
pub open spec fn jobs_args(search: Option<Seq<char>>, status: Option<Seq<char>>) -> Seq<
    Seq<char>,
> {
    (match active_filter(status) {
        Some(s) => seq![s],
        None => Seq::empty(),
    }) + (match active_filter(search) {
        Some(s) => seq![like_pattern(s)],
        None => Seq::empty(),
    })
}

/// Drops a filter that is empty.
pub fn active(filter: Option<String>) -> (r: Option<String>)
    ensures
        opt_view(r) == active_filter(opt_view(filter)),
{
    match filter {
        Some(s) => if s.as_str().is_empty() {
            None
        } else {
            Some(s)
        },
        None => None,
    }
}

/// `%text%`.
fn contains_pattern(text: &String) -> (p: String)
    ensures
        p@ == like_pattern(text@),
{
    let mut p = String::from_str("%");
    p.append(text.as_str());
    p.append("%");
    proof {
        reveal_strlit("%");
    }
    assert(p@ =~= like_pattern(text@));
    p
}

/// The job list query for Postgres: its SQL text and bound values.
pub fn jobs_query_postgres(search: Option<String>, status: Option<String>) -> (q: (
    String,
    PgArguments,
))
    requires
        active_filter(opt_view(status)) matches Some(s) ==> pg_bindable(s),
        active_filter(opt_view(search)) matches Some(s) ==> pg_bindable(like_pattern(s)),
    ensures
        q.0@ == jobs_sql(Backend::Postgres, opt_view(search), opt_view(status)),
        pg_args_values(q.1) == jobs_args(opt_view(search), opt_view(status)),
{
    let ghost search_v = opt_view(search);
    let ghost status_v = opt_view(status);
    let mut q = pg_query_new("SELECT * FROM pg_loco_queue WHERE 1=1 ");
    if let Some(status_filter) = active(status) {
        pg_query_push(&mut q, " AND status = ");
        pg_query_push_bind(&mut q, status_filter);
    }
    if let Some(search_filter) = active(search) {
        pg_query_push(&mut q, " AND name ILIKE ");
        pg_query_push_bind(&mut q, contains_pattern(&search_filter));
    }
    pg_query_push(&mut q, " ORDER BY created_at DESC");
    assert(pg_query_sql(q) =~= jobs_sql(Backend::Postgres, search_v, status_v));
    assert(pg_query_args(q) =~= jobs_args(search_v, status_v));
    let (sql, args) = pg_query_finish(q);
    match args {
        Some(args) => (sql, args),
        None => {
            unreached()
        },
    }
}

/// The job list query for SQLite: its SQL text and bound values.
pub fn jobs_query_sqlite(search: Option<String>, status: Option<String>) -> (q: (
    String,
    SqliteArguments<'static>,
))
    ensures
        q.0@ == jobs_sql(Backend::Sqlite, opt_view(search), opt_view(status)),
        sqlite_args_values(q.1) == jobs_args(opt_view(search), opt_view(status)),
{
    let ghost search_v = opt_view(search);
    let ghost status_v = opt_view(status);
    let mut q = sqlite_query_new("SELECT * FROM sqlt_loco_queue WHERE 1=1 ");
    let mut args = sqlite_args_new();
    if let Some(status_filter) = active(status) {
        sqlite_query_push(&mut q, " AND status = ");
        sqlite_query_push_bind(&mut q, status_filter.clone());
        let _ = sqlite_args_add(&mut args, status_filter);
    }
    if let Some(search_filter) = active(search) {
        sqlite_query_push(&mut q, " AND name LIKE ");
        let pattern = contains_pattern(&search_filter);
        sqlite_query_push_bind(&mut q, pattern.clone());
        let _ = sqlite_args_add(&mut args, pattern);
    }
    sqlite_query_push(&mut q, " ORDER BY created_at DESC");
    assert(sqlite_query_sql(q) =~= jobs_sql(Backend::Sqlite, search_v, status_v));
    assert(sqlite_query_args(q) =~= jobs_args(search_v, status_v));
    assert(sqlite_args_values(args) =~= jobs_args(search_v, status_v));
    (sqlite_query_into_sql(q), args)
}

/// A value that could not be bound: its position among the statement's
/// parameters (counted from 1) and the encoder's reason.
#[derive(Debug)]
pub struct BindError {
    pub argument: usize,
    pub reason: String,
}

/// Every status name can be bound on Postgres.
pub proof fn lemma_status_name_bindable(status: JobStatus)
    ensures
        pg_bindable(status_name(status)),
{
    reveal_strlit("queued");
    reveal_strlit("completed");
    reveal_strlit("processing");
    reveal_strlit("failed");
    reveal_strlit("cancelled");
    let name = status_name(status);
    assert(vstd::utf8::is_ascii_chars(name));
    vstd::utf8::is_ascii_chars_encode_utf8(name);
}

/// The arguments of a Postgres statement whose one parameter is a job id.
fn pg_job_id_args(job_id: &str) -> (r: Result<PgArguments, BindError>)
    ensures
        r is Ok <==> pg_bindable(job_id@),
        r matches Ok(a) ==> pg_args_values(a) == seq![job_id@],
        r matches Err(e) ==> e.argument == 1,
{
    let mut args = pg_args_new();
    match pg_args_add(&mut args, String::from_str(job_id)) {
        Ok(()) => {
            assert(pg_args_values(args) =~= seq![job_id@]);
            Ok(args)
        },
        Err(reason) => Err(BindError { argument: 1, reason }),
    }
}

/// The arguments of a SQLite statement whose one parameter is a job id.
fn sqlite_job_id_args(job_id: &str) -> (a: SqliteArguments<'static>)
    ensures
        sqlite_args_values(a) == seq![job_id@],
{
    let mut args = sqlite_args_new();
    let _ = sqlite_args_add(&mut args, String::from_str(job_id));
    assert(sqlite_args_values(args) =~= seq![job_id@]);
    args
}

/// Reading job `job_id` on Postgres: the statement and its one bound value.
/// Binding fails exactly when the id does not fit the wire format.
pub fn job_by_id_query_postgres(job_id: &str) -> (r: Result<(&'static str, PgArguments), BindError>)
    ensures
        r is Ok <==> pg_bindable(job_id@),
        r matches Ok(q) ==> q.0@ == "SELECT * FROM pg_loco_queue WHERE id = $1"@ && pg_args_values(
            q.1,
        ) == seq![job_id@],
        r matches Err(e) ==> e.argument == 1,
{
    let sql = Backend::Postgres.job_by_id_sql();
    match pg_job_id_args(job_id) {
        Ok(args) => Ok((sql, args)),
        Err(e) => Err(e),
    }
}

/// Reading job `job_id` on SQLite: the statement and its one bound value.
pub fn job_by_id_query_sqlite(job_id: &str) -> (q: (&'static str, SqliteArguments<'static>))
    ensures
        q.0@ == "SELECT * FROM sqlt_loco_queue WHERE id = ?"@,
        sqlite_args_values(q.1) == seq![job_id@],
{
    (Backend::Sqlite.job_by_id_sql(), sqlite_job_id_args(job_id))
}

/// Deleting job `job_id` on Postgres: the statement and its one bound value.
/// Binding fails exactly when the id does not fit the wire format.
pub fn delete_job_query_postgres(job_id: &str) -> (r: Result<(&'static str, PgArguments), BindError>)
    ensures
        r is Ok <==> pg_bindable(job_id@),
        r matches Ok(q) ==> q.0@ == "DELETE FROM pg_loco_queue WHERE id = $1"@ && pg_args_values(
            q.1,
        ) == seq![job_id@],
        r matches Err(e) ==> e.argument == 1,
{
    let sql = Backend::Postgres.delete_job_sql();
    match pg_job_id_args(job_id) {
        Ok(args) => Ok((sql, args)),
        Err(e) => Err(e),
    }
}

/// Deleting job `job_id` on SQLite: the statement and its one bound value.
pub fn delete_job_query_sqlite(job_id: &str) -> (q: (&'static str, SqliteArguments<'static>))
    ensures
        q.0@ == "DELETE FROM sqlt_loco_queue WHERE id = ?"@,
        sqlite_args_values(q.1) == seq![job_id@],
{
    (Backend::Sqlite.delete_job_sql(), sqlite_job_id_args(job_id))
}

/// Setting the status of job `job_id` on Postgres: the statement, with the
/// status text bound first (`SET status = $1`) and the id second
/// (`WHERE id = $2`). Binding fails exactly when the id does not fit the
/// wire format; the status text always fits.
pub fn update_status_query_postgres(status: &JobStatus, job_id: &str) -> (r: Result<
    (&'static str, PgArguments),
    BindError,
>)
    ensures
        r is Ok <==> pg_bindable(job_id@),
        r matches Ok(q) ==> q.0@
            == "UPDATE pg_loco_queue \n                 SET status = $1 \n                 WHERE id = $2 \n                 RETURNING *"@
            && pg_args_values(q.1) == seq![status_name(*status), job_id@],
        r matches Err(e) ==> e.argument == 2,
{
    proof {
        lemma_status_name_bindable(*status);
    }
    let sql = Backend::Postgres.update_status_sql();
    let mut args = pg_args_new();
    match pg_args_add(&mut args, status.to_string()) {
        Ok(()) => {},
        Err(reason) => {
            return Err(BindError { argument: 1, reason });
        },
    }
    match pg_args_add(&mut args, String::from_str(job_id)) {
        Ok(()) => {
            assert(pg_args_values(args) =~= seq![status_name(*status), job_id@]);
            Ok((sql, args))
        },
        Err(reason) => Err(BindError { argument: 2, reason }),
    }
}

/// Setting the status of job `job_id` on SQLite: the statement, with the
/// status text bound first (`SET status = ?`) and the id second
/// (`WHERE id = ?`).
pub fn update_status_query_sqlite(status: &JobStatus, job_id: &str) -> (q: (
    &'static str,
    SqliteArguments<'static>,
))
    ensures
        q.0@
            == "UPDATE sqlt_loco_queue \n                 SET status = ? \n                 WHERE id = ? \n                 RETURNING *"@,
        sqlite_args_values(q.1) == seq![status_name(*status), job_id@],
{
    let sql = Backend::Sqlite.update_status_sql();
    let mut args = sqlite_args_new();
    let _ = sqlite_args_add(&mut args, status.to_string());
    let _ = sqlite_args_add(&mut args, String::from_str(job_id));
    assert(sqlite_args_values(args) =~= seq![status_name(*status), job_id@]);
    (sql, args)
}

/// An empty filter is no filter: the job list query is the same as with
/// the filter left out.
pub proof fn lemma_empty_filter_is_no_filter(
    backend: Backend,
    search: Option<Seq<char>>,
    status: Option<Seq<char>>,
)
    ensures
        jobs_sql(backend, Some(Seq::empty()), status) == jobs_sql(backend, None, status),
        jobs_sql(backend, search, Some(Seq::empty())) == jobs_sql(backend, search, None),
        jobs_args(Some(Seq::empty()), status) == jobs_args(None, status),
        jobs_args(search, Some(Seq::empty())) == jobs_args(search, None),
{
}

/// The condition that restricts the job list to one status, with its
/// placeholder numbered `n`.
pub open spec fn status_condition(backend: Backend, n: nat) -> Seq<char> {
    " AND status = "@ + placeholder(backend, n)
}

/// The condition that restricts the job list to matching names, with its
/// placeholder numbered `n`.
pub open spec fn search_condition(backend: Backend, n: nat) -> Seq<char> {
    name_condition(backend) + placeholder(backend, n)
}

/// The unfiltered job list: every job, newest first.
pub open spec fn all_jobs_sql(backend: Backend) -> Seq<char> {
    jobs_select(backend) + " ORDER BY created_at DESC"@
}

/// Each filter adds exactly one `AND` condition to the unfiltered query and
/// binds exactly one value: the status as given, the search text as
/// `%text%`. The status condition comes first, so its placeholder is the
/// first and the search's is the next one.
pub proof fn lemma_each_filter_adds_one_condition(backend: Backend, search: Seq<char>, status: Seq<char>)
    requires
        search.len() > 0,
        status.len() > 0,
    ensures
        jobs_sql(backend, None, None) == all_jobs_sql(backend),
        jobs_args(None, None) == Seq::<Seq<char>>::empty(),
        jobs_sql(backend, None, Some(status)) == jobs_select(backend) + status_condition(backend, 1)
            + " ORDER BY created_at DESC"@,
        jobs_args(None, Some(status)) == seq![status],
        jobs_sql(backend, Some(search), None) == jobs_select(backend) + search_condition(backend, 1)
            + " ORDER BY created_at DESC"@,
        jobs_args(Some(search), None) == seq![like_pattern(search)],
        jobs_sql(backend, Some(search), Some(status)) == jobs_select(backend) + status_condition(
            backend,
            1,
        ) + search_condition(backend, 2) + " ORDER BY created_at DESC"@,
        jobs_args(Some(search), Some(status)) == seq![status, like_pattern(search)],
{
    assert(jobs_sql(backend, None, None) =~= all_jobs_sql(backend));
    assert(jobs_args(None, None) =~= Seq::<Seq<char>>::empty());
    assert(jobs_sql(backend, None, Some(status)) =~= jobs_select(backend) + status_condition(
        backend,
        1,
    ) + " ORDER BY created_at DESC"@);
    assert(jobs_args(None, Some(status)) =~= seq![status]);
    assert(jobs_sql(backend, Some(search), None) =~= jobs_select(backend) + search_condition(
        backend,
        1,
    ) + " ORDER BY created_at DESC"@);
    assert(jobs_args(Some(search), None) =~= seq![like_pattern(search)]);
    assert(jobs_sql(backend, Some(search), Some(status)) =~= jobs_select(backend)
        + status_condition(backend, 1) + search_condition(backend, 2)
        + " ORDER BY created_at DESC"@);
    assert(jobs_args(Some(search), Some(status)) =~= seq![status, like_pattern(search)]);
}

/// The job list text with its backend-specific parts given: the table's
/// `SELECT`, the name operator and the spelling of the first two placeholders.
pub open spec fn jobs_sql_shape(
    select: Seq<char>,
    name_op: Seq<char>,
    first: Seq<char>,
    second: Seq<char>,
    search: Option<Seq<char>>,
    status: Option<Seq<char>>,
) -> Seq<char> {
    let by_status = active_filter(status) is Some;
    let by_name = active_filter(search) is Some;
    select + (if by_status {
        " AND status = "@ + first
    } else {
        Seq::empty()
    }) + (if by_name {
        name_op + (if by_status {
            second
        } else {
            first
        })
    } else {
        Seq::empty()
    }) + " ORDER BY created_at DESC"@
}

/// Postgres and SQLite get the same job list query for the same filters:
/// the same conditions in the same order and the same bound values; the texts
/// differ only in the table, `ILIKE` against `LIKE`, and `$1`/`$2` against `?`.
pub proof fn lemma_backends_share_jobs_query(search: Option<Seq<char>>, status: Option<Seq<char>>)
    ensures
        jobs_sql(Backend::Postgres, search, status) == jobs_sql_shape(
            "SELECT * FROM pg_loco_queue WHERE 1=1 "@,
            " AND name ILIKE "@,
            pg_placeholder(1),
            pg_placeholder(2),
            search,
            status,
        ),
        jobs_sql(Backend::Sqlite, search, status) == jobs_sql_shape(
            "SELECT * FROM sqlt_loco_queue WHERE 1=1 "@,
            " AND name LIKE "@,
            seq!['?'],
            seq!['?'],
            search,
            status,
        ),
{
}

/// The statistics and the job list filtered by a status agree on the status
/// text: the count for `status` is read from the rows named
/// `status_name(status)`, and filtering by that name binds exactly that text.
pub proof fn lemma_stats_and_status_filter_agree(rows: Seq<(String, i64)>, status: JobStatus)
    ensures
        stats_of(rows).count(status) == last_count(rows, status_name(status)),
        jobs_args(None, Some(status_name(status))) == seq![status_name(status)],
{
    reveal_strlit("queued");
    reveal_strlit("completed");
    reveal_strlit("processing");
    reveal_strlit("failed");
    reveal_strlit("cancelled");
    assert(status_name(status).len() > 0);
    assert(jobs_args(None, Some(status_name(status))) =~= seq![status_name(status)]);
}

/// The job list for every combination of filters, written out in full:
/// - the search text is bound as `%text%`, so a job is listed when its name
///   contains the text anywhere (not only as a prefix or a suffix);
/// - a given, non-empty status is bound as given and compared with `=`;
/// - Postgres numbers its placeholders `$1`, `$2` and matches names with
///   `ILIKE`; SQLite writes `?` and uses `LIKE`;
/// - the list is always ordered newest first.
pub proof fn lemma_jobs_query_in_full(search: Seq<char>, status: Seq<char>)
    requires
        search.len() > 0,
        status.len() > 0,
    ensures
        jobs_args(None, None) == Seq::<Seq<char>>::empty(),
        jobs_args(None, Some(status)) == seq![status],
        jobs_args(Some(search), None) == seq![seq!['%'] + search + seq!['%']],
        jobs_args(Some(search), Some(status)) == seq![status, seq!['%'] + search + seq!['%']],
        jobs_sql(Backend::Postgres, None, None)
            == "SELECT * FROM pg_loco_queue WHERE 1=1  ORDER BY created_at DESC"@,
        jobs_sql(Backend::Postgres, None, Some(status))
            == "SELECT * FROM pg_loco_queue WHERE 1=1  AND status = $1 ORDER BY created_at DESC"@,
        jobs_sql(Backend::Postgres, Some(search), None)
            == "SELECT * FROM pg_loco_queue WHERE 1=1  AND name ILIKE $1 ORDER BY created_at DESC"@,
        jobs_sql(Backend::Postgres, Some(search), Some(status))
            == "SELECT * FROM pg_loco_queue WHERE 1=1  AND status = $1 AND name ILIKE $2 ORDER BY created_at DESC"@,
        jobs_sql(Backend::Sqlite, None, None)
            == "SELECT * FROM sqlt_loco_queue WHERE 1=1  ORDER BY created_at DESC"@,
        jobs_sql(Backend::Sqlite, None, Some(status))
            == "SELECT * FROM sqlt_loco_queue WHERE 1=1  AND status = ? ORDER BY created_at DESC"@,
        jobs_sql(Backend::Sqlite, Some(search), None)
            == "SELECT * FROM sqlt_loco_queue WHERE 1=1  AND name LIKE ? ORDER BY created_at DESC"@,
        jobs_sql(Backend::Sqlite, Some(search), Some(status))
            == "SELECT * FROM sqlt_loco_queue WHERE 1=1  AND status = ? AND name LIKE ? ORDER BY created_at DESC"@,
{
    reveal_strlit("SELECT * FROM pg_loco_queue WHERE 1=1 ");
    reveal_strlit("SELECT * FROM sqlt_loco_queue WHERE 1=1 ");
    reveal_strlit(" AND status = ");
    reveal_strlit(" AND name ILIKE ");
    reveal_strlit(" AND name LIKE ");
    reveal_strlit(" ORDER BY created_at DESC");
    reveal_strlit("SELECT * FROM pg_loco_queue WHERE 1=1  ORDER BY created_at DESC");
    reveal_strlit("SELECT * FROM pg_loco_queue WHERE 1=1  AND status = $1 ORDER BY created_at DESC");
    reveal_strlit("SELECT * FROM pg_loco_queue WHERE 1=1  AND name ILIKE $1 ORDER BY created_at DESC");
    reveal_strlit("SELECT * FROM pg_loco_queue WHERE 1=1  AND status = $1 AND name ILIKE $2 ORDER BY created_at DESC");
    reveal_strlit("SELECT * FROM sqlt_loco_queue WHERE 1=1  ORDER BY created_at DESC");
    reveal_strlit("SELECT * FROM sqlt_loco_queue WHERE 1=1  AND status = ? ORDER BY created_at DESC");
    reveal_strlit("SELECT * FROM sqlt_loco_queue WHERE 1=1  AND name LIKE ? ORDER BY created_at DESC");
    reveal_strlit("SELECT * FROM sqlt_loco_queue WHERE 1=1  AND status = ? AND name LIKE ? ORDER BY created_at DESC");
    assert(decimal(1) == seq!['1']);
    assert(decimal(2) == seq!['2']);
    assert(jobs_args(None, None) =~= Seq::<Seq<char>>::empty());
    assert(jobs_args(None, Some(status)) =~= seq![status]);
    assert(jobs_args(Some(search), None) =~= seq![seq!['%'] + search + seq!['%']]);
    assert(jobs_args(Some(search), Some(status)) =~= seq![status, seq!['%'] + search + seq!['%']]);
    assert(jobs_sql(Backend::Postgres, None, None)
        =~= "SELECT * FROM pg_loco_queue WHERE 1=1  ORDER BY created_at DESC"@);
    assert(jobs_sql(Backend::Postgres, None, Some(status))
        =~= "SELECT * FROM pg_loco_queue WHERE 1=1  AND status = $1 ORDER BY created_at DESC"@);
    assert(jobs_sql(Backend::Postgres, Some(search), None)
        =~= "SELECT * FROM pg_loco_queue WHERE 1=1  AND name ILIKE $1 ORDER BY created_at DESC"@);
    assert(jobs_sql(Backend::Postgres, Some(search), Some(status))
        =~= "SELECT * FROM pg_loco_queue WHERE 1=1  AND status = $1 AND name ILIKE $2 ORDER BY created_at DESC"@);
    assert(jobs_sql(Backend::Sqlite, None, None)
        =~= "SELECT * FROM sqlt_loco_queue WHERE 1=1  ORDER BY created_at DESC"@);
    assert(jobs_sql(Backend::Sqlite, None, Some(status))
        =~= "SELECT * FROM sqlt_loco_queue WHERE 1=1  AND status = ? ORDER BY created_at DESC"@);
    assert(jobs_sql(Backend::Sqlite, Some(search), None)
        =~= "SELECT * FROM sqlt_loco_queue WHERE 1=1  AND name LIKE ? ORDER BY created_at DESC"@);
    assert(jobs_sql(Backend::Sqlite, Some(search), Some(status))
        =~= "SELECT * FROM sqlt_loco_queue WHERE 1=1  AND status = ? AND name LIKE ? ORDER BY created_at DESC"@);
}

/// The search value is the search text between two `%` wildcards: it starts
/// and ends with `%`, is two characters longer than the text, and holds the
/// text unchanged in between; for SQL `LIKE`/`ILIKE` this matches every name
/// that contains the text, wherever it occurs.
pub proof fn lemma_search_value_surrounds_text(search: Seq<char>, status: Option<Seq<char>>)
    requires
        search.len() > 0,
    ensures
        ({
            let args = jobs_args(Some(search), status);
            let v = args.last();
            &&& args.len() >= 1
            &&& v.len() == search.len() + 2
            &&& v[0] == '%'
            &&& v[v.len() - 1] == '%'
            &&& v.subrange(1, v.len() - 1) == search
        }),
{
    let args = jobs_args(Some(search), status);
    let v = args.last();
    assert(v =~= seq!['%'] + search + seq!['%']);
    assert(v.subrange(1, v.len() - 1) =~= search);
}

/// Each status is stored under its own lower-case English name.
pub proof fn lemma_status_names_in_full()
    ensures
        status_name(JobStatus::Queued) == "queued"@,
        status_name(JobStatus::Completed) == "completed"@,
        status_name(JobStatus::Processing) == "processing"@,
        status_name(JobStatus::Failed) == "failed"@,
        status_name(JobStatus::Cancelled) == "cancelled"@,
{
}

/// For grouped rows (one row per name), each field of the statistics is the
/// count of the row carrying that field's status name, and 0 when no row
/// carries it.
pub proof fn lemma_stats_fields_by_name(rows: Seq<(String, i64)>)
    requires
        forall|i: int, j: int|
            0 <= i < rows.len() && 0 <= j < rows.len() && i != j ==> (#[trigger] rows[i]).0@
                != (#[trigger] rows[j]).0@,
    ensures
        forall|k: int| 0 <= k < rows.len() && (#[trigger] rows[k]).0@ == "completed"@
            ==> stats_of(rows).completed == rows[k].1,
        forall|k: int| 0 <= k < rows.len() && (#[trigger] rows[k]).0@ == "processing"@
            ==> stats_of(rows).processing == rows[k].1,
        forall|k: int| 0 <= k < rows.len() && (#[trigger] rows[k]).0@ == "cancelled"@
            ==> stats_of(rows).cancelled == rows[k].1,
        forall|k: int| 0 <= k < rows.len() && (#[trigger] rows[k]).0@ == "queued"@
            ==> stats_of(rows).queued == rows[k].1,
        forall|k: int| 0 <= k < rows.len() && (#[trigger] rows[k]).0@ == "failed"@
            ==> stats_of(rows).failed == rows[k].1,
        (forall|k: int| 0 <= k < rows.len() ==> (#[trigger] rows[k]).0@ != "completed"@)
            ==> stats_of(rows).completed == 0,
        (forall|k: int| 0 <= k < rows.len() ==> (#[trigger] rows[k]).0@ != "processing"@)
            ==> stats_of(rows).processing == 0,
        (forall|k: int| 0 <= k < rows.len() ==> (#[trigger] rows[k]).0@ != "cancelled"@)
            ==> stats_of(rows).cancelled == 0,
        (forall|k: int| 0 <= k < rows.len() ==> (#[trigger] rows[k]).0@ != "queued"@)
            ==> stats_of(rows).queued == 0,
        (forall|k: int| 0 <= k < rows.len() ==> (#[trigger] rows[k]).0@ != "failed"@)
            ==> stats_of(rows).failed == 0,
{
    lemma_stats_of_grouped_rows(rows, JobStatus::Completed);
    lemma_stats_of_grouped_rows(rows, JobStatus::Processing);
    lemma_stats_of_grouped_rows(rows, JobStatus::Cancelled);
    lemma_stats_of_grouped_rows(rows, JobStatus::Queued);
    lemma_stats_of_grouped_rows(rows, JobStatus::Failed);
}

} // verus!
