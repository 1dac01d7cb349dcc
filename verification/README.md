# admin_panel

An admin panel for a background-job queue kept in a Postgres
(`pg_loco_queue`) or SQLite (`sqlt_loco_queue`) table.

- `src/` is the verified library (Verus):
  - `shared/db.rs`: job statuses and their stored names, the per-status
    statistics built from `GROUP BY status` rows, and every statement the
    panel sends with its bound values: the job list (built with sqlx's
    `QueryBuilder`), reading, deleting and updating a job by id, together
    with the laws proved of them.
  - `shared/sql_builder.rs`: the trusted contracts of sqlx's `QueryBuilder`
    (`new`, `push`, `push_bind`, `build`) and of its argument lists
    (`Arguments::add`) for Postgres and SQLite.
  - `shared/config.rs`: the database settings.
  - `controllers/job.rs`: the error text of a failed delete.
- `app/` is the unverified rest: connecting the pools, running the queries,
  decoding rows, reading the settings with serde, and the web handlers.
- `tests/` runs the library with sqlx linked.
