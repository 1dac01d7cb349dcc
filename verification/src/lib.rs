//! Verified core of a job-queue admin panel: job status naming, status
//! statistics, the SQL that the panel sends to its Postgres or SQLite queue
//! table, and the database connection settings.

pub mod controllers;
pub mod shared;
