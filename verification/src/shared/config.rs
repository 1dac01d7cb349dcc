//! Settings of the database that holds the job queue, as read from the
//! `db` entry of the application's settings (a tagged object whose `kind` is
//! `Postgres` or `Sqlite`).
use vstd::prelude::*;

verus! {

/// Which database to connect to, and how.
#[derive(Debug)]
pub enum DBConfig {
    Postgres(Postgres),
    Sqlite(Sqlite),
}

/// A Postgres connection pool.
#[derive(Debug)]
pub struct Postgres {
    pub uri: String,
    /// Longest wait for a connection from the pool, in milliseconds.
    pub connect_timeout: u64,
    /// Longest time a connection may stay idle before it is closed, in milliseconds.
    pub idle_timeout: u64,
    pub min_connections: u32,
    pub max_connections: u32,
}

/// A SQLite database.
#[derive(Debug)]
pub struct Sqlite {
    pub uri: String,
}

} // verus!
