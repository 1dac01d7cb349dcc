//! Bound arguments and queries under construction with sqlx, for the two
//! databases that the panel reads.
//!
//! sqlx's argument lists (`PgArguments`, `SqliteArguments`) are declared to
//! Verus and described by the text values they hold, in binding order.
//!
//! sqlx's `QueryBuilder` is generic over its `Database` trait, which cannot be
//! named in a verified signature, so each builder is held in a private field
//! of a struct of ours whose contents are described by the spec functions
//! below: the SQL text so far, the text values bound so far (in order), and
//! whether the builder still holds its arguments (sqlx panics on a push after
//! `build`). A finished Postgres builder is handed out as its SQL text and
//! arguments. A built SQLite query lends its arguments only for as long as
//! its builder is borrowed, so a SQLite builder hands out its text, and the
//! same values are bound to an argument list of their own.
use sqlx::postgres::PgArguments;
use sqlx::sqlite::SqliteArguments;
use sqlx::{Arguments, Execute, Postgres, QueryBuilder, Sqlite};
use vstd::prelude::*;

verus! {

/// The decimal digit `d` (for `d < 10`).
pub open spec fn digit_char(d: nat) -> char {
    if d == 0 {
        '0'
    } else if d == 1 {
        '1'
    } else if d == 2 {
        '2'
    } else if d == 3 {
        '3'
    } else if d == 4 {
        '4'
    } else if d == 5 {
        '5'
    } else if d == 6 {
        '6'
    } else if d == 7 {
        '7'
    } else if d == 8 {
        '8'
    } else {
        '9'
    }
}

/// `n` written in decimal, without leading zeros.
pub open spec fn decimal(n: nat) -> Seq<char>
    decreases n,
{
    if n < 10 {
        seq![digit_char(n)]
    } else {
        decimal(n / 10).push(digit_char(n % 10))
    }
}

/// Postgres writes the `n`-th bind parameter as `$n`.
pub open spec fn pg_placeholder(n: nat) -> Seq<char> {
    seq!['$'] + decimal(n)
}

/// sqlx's argument list for Postgres.
#[verifier::external_type_specification]
#[verifier::external_body]
pub struct ExPgArguments(PgArguments);

/// sqlx's argument list for SQLite.
#[verifier::external_type_specification]
#[verifier::external_body]
pub struct ExSqliteArguments<'q>(SqliteArguments<'q>);

/// The text values held by a Postgres argument list, in binding order.
pub uninterp spec fn pg_args_values(a: PgArguments) -> Seq<Seq<char>>;

/// The text values held by a SQLite argument list, in binding order.
pub uninterp spec fn sqlite_args_values(a: SqliteArguments<'static>) -> Seq<Seq<char>>;

/// A Postgres query being built: sqlx's `QueryBuilder<'static, Postgres>`.
#[verifier::external_body]
pub struct PgQuery {
    builder: QueryBuilder<'static, Postgres>,
}

/// A SQLite query being built: sqlx's `QueryBuilder<'static, Sqlite>`.
#[verifier::external_body]
pub struct SqliteQuery {
    builder: QueryBuilder<'static, Sqlite>,
}

/// The SQL text of a Postgres builder (what its `sql()` returns).
pub uninterp spec fn pg_query_sql(q: PgQuery) -> Seq<char>;

/// The text values bound to a Postgres builder, in the order of binding.
pub uninterp spec fn pg_query_args(q: PgQuery) -> Seq<Seq<char>>;

/// Whether a Postgres builder still holds its arguments (it has not been built).
pub uninterp spec fn pg_query_open(q: PgQuery) -> bool;

/// The SQL text of a SQLite builder (what its `sql()` returns).
pub uninterp spec fn sqlite_query_sql(q: SqliteQuery) -> Seq<char>;

/// The text values bound to a SQLite builder, in the order of binding.
pub uninterp spec fn sqlite_query_args(q: SqliteQuery) -> Seq<Seq<char>>;

/// Whether a SQLite builder still holds its arguments (it has not been built).
pub uninterp spec fn sqlite_query_open(q: SqliteQuery) -> bool;

/// The UTF-8 text of a value fits the 32-bit length prefix of Postgres's
/// binary protocol; sqlx panics when binding a longer value.
pub open spec fn pg_bindable(value: Seq<char>) -> bool {
    vstd::utf8::encode_utf8(value).len() <= i32::MAX
}

/// `QueryBuilder::<Postgres>::new`: the text is `init`, no value is bound.
#[verifier::external_body]
pub(crate) fn pg_query_new(init: &str) -> (q: PgQuery)
    ensures
        pg_query_sql(q) == init@,
        pg_query_args(q) == Seq::<Seq<char>>::empty(),
        pg_query_open(q),
{
    PgQuery { builder: QueryBuilder::new(init) }
}

/// `QueryBuilder::<Postgres>::push`: appends `sql` to the text.
#[verifier::external_body]
pub(crate) fn pg_query_push(q: &mut PgQuery, sql: &str)
    requires
        pg_query_open(*old(q)),
    ensures
        pg_query_sql(*final(q)) == pg_query_sql(*old(q)) + sql@,
        pg_query_args(*final(q)) == pg_query_args(*old(q)),
        pg_query_open(*final(q)),
{
    q.builder.push(sql);
}

/// `QueryBuilder::<Postgres>::push_bind` with a `String`: binds `value` as
/// the next argument and appends its placeholder `$n`, where `n` is the
/// number of arguments bound so far, this one included.
#[verifier::external_body]
pub(crate) fn pg_query_push_bind(q: &mut PgQuery, value: String)
    requires
        pg_query_open(*old(q)),
        pg_bindable(value@),
    ensures
        pg_query_args(*final(q)) == pg_query_args(*old(q)).push(value@),
        pg_query_sql(*final(q)) == pg_query_sql(*old(q)) + pg_placeholder(
            pg_query_args(*final(q)).len(),
        ),
        pg_query_open(*final(q)),
{
    q.builder.push_bind(value);
}

/// `QueryBuilder::<Sqlite>::new`: the text is `init`, no value is bound.
#[verifier::external_body]
pub(crate) fn sqlite_query_new(init: &str) -> (q: SqliteQuery)
    ensures
        sqlite_query_sql(q) == init@,
        sqlite_query_args(q) == Seq::<Seq<char>>::empty(),
        sqlite_query_open(q),
{
    SqliteQuery { builder: QueryBuilder::new(init) }
}

/// `QueryBuilder::<Sqlite>::push`: appends `sql` to the text.
#[verifier::external_body]
pub(crate) fn sqlite_query_push(q: &mut SqliteQuery, sql: &str)
    requires
        sqlite_query_open(*old(q)),
    ensures
        sqlite_query_sql(*final(q)) == sqlite_query_sql(*old(q)) + sql@,
        sqlite_query_args(*final(q)) == sqlite_query_args(*old(q)),
        sqlite_query_open(*final(q)),
{
    q.builder.push(sql);
}

/// `QueryBuilder::<Sqlite>::push_bind` with a `String`: binds `value` as the
/// next argument and appends the placeholder `?`.
#[verifier::external_body]
pub(crate) fn sqlite_query_push_bind(q: &mut SqliteQuery, value: String)
    requires
        sqlite_query_open(*old(q)),
    ensures
        sqlite_query_args(*final(q)) == sqlite_query_args(*old(q)).push(value@),
        sqlite_query_sql(*final(q)) == sqlite_query_sql(*old(q)) + seq!['?'],
        sqlite_query_open(*final(q)),
{
    q.builder.push_bind(value);
}

/// `QueryBuilder::<Postgres>::build` followed by `take_arguments`: the SQL
/// text, and the argument list while the builder still holds it.
#[verifier::external_body]
pub(crate) fn pg_query_finish(q: PgQuery) -> (parts: (String, Option<PgArguments>))
    ensures
        parts.0@ == pg_query_sql(q),
        pg_query_open(q) ==> parts.1 is Some && pg_args_values(parts.1->0) == pg_query_args(q),
{
    let mut builder = q.builder;
    let sql = builder.sql().to_owned();
    let args = builder.build().take_arguments().ok().flatten();
    (sql, args)
}

/// `QueryBuilder::<Sqlite>::into_sql`: the SQL text.
#[verifier::external_body]
pub(crate) fn sqlite_query_into_sql(q: SqliteQuery) -> (sql: String)
    ensures
        sql@ == sqlite_query_sql(q),
{
    q.builder.into_sql()
}

/// `PgArguments::default`: no value bound.
#[verifier::external_body]
pub(crate) fn pg_args_new() -> (a: PgArguments)
    ensures
        pg_args_values(a) == Seq::<Seq<char>>::empty(),
{
    PgArguments::default()
}

/// `Arguments::add` on Postgres arguments with a `String`. Encoding fails,
/// and the list is left as it was, exactly when the value's UTF-8 text does
/// not fit a 32-bit length; the error's text is returned. The error text
/// itself is not described here.
#[verifier::external_body]
pub(crate) fn pg_args_add(a: &mut PgArguments, value: String) -> (r: Result<(), String>)
    ensures
        r is Ok <==> pg_bindable(value@),
        r is Ok ==> pg_args_values(*final(a)) == pg_args_values(*old(a)).push(value@),
        r is Err ==> pg_args_values(*final(a)) == pg_args_values(*old(a)),
{
    match a.add(value) {
        Ok(()) => Ok(()),
        Err(error) => Err(error.to_string()),
    }
}

/// `SqliteArguments::default`: no value bound.
#[verifier::external_body]
pub(crate) fn sqlite_args_new() -> (a: SqliteArguments<'static>)
    ensures
        sqlite_args_values(a) == Seq::<Seq<char>>::empty(),
{
    SqliteArguments::default()
}

/// `Arguments::add` on SQLite arguments with a `String`, which always
/// succeeds and appends the value.
#[verifier::external_body]
pub(crate) fn sqlite_args_add(a: &mut SqliteArguments<'static>, value: String) -> (r: Result<(), String>)
    ensures
        r is Ok,
        sqlite_args_values(*final(a)) == sqlite_args_values(*old(a)).push(value@),
{
    match a.add(value) {
        Ok(()) => Ok(()),
        Err(error) => Err(error.to_string()),
    }
}

} // verus!
