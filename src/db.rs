use r2d2::Error as PoolError;
use rusqlite::types::Value;
use rusqlite::Error as SqliteError;
use vstd::prelude::*;

use crate::element::LETuple;
use crate::error::Error;
use crate::query::SqlValue;

verus! {

/// A bounded pool of connections to one database file, safe to share
/// between threads.
#[verifier::external_body]
pub struct DbPool {
    pool: r2d2::Pool<r2d2_sqlite::SqliteConnectionManager>,
}

/// A connection taken from a [`DbPool`]; it goes back to the pool when dropped.
#[verifier::external_body]
pub struct DbConnection {
    pub(crate) conn: r2d2::PooledConnection<r2d2_sqlite::SqliteConnectionManager>,
}

/// Relies on r2d2's `Pool::get`: waits for a free connection up to the pool's
/// timeout, and fails after it.
#[verifier::external_body]
fn checkout(db: &DbPool) -> (r: Result<DbConnection, PoolError>) {
    db.pool.get().map(|conn| DbConnection { conn })
}

/// The most connections a pool holds, as r2d2's `Pool::max_size` reports it.
pub uninterp spec fn pool_max_size_of(p: DbPool) -> u32;

/// The database file a pool opens its connections to.
pub uninterp spec fn pool_file_of(p: DbPool) -> Seq<char>;

/// The statements a pool runs on each connection it opens.
pub uninterp spec fn pool_setup_of(p: DbPool) -> Seq<char>;

/// Relies on r2d2's `Builder::max_size` and `Builder::build` and on
/// r2d2_sqlite's `SqliteConnectionManager::file` and `with_init`: a pool of at
/// most `max_size` connections to the file at `path`, which runs `setup` once
/// on every new connection. `max_size` must be positive, else the builder
/// panics. A failure comes back as the pool's message.
#[verifier::external_body]
fn build_pool(path: &str, max_size: u32, setup: String) -> (r: Result<DbPool, String>)
    requires
        max_size > 0,
    ensures
        r matches Ok(p) ==> pool_max_size_of(p) == max_size,
        r matches Ok(p) ==> pool_file_of(p) == path@,
        r matches Ok(p) ==> pool_setup_of(p) == setup@,
{
    let manager = r2d2_sqlite::SqliteConnectionManager::file(path)
        .with_init(move |c| c.execute_batch(&setup));
    let built = r2d2::Pool::builder().max_size(max_size).build(manager);
    built.map(|pool| DbPool { pool }).map_err(|e| e.to_string())
}

/// Relies on rusqlite's `Connection::prepare` and `Statement::query_map`: runs
/// one statement with `params` bound to its `?` placeholders, in order, and
/// reads each row it returns as an item row.
#[verifier::external_body]
pub(crate) fn run_query(conn: &DbConnection, sql: &str, params: &Vec<SqlValue>) -> (r: Result<
    Vec<LETuple>,
    SqliteError,
>) {
    let values: Vec<Value> = params.iter().map(|v| match v {
        SqlValue::Null => Value::Null,
        SqlValue::Integer(i) => Value::Integer(*i),
        SqlValue::Text(s) => Value::Text(s.clone()),
    }).collect();
    let mut stmt = conn.conn.prepare(sql)?;
    let rows = stmt.query_map(rusqlite::params_from_iter(values), |r| {
        Ok((r.get(0)?, r.get(1)?, r.get(2)?, r.get(3)?, r.get(4)?, r.get(5)?, r.get(6)?))
    })?;
    rows.collect()
}

/// The decimal digits, in order.
pub open spec fn digits() -> Seq<char> {
    "0123456789"@
}

/// The decimal form of `n`, without leading zeros.
pub open spec fn decimal(n: nat) -> Seq<char>
    decreases n,
{
    if n < 10 {
        digits().subrange(n as int, n as int + 1)
    } else {
        decimal(n / 10) + digits().subrange((n % 10) as int, (n % 10) as int + 1)
    }
}

/// Writes `n` in decimal.
pub fn decimal_text(n: u64) -> (r: String)
    ensures
        r@ == decimal(n as nat),
    decreases n,
{
    proof {
        reveal_strlit("0123456789");
    }
    let d = (n % 10) as usize;
    let digit = "0123456789".substring_char(d, d + 1);
    if n < 10 {
        String::from_str(digit)
    } else {
        let mut r = decimal_text(n / 10);
        r.append(digit);
        r
    }
}

/// What is set on every new connection of a pool.
#[derive(Debug, Clone, Copy, PartialEq, Eq)]
pub struct ConnectionOptions {
    /// Write-ahead logging with normal synchronous durability.
    pub enable_wal: bool,
    /// Enforcement of foreign keys.
    pub enable_foreign_keys: bool,
    /// How long a connection waits on a lock held by another writer, in milliseconds.
    pub busy_timeout_ms: Option<u64>,
}

/// The statements that set up a new connection under `o`.
pub open spec fn setup_text(o: ConnectionOptions) -> Seq<char> {
    (if o.enable_wal {
        "PRAGMA journal_mode = WAL; PRAGMA synchronous = NORMAL; "@
    } else {
        Seq::empty()
    }) + (if o.enable_foreign_keys {
        "PRAGMA foreign_keys = ON; "@
    } else {
        Seq::empty()
    }) + match o.busy_timeout_ms {
        Some(ms) => "PRAGMA busy_timeout = "@ + decimal(ms as nat) + ";"@,
        None => Seq::empty(),
    }
}

/// Write-ahead logging, foreign keys, and a busy timeout of 30 seconds.
pub open spec fn standard_options() -> ConnectionOptions {
    ConnectionOptions { enable_wal: true, enable_foreign_keys: true, busy_timeout_ms: Some(30000) }
}

impl ConnectionOptions {
    /// Write-ahead logging, foreign keys, and a busy timeout of 30 seconds.
    pub fn standard() -> (r: ConnectionOptions)
        ensures
            r == standard_options(),
    {
        ConnectionOptions { enable_wal: true, enable_foreign_keys: true, busy_timeout_ms: Some(30000) }
    }

    /// The statements that set up a new connection.
    pub fn setup_sql(&self) -> (r: String)
        ensures
            r@ == setup_text(*self),
    {
        let mut r = String::new();
        if self.enable_wal {
            r.append("PRAGMA journal_mode = WAL; PRAGMA synchronous = NORMAL; ");
        }
        if self.enable_foreign_keys {
            r.append("PRAGMA foreign_keys = ON; ");
        }
        if let Some(ms) = self.busy_timeout_ms {
            r.append("PRAGMA busy_timeout = ");
            let digits = decimal_text(ms);
            r.append(digits.as_str());
            r.append(";");
        }
        assert(r@ =~= setup_text(*self));
        r
    }
}

/// The pool opens the file `path`, holds at most `max_size` connections, and
/// sets up each new one under `options`.
pub open spec fn pool_opened(p: DbPool, path: Seq<char>, max_size: u32, options: ConnectionOptions) -> bool {
    &&& pool_file_of(p) == path
    &&& pool_max_size_of(p) == max_size
    &&& pool_setup_of(p) == setup_text(options)
}

/// Opens a pool of at most `max_size` connections to the database file at
/// `path`, each set up under `options` when it is opened. A pool size of zero
/// is refused; so is a file that cannot be opened.
pub fn open_pool(path: &str, max_size: u32, options: &ConnectionOptions) -> (r: Result<DbPool, Error>)
    ensures
        max_size == 0 ==> r matches Err(Error::ConfigurationError(_)),
        r matches Err(e) ==> e matches Error::ConfigurationError(_),
        r matches Ok(p) ==> pool_opened(p, path@, max_size, *options),
{
    if max_size == 0 {
        return Err(Error::ConfigurationError(String::from_str("a pool needs room for one connection")));
    }
    match build_pool(path, max_size, options.setup_sql()) {
        Ok(pool) => Ok(pool),
        Err(msg) => Err(Error::ConfigurationError(msg)),
    }
}

/// Takes a connection from the pool; a pool that has none free in time is an error.
pub fn connect(db: &DbPool) -> (r: Result<DbConnection, Error>)
    ensures
        r matches Err(e) ==> e matches Error::ConnectionError(_),
{
    match checkout(db) {
        Ok(c) => Ok(c),
        Err(e) => Err(Error::ConnectionError(e)),
    }
}

/// Runs one statement and reads the item rows it returns.
pub fn fetch_rows(conn: &DbConnection, sql: &str, params: &Vec<SqlValue>) -> (r: Result<Vec<LETuple>, Error>)
    ensures
        r matches Err(e) ==> e matches Error::StorageEngineError(_),
{
    match run_query(conn, sql, params) {
        Ok(rows) => Ok(rows),
        Err(e) => Err(Error::StorageEngineError(e)),
    }
}

/// A batch of statements that was handed to the store. Only running a batch
/// makes one.
#[derive(Debug)]
pub struct ExecutedBatch {
    sql: String,
}

impl ExecutedBatch {
    /// The text of the batch.
    pub closed spec fn text(&self) -> Seq<char> {
        self.sql@
    }

    /// The text of the batch.
    pub fn sql(&self) -> (r: &str)
        ensures
            r@ == self.text(),
    {
        self.sql.as_str()
    }
}

/// Relies on rusqlite's `Connection::execute_batch`: runs every statement of
/// `sql` in turn and stops at the first that fails. The batch handed over
/// comes back beside the outcome.
#[verifier::external_body]
pub(crate) fn run_batch(conn: &DbConnection, sql: &str) -> (r: (ExecutedBatch, Result<(), SqliteError>))
    ensures
        r.0.text() == sql@,
{
    let outcome = conn.conn.execute_batch(sql);
    (ExecutedBatch { sql: sql.to_string() }, outcome)
}

} // verus!
