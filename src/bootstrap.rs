use vstd::prelude::*;

use crate::db::{connect, open_pool, pool_opened, run_batch, ConnectionOptions, DbPool, ExecutedBatch};
use crate::error::Error;
use crate::text::{ends_with_str, ends_with_text, texts};

verus! {

/// Where the store lives and how it is opened and made ready.
#[derive(Debug, Clone)]
pub struct StoreConfig {
    /// The database file.
    pub store_path: String,
    /// The directory that holds the schema and seed scripts.
    pub migration_dir: String,
    /// The most connections the pool holds.
    pub pool_size: u32,
    /// How long a connection waits on another writer's lock, in milliseconds.
    pub busy_timeout_ms: u64,
    /// Whether a failing script stops the bootstrap, rather than being reported and passed over.
    pub abort_on_migration_error: bool,
}

/// The connection set-up under a configuration: write-ahead logging,
/// foreign keys, and its busy timeout.
pub open spec fn store_options(c: StoreConfig) -> ConnectionOptions {
    ConnectionOptions {
        enable_wal: true,
        enable_foreign_keys: true,
        busy_timeout_ms: Some(c.busy_timeout_ms),
    }
}

impl StoreConfig {
    /// The file `sql/db.tldb`, scripts under `sql/`, one connection, a
    /// 30 second busy timeout, and failing scripts passed over.
    pub fn standard() -> (r: StoreConfig)
        ensures
            r.store_path@ == "sql/db.tldb"@,
            r.migration_dir@ == "sql/"@,
            r.pool_size == 1,
            r.busy_timeout_ms == 30000,
            !r.abort_on_migration_error,
    {
        StoreConfig {
            store_path: String::from_str("sql/db.tldb"),
            migration_dir: String::from_str("sql/"),
            pool_size: 1,
            busy_timeout_ms: 30000,
            abort_on_migration_error: false,
        }
    }

    /// The connection set-up that the store uses: write-ahead logging,
    /// foreign keys, and this configuration's busy timeout.
    pub fn connection_options(&self) -> (r: ConnectionOptions)
        ensures
            r == store_options(*self),
    {
        ConnectionOptions {
            enable_wal: true,
            enable_foreign_keys: true,
            busy_timeout_ms: Some(self.busy_timeout_ms),
        }
    }
}

/// Texts in lexicographic order of their characters; a prefix comes first.
pub open spec fn text_le(a: Seq<char>, b: Seq<char>) -> bool
    decreases a.len(),
{
    if a.len() == 0 {
        true
    } else if b.len() == 0 {
        false
    } else if a[0] != b[0] {
        (a[0] as u32) < (b[0] as u32)
    } else {
        text_le(a.drop_first(), b.drop_first())
    }
}

/// The texts are in lexicographic order.
pub open spec fn sorted_texts(s: Seq<Seq<char>>) -> bool {
    forall|i: int, j: int| 0 <= i < j < s.len() ==> text_le(#[trigger] s[i], #[trigger] s[j])
}

/// A path names a script.
pub open spec fn is_script(p: Seq<char>) -> bool {
    ends_with_text(p, ".sql"@)
}

/// Relies on `slice::sort` over `String`: a stable sort by `String`'s order,
/// which compares the UTF-8 bytes lexicographically, and that order is the
/// order of the characters' code points.
#[verifier::external_body]
fn sort_texts(v: &mut Vec<String>)
    ensures
        texts(final(v)@).to_multiset() == texts(old(v)@).to_multiset(),
        sorted_texts(texts(final(v)@)),
{
    v.sort()
}

/// The scripts among `paths`, those ending in `.sql`, in lexicographic order:
/// the order in which they run.
pub fn migration_order(paths: &Vec<String>) -> (r: Vec<String>)
    ensures
        texts(r@).to_multiset() == texts(paths@).filter(|p: Seq<char>| is_script(p)).to_multiset(),
        sorted_texts(texts(r@)),
{
    let mut kept: Vec<String> = Vec::new();
    let mut i: usize = 0;
    while i < paths.len()
        invariant
            i <= paths@.len(),
            texts(kept@) == texts(paths@).take(i as int).filter(|p: Seq<char>| is_script(p)),
        decreases paths.len() - i,
    {
        assert(texts(paths@).take(i + 1).drop_last() =~= texts(paths@).take(i as int));
        reveal(Seq::filter);
        let ghost before = kept@;
        if ends_with_str(paths[i].as_str(), ".sql") {
            kept.push(paths[i].clone());
            assert(texts(kept@) =~= texts(before).push(paths@[i as int]@));
        }
        i = i + 1;
    }
    assert(texts(paths@).take(paths@.len() as int) =~= texts(paths@));
    sort_texts(&mut kept);
    kept
}

/// The positions are increasing and each is below `n`.
pub open spec fn increasing_below(s: Seq<usize>, n: int) -> bool {
    &&& forall|k: int| 0 <= k < s.len() ==> s[k] < n
    &&& forall|a: int, b: int| 0 <= a < b < s.len() ==> s[a] < s[b]
}

/// What a run of the scripts did.
#[derive(Debug)]
pub struct MigrationReport {
    /// The batches handed to the store, in the order they ran.
    pub ran: Vec<ExecutedBatch>,
    /// The positions of the scripts that failed, in order.
    pub failed: Vec<usize>,
}

/// The texts of the batches handed to the store, in order.
pub open spec fn batch_texts(b: Seq<ExecutedBatch>) -> Seq<Seq<char>> {
    b.map_values(|x: ExecutedBatch| x.text())
}

/// Records the outcome of the script at position `i` of `n`: a failure is
/// noted where the run goes on past failures. Gives the position of the
/// script that runs next, or nothing where the run ends: after the last
/// script, or at a failure where `abort_on_error` holds.
pub fn after_script(failed: &mut Vec<usize>, i: usize, n: usize, succeeded: bool, abort_on_error: bool) -> (next: Option<usize>)
    requires
        i < n,
    ensures
        next == (if (!succeeded && abort_on_error) || i + 1 >= n {
            None
        } else {
            Some((i + 1) as usize)
        }),
        final(failed)@ == if !succeeded && !abort_on_error {
            old(failed)@.push(i)
        } else {
            old(failed)@
        },
{
    if !succeeded {
        if abort_on_error {
            return None;
        }
        failed.push(i);
    }
    if i + 1 >= n {
        None
    } else {
        Some(i + 1)
    }
}

/// Runs the scripts in order, each once, as one batch on a connection of its
/// own from the pool; the report holds each batch as it was handed over. A script that fails stops the run where
/// `abort_on_error` holds; else its position is recorded and the next one
/// runs. A pool that hands out no connection stops the run.
pub fn run_migrations(db: &DbPool, scripts: &Vec<String>, abort_on_error: bool) -> (r: Result<
    MigrationReport,
    Error,
>)
    ensures
        scripts@.len() == 0 ==> (r is Ok && r->Ok_0.ran@.len() == 0 && r->Ok_0.failed@.len() == 0),
        r matches Ok(rep) ==> batch_texts(rep.ran@) == texts(scripts@),
        r matches Ok(rep) ==> increasing_below(rep.failed@, scripts@.len() as int),
        abort_on_error ==> (r matches Ok(rep) ==> rep.failed@.len() == 0),
        r matches Err(e) ==> e matches Error::ConnectionError(_) || (abort_on_error
            && e matches Error::StorageEngineError(_)),
{
    let n = scripts.len();
    let mut ran: Vec<ExecutedBatch> = Vec::new();
    let mut failed: Vec<usize> = Vec::new();
    if n == 0 {
        return Ok(MigrationReport { ran, failed });
    }
    let mut i: usize = 0;
    loop
        invariant
            n == scripts@.len(),
            i < n,
            batch_texts(ran@) == texts(scripts@).take(i as int),
            increasing_below(failed@, i as int),
            abort_on_error ==> failed@.len() == 0,
        decreases n - i,
    {
        let conn = match connect(db) {
            Ok(c) => c,
            Err(e) => {
                return Err(e);
            },
        };
        let (batch, outcome) = run_batch(&conn, scripts[i].as_str());
        let ghost before = ran@;
        ran.push(batch);
        assert(batch_texts(ran@) =~= texts(scripts@).take(i + 1)) by {
            assert(batch_texts(ran@) =~= batch_texts(before).push(scripts@[i as int]@));
        }
        let succeeded = outcome.is_ok();
        match after_script(&mut failed, i, n, succeeded, abort_on_error) {
            Some(next) => {
                i = next;
            },
            None => {
                match outcome {
                    Err(e) => {
                        if abort_on_error {
                            return Err(Error::StorageEngineError(e));
                        }
                    },
                    Ok(()) => {},
                }
                assert(texts(scripts@).take(n as int) =~= texts(scripts@));
                return Ok(MigrationReport { ran, failed });
            },
        }
    }
}

/// Opens the store that `config` names and runs the scripts on it, in the
/// order given. Hands back the pool and what the run did.
pub fn bootstrap(config: &StoreConfig, scripts: &Vec<String>) -> (r: Result<
    (DbPool, MigrationReport),
    Error,
>)
    ensures
        config.pool_size == 0 ==> r matches Err(Error::ConfigurationError(_)),
        r matches Ok((db, _)) ==> pool_opened(
            db,
            config.store_path@,
            config.pool_size,
            store_options(*config),
        ),
        r matches Ok((_, rep)) ==> batch_texts(rep.ran@) == texts(scripts@),
        r matches Ok((_, rep)) ==> increasing_below(rep.failed@, scripts@.len() as int),
        config.abort_on_migration_error ==> (r matches Ok((_, rep)) ==> rep.failed@.len() == 0),
        r matches Err(e) ==> e matches Error::ConfigurationError(_) || e matches Error::ConnectionError(_)
            || (config.abort_on_migration_error && e matches Error::StorageEngineError(_)),
{
    let options = config.connection_options();
    let db = match open_pool(config.store_path.as_str(), config.pool_size, &options) {
        Ok(db) => db,
        Err(e) => {
            return Err(e);
        },
    };
    match run_migrations(&db, scripts, config.abort_on_migration_error) {
        Ok(rep) => Ok((db, rep)),
        Err(e) => Err(e),
    }
}

} // verus!
