use backend::bootstrap::{bootstrap, migration_order, StoreConfig};
use backend::error::Error;
use backend::mac::ListElementMAC;

const SCHEMA: &str = "DROP TABLE IF EXISTS list;
CREATE TABLE list (
    id INTEGER PRIMARY KEY AUTOINCREMENT,
    title TEXT NOT NULL,
    notes TEXT,
    tags TEXT,
    ctime TEXT NOT NULL DEFAULT (datetime('now')),
    mtime TEXT,
    status TEXT NOT NULL DEFAULT 'Open'
);";

const SEED: &str = "INSERT INTO list (id, title, notes, tags, status) VALUES (10, 'List Element 10', NULL, 'foo', 'Open');
INSERT INTO list (id, title, notes, tags, status) VALUES (11, 'List Element 11', NULL, 'foo bar baz', 'Closed');
INSERT INTO list (id, title, notes, tags, status) VALUES (12, 'List Element', 'Lipsum Orem', 'foo bar', 'Archived');";

fn config(path: &str) -> StoreConfig {
    let mut c = StoreConfig::standard();
    c.store_path = path.to_string();
    c
}

#[test]
fn model_db_init_db() {
    let path = "/tmp/backend_model_db_init_db.tldb";
    let scripts = vec![SCHEMA.to_string(), SEED.to_string()];
    let (db, report) = bootstrap(&config(path), &scripts).unwrap();
    assert!(report.failed.is_empty());
    let ran: Vec<&str> = report.ran.iter().map(|b| b.sql()).collect();
    assert_eq!(vec![SCHEMA, SEED], ran);
    let rows = ListElementMAC::get_all(&db, None).unwrap();
    assert_eq!(3, rows.len(), "Number of seed list elements");
    let titles: Vec<&str> = rows.iter().map(|r| r.title.as_str()).collect();
    assert_eq!(vec!["List Element 10", "List Element 11", "List Element"], titles);
}

#[test]
fn bootstrap_passes_over_a_failing_script() {
    let path = "/tmp/backend_bootstrap_passes_over.tldb";
    let scripts = vec![SCHEMA.to_string(), "THIS IS NOT SQL;".to_string(), SEED.to_string()];
    let (db, report) = bootstrap(&config(path), &scripts).unwrap();
    assert_eq!(vec![1usize], report.failed);
    let ran: Vec<&str> = report.ran.iter().map(|b| b.sql()).collect();
    assert_eq!(vec![SCHEMA, "THIS IS NOT SQL;", SEED], ran);
    assert_eq!(3, ListElementMAC::get_all(&db, None).unwrap().len());
}

#[test]
fn bootstrap_stops_at_a_failing_script_when_asked() {
    let path = "/tmp/backend_bootstrap_stops.tldb";
    let mut c = config(path);
    c.abort_on_migration_error = true;
    let scripts = vec![SCHEMA.to_string(), "THIS IS NOT SQL;".to_string(), SEED.to_string()];
    let r = bootstrap(&c, &scripts);
    assert!(matches!(r, Err(Error::StorageEngineError(_))));
}

#[test]
fn bootstrap_refuses_an_empty_pool() {
    let mut c = config("/tmp/backend_bootstrap_empty_pool.tldb");
    c.pool_size = 0;
    let r = bootstrap(&c, &vec![SCHEMA.to_string()]);
    assert!(matches!(r, Err(Error::ConfigurationError(_))));
}

#[test]
fn migration_order_keeps_scripts_in_lexical_order() {
    let paths = vec![
        "sql/010-seed.sql".to_string(),
        "sql/readme.md".to_string(),
        "sql/000-recreate-db.sql".to_string(),
        "sql/001-schema.sql".to_string(),
        "sql/notes.sql.bak".to_string(),
    ];
    let ordered = migration_order(&paths);
    assert_eq!(
        vec![
            "sql/000-recreate-db.sql".to_string(),
            "sql/001-schema.sql".to_string(),
            "sql/010-seed.sql".to_string(),
        ],
        ordered
    );
}

#[test]
fn migration_order_of_nothing_is_empty() {
    assert!(migration_order(&Vec::new()).is_empty());
}

#[test]
fn store_config_standard_values() {
    let c = StoreConfig::standard();
    assert_eq!("sql/db.tldb", c.store_path);
    assert_eq!("sql/", c.migration_dir);
    assert_eq!(1, c.pool_size);
    assert_eq!(30000, c.busy_timeout_ms);
    assert!(!c.abort_on_migration_error);
}

#[test]
fn after_script_records_failures_when_going_on() {
    let mut failed = vec![0usize];
    assert_eq!(Some(3), backend::bootstrap::after_script(&mut failed, 2, 5, false, false));
    assert_eq!(vec![0usize, 2], failed);
    assert_eq!(Some(4), backend::bootstrap::after_script(&mut failed, 3, 5, true, false));
    assert_eq!(vec![0usize, 2], failed);
    assert_eq!(None, backend::bootstrap::after_script(&mut failed, 4, 5, false, false));
    assert_eq!(vec![0usize, 2, 4], failed);
}

#[test]
fn after_script_stops_at_a_failure_when_asked() {
    let mut failed: Vec<usize> = Vec::new();
    assert_eq!(None, backend::bootstrap::after_script(&mut failed, 1, 5, false, true));
    assert!(failed.is_empty());
    assert_eq!(Some(3), backend::bootstrap::after_script(&mut failed, 2, 5, true, true));
    assert!(failed.is_empty());
    assert_eq!(None, backend::bootstrap::after_script(&mut failed, 4, 5, true, true));
}

#[test]
fn bootstrap_with_no_scripts_runs_nothing() {
    let (_db, report) = bootstrap(&config("/tmp/backend_bootstrap_nothing.tldb"), &Vec::new()).unwrap();
    assert!(report.ran.is_empty());
    assert!(report.failed.is_empty());
}
