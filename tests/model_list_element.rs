use backend::{bootstrap, ListElementMAC, ListElementPatch, ListElementStatus, StoreConfig};

const SCHEMA: &str = "DROP TABLE IF EXISTS list;
CREATE TABLE list (
    id INTEGER PRIMARY KEY AUTOINCREMENT,
    title TEXT NOT NULL,
    notes TEXT,
    tags TEXT,
    ctime TEXT NOT NULL DEFAULT (datetime('now')),
    mtime TEXT,
    status TEXT NOT NULL DEFAULT 'Open'
);";

const SEED: &str = "INSERT INTO list (id, title, notes, tags, status) VALUES (10, 'List Element 10', NULL, 'foo', 'Open');
INSERT INTO list (id, title, notes, tags, status) VALUES (11, 'List Element 11', NULL, 'foo bar baz', 'Closed');
INSERT INTO list (id, title, notes, tags, status) VALUES (12, 'List Element', 'Lipsum Orem', 'foo bar', 'Archived');";

/// Makes a fresh seeded store in the file at `path`.
fn init_store(path: &str) {
    let mut c = StoreConfig::standard();
    c.store_path = path.to_string();
    let (_db, report) = bootstrap(&c, &vec![SCHEMA.to_string(), SEED.to_string()]).unwrap();
    assert!(report.failed.is_empty());
}

#[test]
fn model_list_element_create_from_path() {
    let path = "/tmp/backend_create_from_path.tldb";
    init_store(path);
    let data_fx = ListElementPatch {
        title: Some("Create Test".to_string()),
        status: Some(ListElementStatus::Closed.to_string()),
        ..Default::default()
    };

    let inserted_row = ListElementMAC::create_from_path(path, data_fx.clone()).unwrap();

    const EXPECTED_ID: i32 = 13;

    assert_eq!(EXPECTED_ID, inserted_row.id, "Create Test ID");
    assert_eq!(data_fx.title.unwrap(), inserted_row.title, "Create Test Title");
    assert_eq!(data_fx.status.unwrap(), inserted_row.status, "Create Test Status");
}

#[test]
fn create_leaves_unset_fields_to_defaults() {
    let path = "/tmp/backend_create_defaults.tldb";
    init_store(path);
    let patch = ListElementPatch {
        title: Some("Fresh".to_string()),
        status: Some(ListElementStatus::Open.to_string()),
        ..Default::default()
    };
    let first = ListElementMAC::create_from_path(path, patch.clone()).unwrap();
    assert_eq!(None, first.notes);
    assert_eq!(None, first.tags);
    assert_eq!(None, first.mtime);
    assert_eq!(19, first.ctime.len());
    assert_eq!(13, first.id);
    let second = ListElementMAC::create_from_path(path, patch).unwrap();
    assert_eq!(14, second.id);
}

#[test]
fn create_without_status_takes_the_column_default() {
    let path = "/tmp/backend_create_status_default.tldb";
    init_store(path);
    let patch = ListElementPatch {
        title: Some("No Status".to_string()),
        notes: Some(Some("n".to_string())),
        ..Default::default()
    };
    let row = ListElementMAC::create_from_path(path, patch).unwrap();
    assert_eq!("Open", row.status);
    assert_eq!(Some("n".to_string()), row.notes);
}

#[test]
fn create_without_title_is_a_storage_error() {
    let path = "/tmp/backend_create_no_title.tldb";
    init_store(path);
    let r = ListElementMAC::create_from_path(path, ListElementPatch::default());
    assert!(matches!(r, Err(backend::Error::StorageEngineError(_))));
}

#[test]
fn create_refuses_an_unknown_status() {
    let path = "/tmp/backend_create_bad_status.tldb";
    init_store(path);
    let patch = ListElementPatch {
        title: Some("Bad".to_string()),
        status: Some("Pending".to_string()),
        ..Default::default()
    };
    let r = ListElementMAC::create_from_path(path, patch);
    assert!(matches!(r, Err(backend::Error::InvalidStatus(ref s)) if s == "Pending"));
    assert_eq!(3, ListElementMAC::get_all_from_path(path, None).unwrap().len());
}

#[test]
fn created_item_reads_back_by_its_title() {
    let path = "/tmp/backend_round_trip.tldb";
    init_store(path);
    let patch = ListElementPatch {
        title: Some("Round Trip".to_string()),
        notes: Some(Some("some notes".to_string())),
        tags: Some(Some("a b".to_string())),
        status: Some(ListElementStatus::Archived.to_string()),
    };
    let created = ListElementMAC::create_from_path(path, patch).unwrap();
    let found = ListElementMAC::get_from_name_from_path(path, created.title.clone()).unwrap();
    assert_eq!(vec![created], found);
}

#[test]
fn model_list_element_get_all_from_path() {
    let path = "/tmp/backend_get_all_from_path.tldb";
    init_store(path);

    let rows = ListElementMAC::get_all_from_path(path, None).unwrap();

    let final_row = &rows[rows.len() - 1];

    assert_eq!(3, rows.len(), "Get Test Length");
    assert_eq!("List Element".to_string(), final_row.title, "Get Test Title");
    assert_eq!(ListElementStatus::Archived.to_string(), final_row.status, "Get Test Status");
}

#[test]
fn get_all_honours_the_limit() {
    let path = "/tmp/backend_get_all_limit.tldb";
    init_store(path);
    let two = ListElementMAC::get_all_from_path(path, Some(2)).unwrap();
    assert_eq!(2, two.len());
    assert_eq!("List Element 10", two[0].title);
    assert_eq!("List Element 11", two[1].title);
    assert_eq!(0, ListElementMAC::get_all_from_path(path, Some(0)).unwrap().len());
    assert_eq!(3, ListElementMAC::get_all_from_path(path, Some(10)).unwrap().len());
    assert_eq!(3, ListElementMAC::get_all_from_path(path, Some(-1)).unwrap().len());
}

#[test]
fn model_list_element_get_from_name_from_path_one_result() {
    let path = "/tmp/backend_get_from_name_one.tldb";
    init_store(path);

    let rows = ListElementMAC::get_from_name_from_path(path, "List Element 11".to_string()).unwrap();

    assert_eq!(1, rows.len(), "Get From Name One Result Test Length");
    assert_eq!("List Element 11".to_string(), rows[0].title, "Get Test Title");
    assert_eq!(ListElementStatus::Closed.to_string(), rows[0].status, "Get Test Status");
}

#[test]
fn model_list_element_get_from_name_from_path_many_results() {
    let path = "/tmp/backend_get_from_name_many.tldb";
    init_store(path);

    let rows = ListElementMAC::get_from_name_from_path(path, "List Element 1".to_string()).unwrap();

    assert_eq!(2, rows.len(), "Get From Name Many Results Test Length");
    assert_eq!("List Element 10".to_string(), rows[0].title, "Get From Name Many Results Test Title");
    assert_eq!(ListElementStatus::Open.to_string(), rows[0].status, "Get From Name Many Results Test Status");
    assert_eq!("List Element 11".to_string(), rows[1].title);
}

#[test]
fn get_from_name_with_no_match_is_empty() {
    let path = "/tmp/backend_get_from_name_none.tldb";
    init_store(path);
    let rows = ListElementMAC::get_from_name_from_path(path, "Nothing Like It".to_string()).unwrap();
    assert!(rows.is_empty());
}

#[test]
fn model_list_element_get_from_tags_from_path_one_result() {
    let path = "/tmp/backend_get_from_tags_one.tldb";
    init_store(path);

    let rows = ListElementMAC::get_from_tags_from_path(path, "foo bar baz".to_string()).unwrap();

    assert_eq!(1, rows.len(), "Get From Tags One Results Test Length");
    assert_eq!("List Element 11".to_string(), rows[0].title, "Get From Tags One Results Test Title");
    assert_eq!(ListElementStatus::Closed.to_string(), rows[0].status, "Get From Tags One Results Test Status");
}

#[test]
fn model_list_element_get_from_tags_from_path_many_results() {
    let path = "/tmp/backend_get_from_tags_many.tldb";
    init_store(path);

    let rows = ListElementMAC::get_from_tags_from_path(path, "foo".to_string()).unwrap();

    assert_eq!(3, rows.len(), "Get From Tags Many Results Test Length");
    assert_eq!("List Element".to_string(), rows[rows.len() - 1].title, "Get From Tags Many Results Test Title");
    assert_eq!(ListElementStatus::Archived.to_string(), rows[rows.len() - 1].status, "Get From Tags Many Results Test Status");
}

#[test]
fn model_list_element_update() {
    let path = "/tmp/backend_update.tldb";
    init_store(path);

    let data_fx = ListElementPatch {
        title: None,
        notes: Some(Some("foo bar baz".to_string())),
        tags: Some(Some("fo bar".to_string())),
        status: Some(ListElementStatus::Open.to_string()),
    };

    let updated_row = ListElementMAC::update_from_path(path, "List Element".to_string(), &data_fx).unwrap();

    assert_eq!("List Element".to_string(), updated_row.title, "Update Test Title");
    assert_eq!(data_fx.notes.unwrap(), updated_row.notes, "Update Test Notes");
    assert_eq!(data_fx.tags.unwrap(), updated_row.tags, "Update Test Tags");
    assert_eq!(data_fx.status.unwrap(), updated_row.status, "Update Test Status");
}

#[test]
fn model_list_element_update_no_change() {
    let path = "/tmp/backend_update_no_change.tldb";
    init_store(path);

    let data_fx = ListElementPatch { title: None, notes: None, tags: None, status: None };

    let updated_row = ListElementMAC::update_from_path(path, "List Element".to_string(), &data_fx).unwrap();

    assert_eq!("List Element".to_string(), updated_row.title, "Update No Change Test Title");
    assert_eq!("Lipsum Orem".to_string(), updated_row.notes.unwrap(), "Update No Change Test Notes");
    assert_eq!("foo bar".to_string(), updated_row.tags.unwrap(), "Update No Change Test Tags");
    assert_eq!(ListElementStatus::Archived.to_string(), updated_row.status, "Update No Change Test Status");
}

#[test]
fn update_notes_only_keeps_the_rest_and_stamps_mtime() {
    let path = "/tmp/backend_update_notes_only.tldb";
    init_store(path);
    let patch = ListElementPatch { notes: Some(Some("new".to_string())), ..Default::default() };
    let row = ListElementMAC::update_from_path(path, "List Element".to_string(), &patch).unwrap();
    assert_eq!("List Element", row.title);
    assert_eq!(Some("foo bar".to_string()), row.tags);
    assert_eq!("Archived", row.status);
    assert_eq!(Some("new".to_string()), row.notes);
    assert!(row.mtime.as_ref().map_or(false, |m| !m.is_empty()));

    let again = ListElementMAC::update_from_path(path, "List Element".to_string(), &ListElementPatch::empty()).unwrap();
    assert_eq!(row.id, again.id);
    assert_eq!(row.title, again.title);
    assert_eq!(row.notes, again.notes);
    assert_eq!(row.tags, again.tags);
    assert_eq!(row.status, again.status);
    assert_eq!(row.ctime, again.ctime);
    assert!(again.mtime.is_some());

    let stored = ListElementMAC::get_from_name_from_path(path, "List Element".to_string()).unwrap();
    let stored = stored.into_iter().find(|e| e.title == "List Element").unwrap();
    assert_eq!(again, stored);
}

#[test]
fn update_can_clear_a_nullable_field() {
    let path = "/tmp/backend_update_clear.tldb";
    init_store(path);
    let patch = ListElementPatch { notes: Some(None), ..Default::default() };
    let row = ListElementMAC::update_from_path(path, "List Element".to_string(), &patch).unwrap();
    assert_eq!(None, row.notes);
    assert_eq!(Some("foo bar".to_string()), row.tags);
}

#[test]
fn update_can_retitle() {
    let path = "/tmp/backend_update_retitle.tldb";
    init_store(path);
    let patch = ListElementPatch { title: Some("Renamed".to_string()), ..Default::default() };
    let row = ListElementMAC::update_from_path(path, "List Element".to_string(), &patch).unwrap();
    assert_eq!("Renamed", row.title);
    assert_eq!(12, row.id);
    let left = ListElementMAC::get_from_name_from_path(path, "Renamed".to_string()).unwrap();
    assert_eq!(1, left.len());
}

#[test]
fn update_of_a_missing_title_is_not_found() {
    let path = "/tmp/backend_update_missing.tldb";
    init_store(path);
    let r = ListElementMAC::update_from_path(path, "No Such Item".to_string(), &ListElementPatch::empty());
    assert!(matches!(r, Err(backend::Error::EntityNotFound(ref k, ref t)) if k == "list" && t == "No Such Item"));
}

#[test]
fn model_list_element_delete() {
    let path = "/tmp/backend_delete.tldb";
    init_store(path);

    ListElementMAC::delete_from_path(path, "List Element".to_string()).unwrap();

    let rows = ListElementMAC::get_all_from_path(path, None).unwrap();

    assert_eq!(2, rows.len(), "Delete Test Number of elements");
    assert!(rows.iter().all(|r| r.title != "List Element"));
}

#[test]
fn model_list_element_delete_nonexistant() {
    let path = "/tmp/backend_delete_nonexistant.tldb";
    init_store(path);

    ListElementMAC::delete_from_path(path, "foo bar".to_string()).unwrap();

    let rows = ListElementMAC::get_all_from_path(path, None).unwrap();

    assert_eq!(3, rows.len(), "Delete Non-Existant Test Number of elements");
}

#[test]
fn search_ignores_ascii_case_in_the_store() {
    let path = "/tmp/backend_search_case.tldb";
    init_store(path);
    assert_eq!(3, ListElementMAC::get_from_name_from_path(path, "list element".to_string()).unwrap().len());
    assert_eq!(1, ListElementMAC::get_from_tags_from_path(path, "FOO BAR BAZ".to_string()).unwrap().len());
}

#[test]
fn update_leaves_the_connection_usable() {
    let path = "/tmp/backend_update_twice.tldb";
    init_store(path);
    let missing = ListElementMAC::update_from_path(path, "Missing".to_string(), &ListElementPatch::empty());
    assert!(missing.is_err());
    let patch = ListElementPatch { status: Some("Closed".to_string()), ..Default::default() };
    let row = ListElementMAC::update_from_path(path, "List Element 10".to_string(), &patch).unwrap();
    assert_eq!("Closed", row.status);
    let again = ListElementMAC::get_from_name_from_path(path, "List Element 10".to_string()).unwrap();
    assert_eq!(vec![row], again);
}
