use vstd::prelude::*;

use crate::db::{connect, fetch_rows, open_pool, pool_opened, run_batch, standard_options, ConnectionOptions, DbPool};
use crate::element::{
    PatchView,
    copy_opt, first_n, first_rows, inserted, opt_text, parse_rows, patch_status_ok, patched, select_by_tags,
    select_by_title, select_tags, select_title, updated, views, ListElement, ListElementPatch,
    ListElementView,
};
use crate::error::Error;
use crate::query::{insert_statement, nullable, nullable_value, values_view, SqlValue, SqlValueView};
use crate::text::same_str;

verus! {

/// Every row, in the order in which it was stored.
pub const SELECT_ALL: &'static str = "SELECT id, title, notes, tags, ctime, mtime, status FROM list ORDER BY rowid";

/// The rows with a given title, in the order in which they were stored.
pub const SELECT_BY_TITLE: &'static str = "SELECT id, title, notes, tags, ctime, mtime, status FROM list WHERE title = ? ORDER BY rowid";

/// Writes the merged fields of one row and stamps its modification time.
pub const UPDATE_BY_ID: &'static str = "UPDATE list SET title = ?, notes = ?, tags = ?, status = ?, mtime = datetime('now') WHERE id = ? RETURNING id, title, notes, tags, ctime, mtime, status";


/// An error that the store or the pool reports.
pub open spec fn store_error(e: Error) -> bool {
    e matches Error::ConnectionError(_) || e matches Error::StorageEngineError(_)
}

/// An error that the store or the pool reports, or that opening the pool for
/// a path reports.
pub open spec fn path_store_error(e: Error) -> bool {
    e matches Error::ConfigurationError(_) || store_error(e)
}

/// The name under which items are stored.
pub open spec fn entity_kind() -> Seq<char> {
    "list"@
}

/// The outcome of a create: the patch's fields where it has them, the store's
/// defaults elsewhere; a patch with an unknown status is refused.
pub open spec fn create_outcome(patch: ListElementPatch, r: Result<ListElement, Error>) -> bool {
    match r {
        Ok(e) => patch_status_ok(patch@) && exists|stored: ListElementView|
            e@ == #[trigger] inserted(patch@, stored),
        Err(Error::InvalidStatus(t)) => !patch_status_ok(patch@) && patch@.status == Some(t@),
        Err(Error::EntityNotFound(_, _)) => patch_status_ok(patch@),
        Err(Error::ConnectionError(_)) => patch_status_ok(patch@),
        Err(Error::StorageEngineError(_)) => patch_status_ok(patch@),
        Err(_) => false,
    }
}

/// The outcome of an update of the rows titled `title`: one of them as the
/// update merge left it; none found is `EntityNotFound`; a patch with an
/// unknown status is refused.
pub open spec fn update_outcome(title: Seq<char>, patch: ListElementPatch, r: Result<ListElement, Error>) -> bool {
    match r {
        Ok(e) => patch_status_ok(patch@) && e@.mtime is Some && exists|old: ListElementView, stamp: Seq<char>|
            old.title == title && e@ == #[trigger] updated(old, patch@, Some(stamp)),
        Err(Error::InvalidStatus(t)) => !patch_status_ok(patch@) && patch@.status == Some(t@),
        Err(Error::EntityNotFound(k, t)) => patch_status_ok(patch@) && k@ == entity_kind() && t@
            == title,
        Err(Error::ConnectionError(_)) => patch_status_ok(patch@),
        Err(Error::StorageEngineError(_)) => patch_status_ok(patch@),
        Err(_) => false,
    }
}

/// The statement that removes the rows with a given title.
pub open spec fn delete_sql() -> Seq<char> {
    "DELETE FROM list WHERE title = ?"@
}

/// The statement that removes the rows titled `title`, and the value it binds.
pub fn delete_statement(title: &String) -> (r: (String, Vec<SqlValue>))
    ensures
        r.0@ == delete_sql(),
        values_view(r.1@) == seq![SqlValueView::Text(title@)],
{
    let mut values: Vec<SqlValue> = Vec::new();
    values.push(SqlValue::Text(title.clone()));
    assert(values_view(values@) =~= seq![SqlValueView::Text(title@)]);
    (String::from_str("DELETE FROM list WHERE title = ?"), values)
}

/// The values bound to [`UPDATE_BY_ID`]: the merged fields, then the row's id.
pub open spec fn update_values(merged: ListElementView, id: i32) -> Seq<SqlValueView> {
    seq![
        SqlValueView::Text(merged.title),
        nullable(merged.notes),
        nullable(merged.tags),
        SqlValueView::Text(merged.status),
        SqlValueView::Integer(id as i64),
    ]
}

/// The values that write the merged fields to the row with id `id`.
pub fn update_params(merged: &ListElement, id: i32) -> (r: Vec<SqlValue>)
    ensures
        values_view(r@) == update_values(merged@, id),
{
    let mut r: Vec<SqlValue> = Vec::new();
    r.push(SqlValue::Text(merged.title.clone()));
    r.push(nullable_value(&merged.notes));
    r.push(nullable_value(&merged.tags));
    r.push(SqlValue::Text(merged.status.clone()));
    r.push(SqlValue::Integer(id as i64));
    assert(values_view(r@) =~= update_values(merged@, id));
    r
}

/// The write planned for a row read by title: for a row titled exactly
/// `title`, the values that store its update merge; nothing for any other.
pub open spec fn planned_write(e: ListElementView, title: Seq<char>, p: PatchView) -> Option<Seq<SqlValueView>> {
    if e.title == title {
        Some(update_values(updated(e, p, None), e.id))
    } else {
        None
    }
}

/// A planned write in mathematical form.
pub open spec fn write_view(w: Option<Vec<SqlValue>>) -> Option<Seq<SqlValueView>> {
    match w {
        Some(v) => Some(values_view(v@)),
        None => None,
    }
}

/// The writes of an update, one for each row read by title, in order: the
/// values for [`UPDATE_BY_ID`] where the row's title is exactly `title`.
pub fn update_writes(items: &Vec<ListElement>, title: &str, patch: &ListElementPatch) -> (r: Vec<Option<Vec<SqlValue>>>)
    ensures
        r@.len() == items@.len(),
        forall|k: int| 0 <= k < items@.len() ==> write_view(#[trigger] r@[k]) == planned_write(items@[k]@, title@, patch@),
{
    let mut r: Vec<Option<Vec<SqlValue>>> = Vec::new();
    let mut i: usize = 0;
    while i < items.len()
        invariant
            i <= items@.len(),
            r@.len() == i,
            forall|k: int| 0 <= k < i ==> write_view(#[trigger] r@[k]) == planned_write(items@[k]@, title@, patch@),
        decreases items.len() - i,
    {
        let old = &items[i];
        if same_str(old.title.as_str(), title) {
            let merged = patch.apply_update(old, None);
            r.push(Some(update_params(&merged, old.id)));
        } else {
            r.push(None);
        }
        i = i + 1;
    }
    r
}

/// The new item from the rows an insert returned: the insert merge of the
/// patch over the first of them; none is `EntityNotFound` under the
/// patch's title.
pub fn created_row(rows: &Vec<ListElement>, patch: &ListElementPatch) -> (r: Result<ListElement, Error>)
    ensures
        match r {
            Ok(e) => rows@.len() > 0 && e@ == inserted(patch@, rows@[0]@),
            Err(Error::EntityNotFound(k, t)) => rows@.len() == 0 && k@ == entity_kind() && t@
                == patched(patch@.title, Seq::empty()),
            Err(_) => false,
        },
{
    if rows.len() == 0 {
        let key = match &patch.title {
            Some(t) => t.clone(),
            None => String::new(),
        };
        return Err(Error::EntityNotFound(String::from_str("list"), key));
    }
    Ok(patch.apply_insert(&rows[0]))
}

/// The stamps the store gave back, each in mathematical form: nothing where
/// the row was not written.
pub open spec fn stamp_views(stamps: Seq<Option<String>>) -> Seq<Option<Seq<char>>> {
    stamps.map_values(|s: Option<String>| opt_text(s))
}

/// Row `k` carries the title `title` and the store wrote it.
pub open spec fn written_at(
    items: Seq<ListElementView>,
    stamps: Seq<Option<Seq<char>>>,
    title: Seq<char>,
    k: int,
) -> bool {
    &&& 0 <= k < items.len()
    &&& k < stamps.len()
    &&& items[k].title == title
    &&& stamps[k] is Some
}

/// The outcome of an update from the rows fetched by title and the stamp the
/// store gave back for each row it wrote: the first row titled `title` that
/// was written, as the update merge left it with its stamp; none is
/// `EntityNotFound`.
pub fn pick_updated(
    items: &Vec<ListElement>,
    stamps: &Vec<Option<String>>,
    title: &str,
    patch: &ListElementPatch,
) -> (r: Result<ListElement, Error>)
    ensures
        match r {
            Ok(e) => exists|k: int|
                written_at(views(items@), stamp_views(stamps@), title@, k) && (forall|j: int|
                    0 <= j < k ==> !written_at(views(items@), stamp_views(stamps@), title@, j))
                    && #[trigger] e@ == updated(items@[k]@, patch@, stamp_views(stamps@)[k]),
            Err(Error::EntityNotFound(kd, t)) => kd@ == entity_kind() && t@ == title@ && forall|k: int|
                0 <= k < items@.len() ==> !written_at(views(items@), stamp_views(stamps@), title@, k),
            Err(_) => false,
        },
{
    let mut i: usize = 0;
    while i < items.len()
        invariant
            i <= items@.len(),
            forall|j: int| 0 <= j < i ==> !written_at(views(items@), stamp_views(stamps@), title@, j),
        decreases items.len() - i,
    {
        if i < stamps.len() && same_str(items[i].title.as_str(), title) {
            match &stamps[i] {
                Some(stamp) => {
                    let e = patch.apply_update(&items[i], Some(stamp.clone()));
                    assert(written_at(views(items@), stamp_views(stamps@), title@, i as int));
                    assert(e@ == updated(items@[i as int]@, patch@, stamp_views(stamps@)[i as int]));
                    return Ok(e);
                },
                None => {},
            }
        }
        i = i + 1;
    }
    Err(Error::EntityNotFound(String::from_str("list"), String::from_str(title)))
}

/// Model access controller for list items: typed create, read, search,
/// update and delete over the `list` table.
pub struct ListElementMAC;

impl ListElementMAC {
    fn load_all(db: &DbPool) -> (r: Result<Vec<ListElement>, Error>)
        ensures
            r matches Err(e) ==> store_error(e),
    {
        let conn = match connect(db) {
            Ok(c) => c,
            Err(e) => {
                return Err(e);
            },
        };
        let no_params: Vec<SqlValue> = Vec::new();
        match fetch_rows(&conn, SELECT_ALL, &no_params) {
            Ok(rows) => Ok(parse_rows(rows)),
            Err(e) => Err(e),
        }
    }

    /// Inserts a new item built from the patch: each field it carries is
    /// written, each other column takes its default. Returns the new row
    /// with its fresh `id` and `ctime`.
    pub fn create(db: &DbPool, patch: ListElementPatch) -> (r: Result<ListElement, Error>)
        ensures
            create_outcome(patch, r),
    {
        if !patch.has_valid_status() {
            let status = match &patch.status {
                Some(s) => s.clone(),
                None => String::new(),
            };
            return Err(Error::InvalidStatus(status));
        }
        let (sql, params) = insert_statement(&patch);
        let conn = match connect(db) {
            Ok(c) => c,
            Err(e) => {
                return Err(e);
            },
        };
        let rows = match fetch_rows(&conn, sql.as_str(), &params) {
            Ok(rows) => parse_rows(rows),
            Err(e) => {
                return Err(e);
            },
        };
        created_row(&rows, &patch)
    }

    /// All items in the order in which they were stored, or only the first
    /// `limit` of them where a non-negative limit is given.
    pub fn get_all(db: &DbPool, limit: Option<i64>) -> (r: Result<Vec<ListElement>, Error>)
        ensures
            r matches Err(e) ==> store_error(e),
            r matches Ok(v) ==> exists|all: Seq<ListElementView>| views(v@) == #[trigger] first_n(all, limit),
    {
        match Self::load_all(db) {
            Ok(all) => {
                let ghost whole = views(all@);
                let v = first_rows(all, limit);
                assert(views(v@) == first_n(whole, limit));
                Ok(v)
            },
            Err(e) => Err(e),
        }
    }

    /// The items whose title holds `name` as a substring, in storage order;
    /// none is an empty list, not an error.
    pub fn get_from_name(db: &DbPool, name: String) -> (r: Result<Vec<ListElement>, Error>)
        ensures
            r matches Err(e) ==> store_error(e),
            r matches Ok(v) ==> exists|all: Seq<ListElementView>| views(v@) == #[trigger] select_title(all, name@),
    {
        match Self::load_all(db) {
            Ok(all) => {
                let v = select_by_title(&all, name.as_str());
                assert(views(v@) == select_title(views(all@), name@));
                Ok(v)
            },
            Err(e) => Err(e),
        }
    }

    /// The items whose stored tags text holds `tag_string` as a substring, in
    /// storage order. The match is on the whole text, so it may run across
    /// the space between two tags.
    pub fn get_from_tags(db: &DbPool, tag_string: String) -> (r: Result<Vec<ListElement>, Error>)
        ensures
            r matches Err(e) ==> store_error(e),
            r matches Ok(v) ==> exists|all: Seq<ListElementView>| views(v@) == #[trigger] select_tags(all, tag_string@),
    {
        match Self::load_all(db) {
            Ok(all) => {
                let v = select_by_tags(&all, tag_string.as_str());
                assert(views(v@) == select_tags(views(all@), tag_string@));
                Ok(v)
            },
            Err(e) => Err(e),
        }
    }

    /// Applies the patch by the update merge to every row titled exactly
    /// `le_title` and stamps their modification time. Returns the first of
    /// them as it now is. The read and the writes run in one immediate
    /// transaction, so no other writer changes a row between them.
    pub fn update(db: &DbPool, le_title: String, patch: &ListElementPatch) -> (r: Result<ListElement, Error>)
        ensures
            update_outcome(le_title@, *patch, r),
    {
        if !patch.has_valid_status() {
            let status = match &patch.status {
                Some(s) => s.clone(),
                None => String::new(),
            };
            return Err(Error::InvalidStatus(status));
        }
        let conn = match connect(db) {
            Ok(c) => c,
            Err(e) => {
                return Err(e);
            },
        };
        let (_, begun) = run_batch(&conn, "BEGIN IMMEDIATE");
        if let Err(e) = begun {
            return Err(Error::StorageEngineError(e));
        }
        let mut by_title: Vec<SqlValue> = Vec::new();
        by_title.push(SqlValue::Text(le_title.clone()));
        let items = match fetch_rows(&conn, SELECT_BY_TITLE, &by_title) {
            Ok(rows) => parse_rows(rows),
            Err(e) => {
                let _ = run_batch(&conn, "ROLLBACK");
                return Err(e);
            },
        };
        let writes = update_writes(&items, le_title.as_str(), patch);
        let mut stamps: Vec<Option<String>> = Vec::new();
        let mut i: usize = 0;
        while i < writes.len()
            invariant
                i <= writes@.len(),
                stamps@.len() == i,
                patch_status_ok(patch@),
            decreases writes.len() - i,
        {
            match &writes[i] {
                Some(values) => {
                    let written = match fetch_rows(&conn, UPDATE_BY_ID, values) {
                        Ok(rows) => rows,
                        Err(e) => {
                            let _ = run_batch(&conn, "ROLLBACK");
                            return Err(e);
                        },
                    };
                    if written.len() > 0 {
                        stamps.push(copy_opt(&written[0].5));
                    } else {
                        stamps.push(None);
                    }
                },
                None => {
                    stamps.push(None);
                },
            }
            i = i + 1;
        }
        let (_, committed) = run_batch(&conn, "COMMIT");
        if let Err(e) = committed {
            let _ = run_batch(&conn, "ROLLBACK");
            return Err(Error::StorageEngineError(e));
        }
        pick_updated(&items, &stamps, le_title.as_str(), patch)
    }

    /// Removes every row titled exactly `le_title`. A title that no row has
    /// is no error: nothing is removed.
    pub fn delete(db: &DbPool, le_title: String) -> (r: Result<(), Error>)
        ensures
            r matches Err(e) ==> store_error(e),
    {
        let conn = match connect(db) {
            Ok(c) => c,
            Err(e) => {
                return Err(e);
            },
        };
        let (sql, params) = delete_statement(&le_title);
        match fetch_rows(&conn, sql.as_str(), &params) {
            Ok(_) => Ok(()),
            Err(e) => Err(e),
        }
    }

    /// [`create`](Self::create) on a pool opened for the file at `db_path`.
    pub fn create_from_path(db_path: &str, patch: ListElementPatch) -> (r: Result<ListElement, Error>)
        ensures
            r matches Err(Error::ConfigurationError(_)) || create_outcome(patch, r),
    {
        match establish_connection(db_path) {
            Ok(db) => Self::create(&db, patch),
            Err(e) => Err(e),
        }
    }

    /// [`get_all`](Self::get_all) on a pool opened for the file at `db_path`.
    pub fn get_all_from_path(db_path: &str, limit: Option<i64>) -> (r: Result<Vec<ListElement>, Error>)
        ensures
            r matches Err(e) ==> path_store_error(e),
            r matches Ok(v) ==> exists|all: Seq<ListElementView>| views(v@) == #[trigger] first_n(all, limit),
    {
        match establish_connection(db_path) {
            Ok(db) => Self::get_all(&db, limit),
            Err(e) => Err(e),
        }
    }

    /// [`get_from_name`](Self::get_from_name) on a pool opened for the file at `db_path`.
    pub fn get_from_name_from_path(db_path: &str, name: String) -> (r: Result<Vec<ListElement>, Error>)
        ensures
            r matches Err(e) ==> path_store_error(e),
            r matches Ok(v) ==> exists|all: Seq<ListElementView>| views(v@) == #[trigger] select_title(all, name@),
    {
        match establish_connection(db_path) {
            Ok(db) => Self::get_from_name(&db, name),
            Err(e) => Err(e),
        }
    }

    /// [`get_from_tags`](Self::get_from_tags) on a pool opened for the file at `db_path`.
    pub fn get_from_tags_from_path(db_path: &str, tag_string: String) -> (r: Result<Vec<ListElement>, Error>)
        ensures
            r matches Err(e) ==> path_store_error(e),
            r matches Ok(v) ==> exists|all: Seq<ListElementView>| views(v@) == #[trigger] select_tags(all, tag_string@),
    {
        match establish_connection(db_path) {
            Ok(db) => Self::get_from_tags(&db, tag_string),
            Err(e) => Err(e),
        }
    }

    /// [`update`](Self::update) on a pool opened for the file at `db_path`.
    pub fn update_from_path(db_path: &str, le_title: String, patch: &ListElementPatch) -> (r: Result<ListElement, Error>)
        ensures
            r matches Err(Error::ConfigurationError(_)) || update_outcome(le_title@, *patch, r),
    {
        match establish_connection(db_path) {
            Ok(db) => Self::update(&db, le_title, patch),
            Err(e) => Err(e),
        }
    }

    /// [`delete`](Self::delete) on a pool opened for the file at `db_path`.
    pub fn delete_from_path(db_path: &str, le_title: String) -> (r: Result<(), Error>)
        ensures
            r matches Err(e) ==> path_store_error(e),
    {
        match establish_connection(db_path) {
            Ok(db) => Self::delete(&db, le_title),
            Err(e) => Err(e),
        }
    }
}

/// The most connections a pool opened for a single call holds.
pub const PATH_POOL_SIZE: u32 = 5;

/// Opens a pool for the file at `db_path`, with the standard connection
/// set-up, for callers that hold no pool of their own.
pub fn establish_connection(db_path: &str) -> (r: Result<DbPool, Error>)
    ensures
        r matches Err(e) ==> e matches Error::ConfigurationError(_),
        r matches Ok(p) ==> pool_opened(p, db_path@, PATH_POOL_SIZE, standard_options()),
{
    open_pool(db_path, PATH_POOL_SIZE, &ConnectionOptions::standard())
}

} // verus!
