use vstd::prelude::*;

use crate::element::{opt_text, ListElementPatch, PatchView};

verus! {

/// A value bound to a `?` placeholder of a statement.
#[derive(Debug, Clone, PartialEq, Eq)]
pub enum SqlValue {
    Null,
    Integer(i64),
    Text(String),
}

/// The mathematical form of a bound value.
pub enum SqlValueView {
    Null,
    Integer(i64),
    Text(Seq<char>),
}

impl View for SqlValue {
    type V = SqlValueView;

    open spec fn view(&self) -> SqlValueView {
        match self {
            SqlValue::Null => SqlValueView::Null,
            SqlValue::Integer(i) => SqlValueView::Integer(*i),
            SqlValue::Text(s) => SqlValueView::Text(s@),
        }
    }
}

/// The bound values of a statement, in placeholder order.
pub open spec fn values_view(v: Seq<SqlValue>) -> Seq<SqlValueView> {
    v.map_values(|x: SqlValue| x@)
}

/// The value that stands for an optional text: null where it is absent.
pub open spec fn nullable(o: Option<Seq<char>>) -> SqlValueView {
    match o {
        Some(s) => SqlValueView::Text(s),
        None => SqlValueView::Null,
    }
}

/// The value bound for an optional text.
pub fn nullable_value(o: &Option<String>) -> (r: SqlValue)
    ensures
        r@ == nullable(opt_text(*o)),
{
    match o {
        Some(s) => SqlValue::Text(s.clone()),
        None => SqlValue::Null,
    }
}

/// The columns of a row, in the order in which statements return them.
pub open spec fn row_columns() -> Seq<char> {
    "id, title, notes, tags, ctime, mtime, status"@
}

/// The parts joined by `", "`.
pub open spec fn join(parts: Seq<Seq<char>>) -> Seq<char>
    decreases parts.len(),
{
    if parts.len() == 0 {
        Seq::empty()
    } else if parts.len() == 1 {
        parts[0]
    } else {
        join(parts.drop_last()) + ", "@ + parts.last()
    }
}

/// `[name]` where `present` holds, else nothing.
pub open spec fn column_if(name: Seq<char>, present: bool) -> Seq<Seq<char>> {
    if present {
        seq![name]
    } else {
        Seq::empty()
    }
}

/// `[v]` where `present` holds, else nothing.
pub open spec fn value_if(v: SqlValueView, present: bool) -> Seq<SqlValueView> {
    if present {
        seq![v]
    } else {
        Seq::empty()
    }
}

/// The columns that an insert writes: those the patch carries, in table order.
pub open spec fn insert_columns(p: PatchView) -> Seq<Seq<char>> {
    column_if("title"@, p.title is Some) + column_if("notes"@, p.notes is Some) + column_if(
        "tags"@,
        p.tags is Some,
    ) + column_if("status"@, p.status is Some)
}

/// The values that an insert binds, one for each written column.
pub open spec fn insert_values(p: PatchView) -> Seq<SqlValueView> {
    value_if(nullable(p.title), p.title is Some) + value_if(
        nullable(p.notes.unwrap_or(None)),
        p.notes is Some,
    ) + value_if(nullable(p.tags.unwrap_or(None)), p.tags is Some) + value_if(
        nullable(p.status),
        p.status is Some,
    )
}

/// The insert statement for a patch: it names only the columns the patch
/// carries, so that every other column takes its default, and returns the
/// new row.
pub open spec fn insert_sql(p: PatchView) -> Seq<char> {
    let cols = insert_columns(p);
    if cols.len() == 0 {
        "INSERT INTO list DEFAULT VALUES RETURNING "@ + row_columns()
    } else {
        "INSERT INTO list ("@ + join(cols) + ") VALUES ("@ + join(
            Seq::new(cols.len(), |i: int| "?"@),
        ) + ") RETURNING "@ + row_columns()
    }
}

/// Joins the parts with `", "`.
pub fn join_parts(parts: &Vec<&str>) -> (r: String)
    ensures
        r@ == join(parts@.map_values(|s: &str| s@)),
{
    let ghost all = parts@.map_values(|s: &str| s@);
    let mut r = String::new();
    let mut i: usize = 0;
    while i < parts.len()
        invariant
            i <= parts@.len(),
            all == parts@.map_values(|s: &str| s@),
            r@ == join(all.take(i as int)),
        decreases parts.len() - i,
    {
        assert(all.take(i + 1).drop_last() =~= all.take(i as int));
        if i > 0 {
            r.append(", ");
        }
        r.append(parts[i]);
        proof {
            if i == 0 {
                assert(r@ =~= join(all.take(1)));
            }
        }
        i = i + 1;
    }
    assert(all.take(parts@.len() as int) =~= all);
    r
}

/// Builds the insert statement for a patch and the values it binds.
pub fn insert_statement(patch: &ListElementPatch) -> (r: (String, Vec<SqlValue>))
    ensures
        r.0@ == insert_sql(patch@),
        values_view(r.1@) == insert_values(patch@),
{
    let mut cols: Vec<&str> = Vec::new();
    let mut marks: Vec<&str> = Vec::new();
    let mut vals: Vec<SqlValue> = Vec::new();
    let ghost p = patch@;
    if let Some(t) = &patch.title {
        cols.push("title");
        marks.push("?");
        vals.push(SqlValue::Text(t.clone()));
    }
    assert(cols@.map_values(|s: &str| s@) =~= column_if("title"@, p.title is Some));
    assert(values_view(vals@) =~= value_if(nullable(p.title), p.title is Some));
    let ghost c1 = cols@;
    let ghost v1 = vals@;
    if let Some(n) = &patch.notes {
        cols.push("notes");
        marks.push("?");
        vals.push(nullable_value(n));
    }
    assert(cols@.map_values(|s: &str| s@) =~= c1.map_values(|s: &str| s@) + column_if(
        "notes"@,
        p.notes is Some,
    ));
    assert(values_view(vals@) =~= values_view(v1) + value_if(
        nullable(p.notes.unwrap_or(None)),
        p.notes is Some,
    ));
    let ghost c2 = cols@;
    let ghost v2 = vals@;
    if let Some(t) = &patch.tags {
        cols.push("tags");
        marks.push("?");
        vals.push(nullable_value(t));
    }
    assert(cols@.map_values(|s: &str| s@) =~= c2.map_values(|s: &str| s@) + column_if(
        "tags"@,
        p.tags is Some,
    ));
    assert(values_view(vals@) =~= values_view(v2) + value_if(
        nullable(p.tags.unwrap_or(None)),
        p.tags is Some,
    ));
    let ghost c3 = cols@;
    let ghost v3 = vals@;
    if let Some(s) = &patch.status {
        cols.push("status");
        marks.push("?");
        vals.push(SqlValue::Text(s.clone()));
    }
    assert(cols@.map_values(|s: &str| s@) =~= c3.map_values(|s: &str| s@) + column_if(
        "status"@,
        p.status is Some,
    ));
    assert(values_view(vals@) =~= values_view(v3) + value_if(nullable(p.status), p.status is Some));
    assert(cols@.map_values(|s: &str| s@) =~= insert_columns(p));
    assert(values_view(vals@) =~= insert_values(p));
    assert(marks@.map_values(|s: &str| s@) =~= Seq::new(cols@.len(), |i: int| "?"@));
    let mut sql: String;
    if cols.len() == 0 {
        sql = String::from_str("INSERT INTO list DEFAULT VALUES RETURNING ");
    } else {
        sql = String::from_str("INSERT INTO list (");
        let names = join_parts(&cols);
        sql.append(names.as_str());
        sql.append(") VALUES (");
        let places = join_parts(&marks);
        sql.append(places.as_str());
        sql.append(") RETURNING ");
    }
    sql.append("id, title, notes, tags, ctime, mtime, status");
    (sql, vals)
}

} // verus!
