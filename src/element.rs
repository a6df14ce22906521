use vstd::prelude::*;

use crate::text::{contains_folded, contains_folded_str, same_str};

verus! {

/// The text form of an optional text value.
pub open spec fn opt_text(o: Option<String>) -> Option<Seq<char>> {
    match o {
        Some(s) => Some(s@),
        None => None,
    }
}

/// The text form of a patch entry for a nullable column: absent, explicit null, or a value.
pub open spec fn opt_opt_text(o: Option<Option<String>>) -> Option<Option<Seq<char>>> {
    match o {
        Some(v) => Some(opt_text(v)),
        None => None,
    }
}

/// Copies an optional text value.
pub fn copy_opt(o: &Option<String>) -> (r: Option<String>)
    ensures
        opt_text(r) == opt_text(*o),
{
    match o {
        Some(s) => Some(s.clone()),
        None => None,
    }
}

/// One stored item.
#[derive(Debug, Clone, Default, PartialEq, Eq)]
pub struct ListElement {
    pub id: i32,
    pub title: String,
    pub notes: Option<String>,
    pub tags: Option<String>,
    pub status: String,
    pub ctime: String,
    pub mtime: Option<String>,
}

/// The mathematical form of an item.
pub struct ListElementView {
    pub id: i32,
    pub title: Seq<char>,
    pub notes: Option<Seq<char>>,
    pub tags: Option<Seq<char>>,
    pub status: Seq<char>,
    pub ctime: Seq<char>,
    pub mtime: Option<Seq<char>>,
}

impl View for ListElement {
    type V = ListElementView;

    open spec fn view(&self) -> ListElementView {
        ListElementView {
            id: self.id,
            title: self.title@,
            notes: opt_text(self.notes),
            tags: opt_text(self.tags),
            status: self.status@,
            ctime: self.ctime@,
            mtime: opt_text(self.mtime),
        }
    }
}

/// The items of a sequence, each in its mathematical form.
pub open spec fn views(s: Seq<ListElement>) -> Seq<ListElementView> {
    s.map_values(|e: ListElement| e@)
}

impl ListElement {
    /// A copy of this item, field by field.
    pub fn duplicate(&self) -> (r: ListElement)
        ensures
            r@ == self@,
    {
        ListElement {
            id: self.id,
            title: self.title.clone(),
            notes: copy_opt(&self.notes),
            tags: copy_opt(&self.tags),
            status: self.status.clone(),
            ctime: self.ctime.clone(),
            mtime: copy_opt(&self.mtime),
        }
    }
}

/// A row as the store hands it out, in column order:
/// id, title, notes, tags, ctime, mtime, status.
pub type LETuple = (i32, String, Option<String>, Option<String>, String, Option<String>, String);

/// The item that a row of the store describes.
pub open spec fn row_view(row: LETuple) -> ListElementView {
    ListElementView {
        id: row.0,
        title: row.1@,
        notes: opt_text(row.2),
        tags: opt_text(row.3),
        ctime: row.4@,
        mtime: opt_text(row.5),
        status: row.6@,
    }
}

/// Maps a row of the store to the typed item.
pub fn parse_get_result(row: LETuple) -> (r: ListElement)
    ensures
        r@ == row_view(row),
{
    ListElement {
        id: row.0,
        title: row.1,
        notes: row.2,
        tags: row.3,
        ctime: row.4,
        mtime: row.5,
        status: row.6,
    }
}

/// Maps every row of the store to a typed item, keeping their order.
pub fn parse_rows(rows: Vec<LETuple>) -> (r: Vec<ListElement>)
    ensures
        views(r@) == rows@.map_values(|row: LETuple| row_view(row)),
{
    let mut rows = rows;
    let ghost all = rows@;
    let mut rev: Vec<ListElement> = Vec::new();
    while rows.len() > 0
        invariant
            rows@ == all.take(rows@.len() as int),
            rows@.len() <= all.len(),
            rev@.len() + rows@.len() == all.len(),
            forall|k: int|
                0 <= k < rev@.len() ==> #[trigger] rev@[k]@ == row_view(all[all.len() - 1 - k]),
        decreases rows.len(),
    {
        let row = rows.pop().unwrap();
        rev.push(parse_get_result(row));
    }
    let mut r: Vec<ListElement> = Vec::new();
    while rev.len() > 0
        invariant
            r@.len() + rev@.len() == all.len(),
            forall|k: int|
                0 <= k < rev@.len() ==> #[trigger] rev@[k]@ == row_view(all[all.len() - 1 - k]),
            forall|k: int| 0 <= k < r@.len() ==> #[trigger] r@[k]@ == row_view(all[k]),
        decreases rev.len(),
    {
        let e = rev.pop().unwrap();
        r.push(e);
    }
    assert(views(r@) =~= all.map_values(|row: LETuple| row_view(row)));
    r
}

/// The lifecycle states an item can be in.
#[derive(Debug, Clone, Copy, PartialEq, Eq)]
pub enum ListElementStatus {
    Open,
    Archived,
    Closed,
}

/// The text under which a status is stored.
pub open spec fn status_text(s: ListElementStatus) -> Seq<char> {
    match s {
        ListElementStatus::Open => "Open"@,
        ListElementStatus::Archived => "Archived"@,
        ListElementStatus::Closed => "Closed"@,
    }
}

/// The text is the stored form of one of the statuses.
pub open spec fn is_status_text(t: Seq<char>) -> bool {
    exists|s: ListElementStatus| status_text(s) == t
}

impl ListElementStatus {
    /// The stored text form of this status.
    pub fn to_string(&self) -> (r: String)
        ensures
            r@ == status_text(*self),
    {
        match self {
            ListElementStatus::Open => String::from_str("Open"),
            ListElementStatus::Archived => String::from_str("Archived"),
            ListElementStatus::Closed => String::from_str("Closed"),
        }
    }

    /// The status whose stored text form is `t`, if there is one.
    pub fn from_text(t: &str) -> (r: Option<ListElementStatus>)
        ensures
            match r {
                Some(s) => status_text(s) == t@,
                None => !is_status_text(t@),
            },
    {
        if same_str(t, "Open") {
            Some(ListElementStatus::Open)
        } else if same_str(t, "Archived") {
            Some(ListElementStatus::Archived)
        } else if same_str(t, "Closed") {
            Some(ListElementStatus::Closed)
        } else {
            proof {
                assert forall|s: ListElementStatus| status_text(s) != t@ by {
                    match s {
                        ListElementStatus::Open => {},
                        ListElementStatus::Archived => {},
                        ListElementStatus::Closed => {},
                    }
                }
            }
            None
        }
    }
}

/// The fields a caller wants to set. `None` leaves a field out. For the
/// nullable columns `notes` and `tags`, `Some(None)` asks for null and
/// `Some(Some(v))` for the value `v`.
#[derive(Debug, Clone, Default, PartialEq, Eq)]
pub struct ListElementPatch {
    pub title: Option<String>,
    pub notes: Option<Option<String>>,
    pub tags: Option<Option<String>>,
    pub status: Option<String>,
}

/// The mathematical form of a patch.
pub struct PatchView {
    pub title: Option<Seq<char>>,
    pub notes: Option<Option<Seq<char>>>,
    pub tags: Option<Option<Seq<char>>>,
    pub status: Option<Seq<char>>,
}

impl View for ListElementPatch {
    type V = PatchView;

    open spec fn view(&self) -> PatchView {
        PatchView {
            title: opt_text(self.title),
            notes: opt_opt_text(self.notes),
            tags: opt_opt_text(self.tags),
            status: opt_text(self.status),
        }
    }
}

/// The patch that sets nothing.
pub open spec fn empty_patch() -> PatchView {
    PatchView { title: None, notes: None, tags: None, status: None }
}

/// The value of a field after a patch entry: the entry where present, else `current`.
pub open spec fn patched<T>(entry: Option<T>, current: T) -> T {
    match entry {
        Some(v) => v,
        None => current,
    }
}

/// Update merge: each field present in the patch replaces the stored one,
/// each absent field keeps its stored value; `id` and `ctime` never change,
/// and `mtime` takes the stamp of the update.
pub open spec fn updated(old: ListElementView, p: PatchView, stamp: Option<Seq<char>>) -> ListElementView {
    ListElementView {
        id: old.id,
        title: patched(p.title, old.title),
        notes: patched(p.notes, old.notes),
        tags: patched(p.tags, old.tags),
        status: patched(p.status, old.status),
        ctime: old.ctime,
        mtime: stamp,
    }
}

/// Insert merge: each field present in the patch is the one written, each
/// absent field is what the store filled in by its column default (`stored`).
pub open spec fn inserted(p: PatchView, stored: ListElementView) -> ListElementView {
    ListElementView {
        id: stored.id,
        title: patched(p.title, stored.title),
        notes: patched(p.notes, stored.notes),
        tags: patched(p.tags, stored.tags),
        status: patched(p.status, stored.status),
        ctime: stored.ctime,
        mtime: stored.mtime,
    }
}

/// The patch sets no status, or one of the known status texts.
pub open spec fn patch_status_ok(p: PatchView) -> bool {
    match p.status {
        Some(t) => is_status_text(t),
        None => true,
    }
}

fn patch_text(entry: &Option<String>, current: &String) -> (r: String)
    ensures
        r@ == patched(opt_text(*entry), current@),
{
    match entry {
        Some(v) => v.clone(),
        None => current.clone(),
    }
}

fn patch_opt(entry: &Option<Option<String>>, current: &Option<String>) -> (r: Option<String>)
    ensures
        opt_text(r) == patched(opt_opt_text(*entry), opt_text(*current)),
{
    match entry {
        Some(v) => copy_opt(v),
        None => copy_opt(current),
    }
}

impl ListElementPatch {
    /// A patch that sets nothing.
    pub fn empty() -> (r: ListElementPatch)
        ensures
            r@ == empty_patch(),
    {
        ListElementPatch { title: None, notes: None, tags: None, status: None }
    }

    /// Tells whether the status this patch sets, if any, is a known one.
    pub fn has_valid_status(&self) -> (r: bool)
        ensures
            r == patch_status_ok(self@),
    {
        match &self.status {
            Some(t) => ListElementStatus::from_text(t.as_str()).is_some(),
            None => true,
        }
    }

    /// Applies this patch to a stored item by the update merge, with `stamp`
    /// as the new modification time.
    pub fn apply_update(&self, old: &ListElement, stamp: Option<String>) -> (r: ListElement)
        ensures
            r@ == updated(old@, self@, opt_text(stamp)),
    {
        ListElement {
            id: old.id,
            title: patch_text(&self.title, &old.title),
            notes: patch_opt(&self.notes, &old.notes),
            tags: patch_opt(&self.tags, &old.tags),
            status: patch_text(&self.status, &old.status),
            ctime: old.ctime.clone(),
            mtime: stamp,
        }
    }

    /// Applies this patch by the insert merge over `stored`, the row the
    /// store made with its column defaults.
    pub fn apply_insert(&self, stored: &ListElement) -> (r: ListElement)
        ensures
            r@ == inserted(self@, stored@),
    {
        ListElement {
            id: stored.id,
            title: patch_text(&self.title, &stored.title),
            notes: patch_opt(&self.notes, &stored.notes),
            tags: patch_opt(&self.tags, &stored.tags),
            status: patch_text(&self.status, &stored.status),
            ctime: stored.ctime.clone(),
            mtime: copy_opt(&stored.mtime),
        }
    }
}

/// The item's title holds `needle`, ASCII letters compared without regard
/// to case, as SQLite's `LIKE` compares them by default. No character of
/// `needle` is a wildcard.
pub open spec fn title_matches(e: ListElementView, needle: Seq<char>) -> bool {
    contains_folded(e.title, needle)
}

/// The item has tags and their stored text holds `needle`, ASCII letters
/// compared without regard to case.
pub open spec fn tags_match(e: ListElementView, needle: Seq<char>) -> bool {
    match e.tags {
        Some(t) => contains_folded(t, needle),
        None => false,
    }
}

/// The items whose title holds `needle`, in their order.
pub open spec fn select_title(s: Seq<ListElementView>, needle: Seq<char>) -> Seq<ListElementView> {
    s.filter(|e: ListElementView| title_matches(e, needle))
}

/// The items whose tags hold `needle`, in their order.
pub open spec fn select_tags(s: Seq<ListElementView>, needle: Seq<char>) -> Seq<ListElementView> {
    s.filter(|e: ListElementView| tags_match(e, needle))
}

/// The first `limit` items, or all of them where there is no limit or it is negative.
pub open spec fn first_n(s: Seq<ListElementView>, limit: Option<i64>) -> Seq<ListElementView> {
    match limit {
        Some(n) => if 0 <= n < s.len() {
            s.take(n as int)
        } else {
            s
        },
        None => s,
    }
}

fn item_title_matches(e: &ListElement, needle: &str) -> (r: bool)
    ensures
        r == title_matches(e@, needle@),
{
    contains_folded_str(e.title.as_str(), needle)
}

fn item_tags_match(e: &ListElement, needle: &str) -> (r: bool)
    ensures
        r == tags_match(e@, needle@),
{
    match &e.tags {
        Some(t) => contains_folded_str(t.as_str(), needle),
        None => false,
    }
}

/// The items whose title holds `needle` as a substring, in their order.
pub fn select_by_title(items: &Vec<ListElement>, needle: &str) -> (r: Vec<ListElement>)
    ensures
        views(r@) == select_title(views(items@), needle@),
{
    let mut r: Vec<ListElement> = Vec::new();
    let mut i: usize = 0;
    while i < items.len()
        invariant
            i <= items@.len(),
            views(r@) == select_title(views(items@).take(i as int), needle@),
        decreases items.len() - i,
    {
        let ghost pre = views(items@).take(i as int);
        assert(views(items@).take(i + 1).drop_last() =~= pre);
        reveal(Seq::filter);
        let ghost before = r@;
        if item_title_matches(&items[i], needle) {
            r.push(items[i].duplicate());
            assert(views(r@) =~= views(before).push(items@[i as int]@));
        }
        i = i + 1;
    }
    assert(views(items@).take(items@.len() as int) =~= views(items@));
    r
}

/// The items whose stored tags text holds `needle` as a substring, in their
/// order; an item without tags never matches.
pub fn select_by_tags(items: &Vec<ListElement>, needle: &str) -> (r: Vec<ListElement>)
    ensures
        views(r@) == select_tags(views(items@), needle@),
{
    let mut r: Vec<ListElement> = Vec::new();
    let mut i: usize = 0;
    while i < items.len()
        invariant
            i <= items@.len(),
            views(r@) == select_tags(views(items@).take(i as int), needle@),
        decreases items.len() - i,
    {
        let ghost pre = views(items@).take(i as int);
        assert(views(items@).take(i + 1).drop_last() =~= pre);
        reveal(Seq::filter);
        let ghost before = r@;
        if item_tags_match(&items[i], needle) {
            r.push(items[i].duplicate());
            assert(views(r@) =~= views(before).push(items@[i as int]@));
        }
        i = i + 1;
    }
    assert(views(items@).take(items@.len() as int) =~= views(items@));
    r
}

/// Keeps the first `limit` items, or all of them where `limit` is absent or negative.
pub fn first_rows(items: Vec<ListElement>, limit: Option<i64>) -> (r: Vec<ListElement>)
    ensures
        views(r@) == first_n(views(items@), limit),
{
    let mut r = items;
    if let Some(n) = limit {
        if n >= 0 && (n as u64) < (r.len() as u64) {
            r.truncate(n as usize);
            assert(views(r@) =~= views(items@).take(n as int));
        }
    }
    r
}

} // verus!
