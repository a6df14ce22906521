use std::fmt::Write;
use vstd::prelude::*;

use crate::text::{split_words, texts, words_of};
use crate::element::{opt_text, ListElement, ListElementView};
use crate::error::Error;
use crate::mac::{path_store_error, ListElementMAC};
use crate::query::{join, join_parts};

verus! {

/// What chrono makes of the timestamp `s`, read under the format `from`, when
/// it writes it again under the format `to`; nothing where it does not parse
/// or cannot be written.
pub uninterp spec fn reformatted_stamp_of(s: Seq<char>, from: Seq<char>, to: Seq<char>) -> Option<Seq<char>>;

/// The format under which timestamps are stored.
pub const STORED_STAMP_FORMAT: &'static str = "%Y-%m-%d %H:%M:%S";

/// The format under which timestamps are shown.
pub const SHOWN_STAMP_FORMAT: &'static str = "%H:%M %d-%m-%Y";

/// The display form of a stored timestamp, where it has one.
pub open spec fn display_stamp_of(s: Seq<char>) -> Option<Seq<char>> {
    reformatted_stamp_of(s, STORED_STAMP_FORMAT@, SHOWN_STAMP_FORMAT@)
}


/// Relies on chrono's `NaiveDateTime::parse_from_str` under `from` and
/// `NaiveDateTime::format` under `to`; the outcome depends on the three texts
/// alone. A format that chrono cannot write gives nothing, not a panic.
#[verifier::external_body]
fn reformat_stamp(s: &str, from: &str, to: &str) -> (r: Option<String>)
    ensures
        opt_text(r) == reformatted_stamp_of(s@, from@, to@),
{
    let t = chrono::NaiveDateTime::parse_from_str(s, from).ok()?;
    let mut out = String::new();
    write!(out, "{}", t.format(to)).ok().map(|_| out)
}

/// The text shown for a timestamp: its display form where there is one, else
/// the stored text as it is.
pub open spec fn shown_stamp(stored: Seq<char>, reformatted: Option<Seq<char>>) -> Seq<char> {
    match reformatted {
        Some(t) => t,
        None => stored,
    }
}

/// Picks the text shown for a timestamp from its display form, if it has one.
pub fn choose_stamp(stored: &str, reformatted: Option<String>) -> (r: String)
    ensures
        r@ == shown_stamp(stored@, opt_text(reformatted)),
{
    match reformatted {
        Some(t) => t,
        None => String::from_str(stored),
    }
}

/// The text shown for a timestamp.
pub fn display_stamp(stored: &str) -> (r: String)
    ensures
        r@ == shown_stamp(stored@, display_stamp_of(stored@)),
{
    choose_stamp(stored, reformat_stamp(stored, STORED_STAMP_FORMAT, SHOWN_STAMP_FORMAT))
}

/// An item as the list view shows it.
#[derive(Debug, Clone, PartialEq, Eq)]
pub struct ListElementData {
    pub title: String,
    pub notes: String,
    pub tags: Vec<String>,
    pub status: String,
    pub ctime: String,
    pub mtime: String,
}

/// The text of an optional value, empty where it is absent.
pub open spec fn or_empty(o: Option<Seq<char>>) -> Seq<char> {
    match o {
        Some(t) => t,
        None => Seq::empty(),
    }
}

/// The shown item describes `e`: its notes or nothing, the words of its tags,
/// and both timestamps in display form, the creation time standing in for a
/// modification time that was never set.
pub open spec fn shows(d: ListElementData, e: ListElementView) -> bool {
    let m = match e.mtime {
        Some(t) => t,
        None => e.ctime,
    };
    &&& d.title@ == e.title
    &&& d.notes@ == or_empty(e.notes)
    &&& texts(d.tags@) == words_of(or_empty(e.tags))
    &&& d.status@ == e.status
    &&& d.ctime@ == shown_stamp(e.ctime, display_stamp_of(e.ctime))
    &&& d.mtime@ == shown_stamp(m, display_stamp_of(m))
}

/// The one-line text of a shown item.
pub open spec fn line_text(d: ListElementData) -> Seq<char> {
    "Title: "@ + d.title@ + ", Notes: "@ + d.notes@ + ", Tags: "@ + join(texts(d.tags@))
        + ", Status: "@ + d.status@ + ", Created At: "@ + d.ctime@ + ", Last Modified At: "@
        + d.mtime@
}

/// Joins the texts with `", "`.
fn join_texts(parts: &Vec<String>) -> (r: String)
    ensures
        r@ == join(texts(parts@)),
{
    let mut refs: Vec<&str> = Vec::new();
    let mut i: usize = 0;
    while i < parts.len()
        invariant
            i <= parts@.len(),
            refs@.len() == i,
            forall|k: int| 0 <= k < i ==> (#[trigger] refs@[k])@ == parts@[k]@,
        decreases parts.len() - i,
    {
        refs.push(parts[i].as_str());
        i = i + 1;
    }
    assert(refs@.map_values(|s: &str| s@) =~= texts(parts@));
    join_parts(&refs)
}

impl ListElementData {
    /// The shown form of an item.
    pub fn new(le: ListElement) -> (r: ListElementData)
        ensures
            shows(r, le@),
    {
        let notes = match le.notes {
            Some(n) => n,
            None => String::new(),
        };
        let tags = match &le.tags {
            Some(t) => split_words(t.as_str()),
            None => {
                proof {
                    reveal_strlit("");
                    assert(""@ =~= Seq::<char>::empty());
                }
                split_words("")
            },
        };
        let ctime = display_stamp(le.ctime.as_str());
        let mtime = match &le.mtime {
            Some(m) => display_stamp(m.as_str()),
            None => display_stamp(le.ctime.as_str()),
        };
        ListElementData { title: le.title, notes, tags, status: le.status, ctime, mtime }
    }

    /// The one-line text of this item, its tags separated by commas.
    pub fn line(&self) -> (r: String)
        ensures
            r@ == line_text(*self),
    {
        let mut r = String::from_str("Title: ");
        r.append(self.title.as_str());
        r.append(", Notes: ");
        r.append(self.notes.as_str());
        r.append(", Tags: ");
        let tags = join_texts(&self.tags);
        r.append(tags.as_str());
        r.append(", Status: ");
        r.append(self.status.as_str());
        r.append(", Created At: ");
        r.append(self.ctime.as_str());
        r.append(", Last Modified At: ");
        r.append(self.mtime.as_str());
        r
    }
}

/// The lines of shown items, each ended by a newline.
pub open spec fn lines_text(s: Seq<ListElementData>) -> Seq<char>
    decreases s.len(),
{
    if s.len() == 0 {
        Seq::empty()
    } else {
        lines_text(s.drop_last()) + line_text(s.last()) + "\n"@
    }
}

/// The items of the store as the list view shows them.
pub struct List {
    pub list: Vec<ListElementData>,
}

impl List {
    /// The shown form of each item, in order.
    pub fn from_elements(items: Vec<ListElement>) -> (r: List)
        ensures
            r.list@.len() == items@.len(),
            forall|k: int| 0 <= k < items@.len() ==> shows(#[trigger] r.list@[k], items@[k]@),
    {
        let mut list: Vec<ListElementData> = Vec::new();
        let mut i: usize = 0;
        while i < items.len()
            invariant
                i <= items@.len(),
                list@.len() == i,
                forall|k: int| 0 <= k < i ==> shows(#[trigger] list@[k], items@[k]@),
            decreases items.len() - i,
        {
            list.push(ListElementData::new(items[i].duplicate()));
            i = i + 1;
        }
        List { list }
    }

    /// Every item of the store at `db_path`, in storage order, in shown form.
    pub fn new(db_path: &str) -> (r: Result<List, Error>)
        ensures
            r matches Err(e) ==> path_store_error(e),
            r matches Ok(l) ==> exists|items: Seq<ListElement>|
                #[trigger] items.len() == l.list@.len() && forall|k: int|
                    0 <= k < items.len() ==> shows(#[trigger] l.list@[k], items[k]@),
    {
        match ListElementMAC::get_all_from_path(db_path, None) {
            Ok(items) => {
                let ghost all = items@;
                let l = List::from_elements(items);
                assert(all.len() == l.list@.len());
                Ok(l)
            },
            Err(e) => Err(e),
        }
    }

    /// The text of the whole list: one line for each item, in order.
    pub fn render_text(&self) -> (r: String)
        ensures
            r@ == lines_text(self.list@),
    {
        let mut r = String::new();
        let mut i: usize = 0;
        while i < self.list.len()
            invariant
                i <= self.list@.len(),
                r@ == lines_text(self.list@.take(i as int)),
            decreases self.list.len() - i,
        {
            assert(self.list@.take(i + 1).drop_last() =~= self.list@.take(i as int));
            let line = self.list[i].line();
            r.append(line.as_str());
            r.append("\n");
            i = i + 1;
        }
        assert(self.list@.take(self.list@.len() as int) =~= self.list@);
        r
    }
}

} // verus!
