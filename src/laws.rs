use vstd::prelude::*;

use crate::element::{
    empty_patch, select_title, updated, title_matches, ListElementView, PatchView,
};
use crate::text::{contains_folded, fold_codes};

verus! {

/// An update whose patch sets only `notes` leaves the title, tags and status
/// as they were, sets the notes, and gives the row the update's stamp as its
/// modification time; a non-empty stamp leaves a non-empty time.
pub proof fn lemma_notes_patch_keeps_other_fields(
    old: ListElementView,
    notes: Option<Seq<char>>,
    stamp: Seq<char>,
)
    ensures
        ({
            let p = PatchView { title: None, notes: Some(notes), tags: None, status: None };
            let new = updated(old, p, Some(stamp));
            &&& new.id == old.id
            &&& new.title == old.title
            &&& new.tags == old.tags
            &&& new.status == old.status
            &&& new.ctime == old.ctime
            &&& new.notes == notes
            &&& new.mtime == Some(stamp)
            &&& stamp.len() > 0 ==> (new.mtime is Some && new.mtime->0.len() > 0)
        }),
{
}

/// An update with a patch that sets nothing changes no field but the
/// modification time, which takes the new stamp.
pub proof fn lemma_empty_patch_changes_only_mtime(old: ListElementView, stamp: Option<Seq<char>>)
    ensures
        updated(old, empty_patch(), stamp) == (ListElementView { mtime: stamp, ..old }),
{
}

/// Repeating an update with a patch that sets nothing leaves every field as
/// the first update left it, but for the modification time.
pub proof fn lemma_empty_patch_after_update(
    old: ListElementView,
    p: PatchView,
    first: Option<Seq<char>>,
    second: Option<Seq<char>>,
)
    ensures
        updated(updated(old, p, first), empty_patch(), second) == updated(old, p, second),
{
}

/// Every text holds itself.
pub proof fn lemma_contains_self(t: Seq<char>)
    ensures
        contains_folded(t, t),
{
    assert(fold_codes(t).subrange(0int, 0int + t.len()) =~= fold_codes(t));
}

/// An item among `all` is found again by a title search for its whole title.
pub proof fn lemma_found_by_own_title(all: Seq<ListElementView>, e: ListElementView)
    requires
        all.contains(e),
    ensures
        select_title(all, e.title).contains(e),
{
    lemma_contains_self(e.title);
    assert(title_matches(e, e.title));
    let i = choose|i: int| 0 <= i < all.len() && all[i] == e;
    all.lemma_filter_contains(|x: ListElementView| title_matches(x, e.title), i);
}

} // verus!
