//! The laws of the store, proved over its mathematical model.
//!
//! The store's contracts describe every operation against a model map from
//! the date key to the page's view: saving inserts into the map, a lookup
//! reads it.  Each law below is stated over that model, so it applies to
//! any sequence of store operations through the contracts of
//! [`crate::store::PageStore`].

use vstd::prelude::*;

use crate::page::PageView;
use crate::store::no_rows;

verus! {

/// Saving a page for one date does not affect any other date: presence and
/// value of every entry whose key differs from the saved page's date are
/// unchanged.
pub proof fn lemma_save_preserves_other_dates(
    m: Map<Seq<char>, PageView>,
    p: PageView,
    d: Seq<char>,
)
    requires
        p.date != d,
    ensures
        m.insert(p.date, p).contains_key(d) == m.contains_key(d),
        m.contains_key(d) ==> m.insert(p.date, p)[d] == m[d],
{
}

/// Saving the same page twice in a row leaves the store exactly as after
/// saving it once, and the saved date maps to that page: keys stay unique,
/// no duplicate entry can arise.
pub proof fn lemma_save_idempotent(m: Map<Seq<char>, PageView>, p: PageView)
    ensures
        m.insert(p.date, p).insert(p.date, p) == m.insert(p.date, p),
        m.insert(p.date, p).insert(p.date, p)[p.date] == p,
{
    assert(m.insert(p.date, p).insert(p.date, p) =~= m.insert(p.date, p));
}

/// Saving `p1` and then `p2` for the same date leaves the store exactly as
/// if only `p2` had been saved: the overwrite is full, no field of `p1`
/// survives.
pub proof fn lemma_save_overwrites(m: Map<Seq<char>, PageView>, p1: PageView, p2: PageView)
    requires
        p1.date == p2.date,
    ensures
        m.insert(p1.date, p1).insert(p2.date, p2) == m.insert(p2.date, p2),
        m.insert(p1.date, p1).insert(p2.date, p2)[p2.date] == p2,
{
    assert(m.insert(p1.date, p1).insert(p2.date, p2) =~= m.insert(p2.date, p2));
}

/// Round trip: after saving a page, looking its date up finds exactly that
/// page, whatever the store held before.
pub proof fn lemma_round_trip(m: Map<Seq<char>, PageView>, p: PageView)
    ensures
        m.insert(p.date, p).contains_key(p.date),
        m.insert(p.date, p)[p.date] == p,
{
}

/// Absence: an empty store contains no date, so a lookup of any date
/// returns nothing.
pub proof fn lemma_get_on_empty(d: Seq<char>)
    ensures
        !no_rows().contains_key(d),
{
}

} // verus!
