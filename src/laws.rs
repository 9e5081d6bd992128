//! Properties of the browser that relate several operations or hold of
//! every state.

use vstd::prelude::*;
use crate::browser::{
    visible_of, matches_query, BrowserView, prefix_opened_status, game_opened_status,
};
use crate::item::Game;
use crate::text::name_matches_spec;

verus! {

/// For a non-empty filter, an entry is visible exactly when it is in the
/// catalog and its lowercased name contains the lowercased filter; each
/// visible entry keeps its catalog order, as the visible list is the
/// catalog with the other entries taken out.
pub proof fn lemma_visible_members(items: Seq<Game>, query: Seq<char>, g: Game)
    requires
        query.len() > 0,
    ensures
        visible_of(items, query).contains(g) <==> (items.contains(g) && name_matches_spec(
            g.name@,
            query,
        )),
        visible_of(items, query) == items.filter(matches_query(query)),
{
    let pred = matches_query(query);
    if visible_of(items, query).contains(g) {
        items.lemma_filter_contains_rev(pred, g);
        let j = choose|j: int| 0 <= j < items.filter(pred).len() && items.filter(pred)[j] == g;
        items.lemma_filter_pred(pred, j);
    }
    if items.contains(g) && name_matches_spec(g.name@, query) {
        let j = choose|j: int| 0 <= j < items.len() && items[j] == g;
        items.lemma_filter_contains(pred, j);
    }
}

/// Rebuilding the visible list twice with the same filter gives what
/// rebuilding it once gives: the same list and the same cursor.
pub proof fn lemma_refilter_idempotent(v: BrowserView)
    ensures
        v.refiltered().refiltered() == v.refiltered(),
{
}

/// Entering search, typing two characters and leaving search ends with an
/// empty filter, navigation mode and the whole catalog visible, whatever
/// the two characters had filtered the list down to.
pub proof fn lemma_search_round_trip(v: BrowserView, first: char, second: char)
    ensures
        v.entered().appended(first).appended(second).exited().query.len() == 0,
        v.entered().appended(first).appended(second).exited().visible == v.items,
        !v.entered().appended(first).appended(second).exited().searching,
        v.entered().appended(first).appended(second).exited().items == v.items,
{
}

/// Opening a selected shortcut entry and opening a selected installed game
/// whose folders both exist leave different status lines.
pub proof fn lemma_open_status_tells_kind(v: BrowserView, w: BrowserView)
    requires
        v.wf(),
        w.wf(),
        v.cursor.is_some(),
        w.cursor.is_some(),
        v.visible[v.cursor.unwrap() as int].is_non_steam,
        !w.visible[w.cursor.unwrap() as int].is_non_steam,
    ensures
        v.opened(true).status != w.opened(true).status,
{
    reveal_strlit("Opened prefix folder.");
    reveal_strlit("Opened game folder.");
    assert(prefix_opened_status()[7] != game_opened_status()[7]);
}

/// Every operation keeps the cursor in range of the visible list.
pub proof fn lemma_operations_keep_cursor_in_range(v: BrowserView, c: char, exists: bool)
    requires
        v.wf(),
    ensures
        v.entered().wf(),
        v.exited().wf(),
        v.appended(c).wf(),
        v.removed_last().wf(),
        v.moved_next().wf(),
        v.moved_previous().wf(),
        v.opened(exists).wf(),
        v.refiltered().wf(),
{
}

} // verus!
