//! What holds of the navigation state whatever the user does.

use vstd::prelude::*;
use crate::errors::{ListError, MetaError, ReadError};
use crate::info::{future_text, info_text, EntryMeta, Timestamp};
use crate::logic::{texts, AppView, Resolved};
use crate::snapshot::no_entry_text;

verus! {

/// One step of the selection keeps the invariant and leaves the location,
/// the history, the entries and the window as they were.
pub proof fn step_keeps_invariant(state: AppView, direction: int)
    requires
        state.wf(),
    ensures
        state.moved(direction).wf(),
        state.moved(direction).entries == state.entries,
        state.moved(direction).location == state.location,
        state.moved(direction).history == state.history,
        state.moved(direction).window == state.window,
{
}

/// After any run of steps over a listing that is not empty, the selection
/// names an entry and lies inside the window: at or after the offset, and
/// less than a window's length past it.
pub proof fn selection_stays_visible(state: AppView, directions: Seq<int>)
    requires
        state.wf(),
        state.entries.len() > 0,
    ensures
        state.moved_all(directions).wf(),
        state.moved_all(directions).entries == state.entries,
        state.moved_all(directions).window == state.window,
        0 <= state.moved_all(directions).selected < state.entries.len(),
        state.moved_all(directions).offset <= state.moved_all(directions).selected
            < state.moved_all(directions).offset + state.window,
    decreases directions.len(),
{
    if directions.len() > 0 {
        selection_stays_visible(state, directions.drop_last());
        step_keeps_invariant(state.moved_all(directions.drop_last()), directions.last());
    }
}

/// A step backward from the first entry changes nothing: the selection
/// neither wraps round to the end nor falls below zero.
pub proof fn backward_at_first_stays(state: AppView, direction: int)
    requires
        state.wf(),
        state.selected == 0,
        direction < 0,
    ensures
        state.moved(direction) == state,
{
}

/// A step forward from the last entry changes nothing.
pub proof fn forward_at_last_stays(state: AppView, direction: int)
    requires
        state.wf(),
        state.entries.len() > 0,
        state.selected == state.entries.len() - 1,
        direction > 0,
    ensures
        state.moved(direction) == state,
{
}

/// A step forward that leaves the window at its end scrolls by exactly one
/// row, and one that stays inside it does not scroll.
pub proof fn forward_scrolls_one_row(state: AppView, direction: int)
    requires
        state.wf(),
        direction > 0,
        state.selected + 1 < state.entries.len(),
    ensures
        state.moved(direction).selected == state.selected + 1,
        state.selected + 1 == state.offset + state.window ==> state.moved(direction).offset
            == state.offset + 1,
        state.selected + 1 < state.offset + state.window ==> state.moved(direction).offset
            == state.offset,
{
}

/// A run of `count` steps forward.
pub open spec fn forward_run(count: nat) -> Seq<int> {
    Seq::new(count, |i: int| 1int)
}

/// From the top of a listing, `count` steps forward that do not reach past
/// the last entry select entry `count`, and the window has scrolled by one
/// row for every step beyond its last row: not at all while the selection
/// stays within the first window, and never by more than one row a step.
pub proof fn forward_run_from_top(state: AppView, count: nat)
    requires
        state.wf(),
        state.selected == 0,
        state.offset == 0,
        count < state.entries.len(),
    ensures
        state.moved_all(forward_run(count)).selected == count,
        state.moved_all(forward_run(count)).offset == if count >= state.window {
            count - state.window + 1
        } else {
            0
        },
        state.moved_all(forward_run(count)).entries == state.entries,
        state.moved_all(forward_run(count)).window == state.window,
    decreases count,
{
    if count > 0 {
        let shorter = (count - 1) as nat;
        forward_run_from_top(state, shorter);
        assert(forward_run(count).drop_last() =~= forward_run(shorter));
        assert(forward_run(count).last() == 1);
    }
}

/// Entering a directory starts the selection and the window over and puts
/// exactly one directory, the one left, onto the history. Going back right
/// after returns to exactly that directory and takes exactly that one off
/// the history; the selection and the window start over once more, whatever
/// they were when the directory was left.
pub proof fn enter_then_back(
    state: AppView,
    listing: Vec<String>,
    relisting: Vec<String>,
)
    requires
        state.wf(),
        state.entries.len() > 0,
    ensures
        ({
            let inside = state.activated(Resolved::Directory(Ok(listing)));
            let outside = inside.backed(Ok(relisting));
            &&& inside.wf()
            &&& inside.selected == 0
            &&& inside.offset == 0
            &&& inside.preview.len() == 0
            &&& inside.entries == texts(listing@)
            &&& inside.history == state.history.push(state.location)
            &&& inside.history.len() == state.history.len() + 1
            &&& outside.wf()
            &&& outside.location == state.location
            &&& outside.history == state.history
            &&& outside.entries == texts(relisting@)
            &&& outside.selected == 0
            &&& outside.offset == 0
            &&& outside.preview.len() == 0
        }),
{
    let inside = state.activated(Resolved::Directory(Ok(listing)));
    assert(inside.history.drop_last() =~= state.history);
}

/// With an empty history a request to go back changes nothing and reports
/// no failure, whatever the listing handed in.
pub proof fn back_without_history(state: AppView, listing: Result<Vec<String>, ListError>)
    requires
        state.history.len() == 0,
    ensures
        state.backed(listing) == state,
        state.back_outcome(listing).is_ok(),
{
}

/// Activating a directory leaves no preview. Activating a file whose text
/// could be read makes exactly that text the preview. Activating one that
/// could not be read leaves the preview empty and reports no failure. In the
/// last two cases nothing else changes.
pub proof fn preview_follows_activation(
    state: AppView,
    listing: Vec<String>,
    text: String,
    failure: ReadError,
)
    requires
        state.wf(),
        state.entries.len() > 0,
    ensures
        state.activated(Resolved::Directory(Ok(listing))).preview == Seq::<char>::empty(),
        state.activated(Resolved::File(Ok(text))) == state.previewing(text@),
        state.activated(Resolved::File(Ok(text))).preview == text@,
        state.activation_outcome(Resolved::File(Ok(text))).is_ok(),
        state.activated(Resolved::File(Err(failure))) == state.previewing(Seq::empty()),
        state.activated(Resolved::File(Err(failure))).preview == Seq::<char>::empty(),
        state.activation_outcome(Resolved::File(Err(failure))).is_ok(),
{
}

/// A modification time after the present gives the message for a time in
/// the future, whatever the kind and the size of the entry.
pub proof fn future_modification_is_reported(meta: EntryMeta, now: Timestamp)
    requires
        meta.modified.is_some(),
        meta.modified.unwrap().total_nanos() > now.total_nanos(),
    ensures
        info_text(Ok(meta), now) == future_text(),
{
}

/// Over an empty listing every action leaves the state as it is and reports
/// no failure (going back aside, which an empty listing does not hinder),
/// and the picture shows no row, no highlight and the line for a missing
/// entry.
pub proof fn empty_listing_is_stable(
    state: AppView,
    direction: int,
    resolved: Resolved,
    meta: Result<EntryMeta, MetaError>,
    now: Timestamp,
)
    requires
        state.wf(),
        state.entries.len() == 0,
    ensures
        state.moved(direction) == state,
        state.activated(resolved) == state,
        state.activation_outcome(resolved).is_ok(),
        state.selected_path().is_none(),
        state.visible() == Seq::<Seq<char>>::empty(),
        state.highlight().is_none(),
        state.info_panel(meta, now) == no_entry_text(),
{
    assert(state.visible() =~= Seq::<Seq<char>>::empty());
}

/// For a state that meets the invariant and has entries, the visible rows
/// hold the selected entry, at the highlighted row.
pub proof fn highlight_is_selected(state: AppView)
    requires
        state.wf(),
        state.entries.len() > 0,
    ensures
        state.highlight().is_some(),
        0 <= state.highlight().unwrap() < state.visible().len(),
        state.visible().len() <= state.window,
        state.visible()[state.highlight().unwrap()] == state.entries[state.selected],
{
}

} // verus!
