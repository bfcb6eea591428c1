//! The selection of a scrolling list, held as the plain values of
//! `ratatui::widgets::ListState`, and the moves that ratatui makes on it.

use vstd::prelude::*;
use ratatui::widgets::ListState;

verus! {

/// The two values that a `ListState` carries: which item is selected, and the
/// index of the first item shown.
#[derive(Clone, Copy, PartialEq, Eq, Structural, Debug)]
pub struct ListSelection {
    pub selected: Option<usize>,
    pub offset: usize,
}

/// The index that `select_next` picks: the one after the current selection
/// (held at `usize::MAX`), or the first item when nothing is selected.
pub open spec fn next_index(selected: Option<usize>) -> usize {
    match selected {
        Some(i) => if i == usize::MAX { i } else { (i + 1) as usize },
        None => 0,
    }
}

/// The index that `select_previous` picks: the one before the current
/// selection (held at 0), or `usize::MAX` (the last item, once the list is
/// drawn) when nothing is selected.
pub open spec fn previous_index(selected: Option<usize>) -> usize {
    match selected {
        Some(i) => if i == 0 { 0 } else { (i - 1) as usize },
        None => usize::MAX,
    }
}

/// `ListState::default()`: nothing selected, no offset (the derived `Default`
/// of its two fields).
#[verifier::external_body]
pub(crate) fn list_state_default() -> (r: ListSelection)
    ensures
        r.selected is None,
        r.offset == 0,
{
    let state = ListState::default();
    ListSelection { selected: state.selected(), offset: state.offset() }
}

/// `ListState::select_next`: selects `next_index` of the current selection and
/// keeps the offset (`select` with `Some` leaves it alone).
#[verifier::external_body]
pub(crate) fn list_select_next(s: ListSelection) -> (r: ListSelection)
    ensures
        r.selected == Some(next_index(s.selected)),
        r.offset == s.offset,
{
    let mut state = ListState::default().with_selected(s.selected).with_offset(s.offset);
    state.select_next();
    ListSelection { selected: state.selected(), offset: state.offset() }
}

/// `ListState::select_previous`: selects `previous_index` of the current
/// selection and keeps the offset.
#[verifier::external_body]
pub(crate) fn list_select_previous(s: ListSelection) -> (r: ListSelection)
    ensures
        r.selected == Some(previous_index(s.selected)),
        r.offset == s.offset,
{
    let mut state = ListState::default().with_selected(s.selected).with_offset(s.offset);
    state.select_previous();
    ListSelection { selected: state.selected(), offset: state.offset() }
}

/// `ListState::select_first`: selects index 0 and keeps the offset.
#[verifier::external_body]
pub(crate) fn list_select_first(s: ListSelection) -> (r: ListSelection)
    ensures
        r.selected == Some(0usize),
        r.offset == s.offset,
{
    let mut state = ListState::default().with_selected(s.selected).with_offset(s.offset);
    state.select_first();
    ListSelection { selected: state.selected(), offset: state.offset() }
}

} // verus!
