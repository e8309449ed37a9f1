//! The cursor that every menu-style screen moves over its entries: one
//! optional selected index, moved up and down with wrap-around.

use vstd::prelude::*;

verus! {

/// Which entry of a list is highlighted, if any.
#[derive(Clone, Copy, Debug)]
pub struct ListState {
    pub selected: Option<usize>,
}

impl ListState {
    /// The highlighted index.
    pub fn selected(&self) -> (r: Option<usize>)
        ensures
            r == self.selected,
    {
        self.selected
    }

    /// Highlights `index`, or nothing.
    pub fn select(&mut self, index: Option<usize>)
        ensures
            final(self).selected == index,
    {
        self.selected = index;
    }
}

impl Default for ListState {
    /// A state with nothing highlighted.
    fn default() -> (r: Self)
        ensures
            r.selected is None,
    {
        ListState { selected: None }
    }
}

/// A selection as a mathematical index.
pub open spec fn selection_view(selected: Option<usize>) -> Option<int> {
    match selected {
        Some(i) => Some(i as int),
        None => None,
    }
}

/// Whether `selected` is a selection that a list of `len` entries can have:
/// nothing when the list is empty, else one of its indices.
pub open spec fn valid_selection(selected: Option<int>, len: nat) -> bool {
    match selected {
        Some(i) => 0 <= i < len,
        None => len == 0,
    }
}

/// The selection after one step down a list of `len` entries: unchanged on an
/// empty list, the first entry when nothing was selected or the step leaves the
/// list, else the entry below.
pub open spec fn next_index(selected: Option<int>, len: nat) -> Option<int> {
    if len == 0 {
        selected
    } else {
        match selected {
            Some(i) => if i >= len - 1 {
                Some(0)
            } else {
                Some(i + 1)
            },
            None => Some(0),
        }
    }
}

/// The selection after one step up a list of `len` entries: unchanged on an
/// empty list, the last entry from the first, the first entry when nothing was
/// selected, else the entry above.
pub open spec fn previous_index(selected: Option<int>, len: nat) -> Option<int> {
    if len == 0 {
        selected
    } else {
        match selected {
            Some(i) => if i == 0 {
                Some(len - 1)
            } else {
                Some(i - 1)
            },
            None => Some(0),
        }
    }
}

/// The selection clamped into a list of `len` entries: nothing on an empty
/// list, else the old index or the last one, whichever is smaller, with the
/// first entry taken when nothing was selected.
pub open spec fn clamped_index(selected: Option<int>, len: nat) -> Option<int> {
    if len == 0 {
        None
    } else {
        match selected {
            Some(i) => if i <= len - 1 {
                Some(i)
            } else {
                Some(len - 1)
            },
            None => Some(0),
        }
    }
}

/// One step down and one step up undo each other, in either order, on every
/// non-empty list whose selection is one of its indices.
pub proof fn lemma_round_trip(selected: Option<int>, len: nat)
    requires
        len > 0,
        valid_selection(selected, len),
    ensures
        previous_index(next_index(selected, len), len) == selected,
        next_index(previous_index(selected, len), len) == selected,
{
}

/// At the ends the cursor wraps: up from the first entry lands on the last,
/// down from the last lands on the first.
pub proof fn lemma_wrap_around(len: nat)
    requires
        len > 0,
    ensures
        previous_index(Some(0), len) == Some(len - 1),
        next_index(Some(len - 1), len) == Some(0int),
{
}

/// Steps and clamping keep a valid selection valid, and clamping makes any
/// selection valid.
pub proof fn lemma_moves_stay_valid(selected: Option<int>, len: nat)
    ensures
        valid_selection(selected, len) ==> valid_selection(next_index(selected, len), len),
        valid_selection(selected, len) ==> valid_selection(previous_index(selected, len), len),
        valid_selection(selected, len) ==> clamped_index(selected, len) == selected,
        (selected is Some ==> selected->0 >= 0) ==> valid_selection(
            clamped_index(selected, len),
            len,
        ),
{
}

/// One step down from `selected` in a list of `len` entries.
pub fn step_down(selected: Option<usize>, len: usize) -> (r: Option<usize>)
    ensures
        selection_view(r) == next_index(selection_view(selected), len as nat),
{
    if len == 0 {
        selected
    } else {
        match selected {
            Some(i) => if i >= len - 1 {
                Some(0)
            } else {
                Some(i + 1)
            },
            None => Some(0),
        }
    }
}

/// One step up from `selected` in a list of `len` entries.
pub fn step_up(selected: Option<usize>, len: usize) -> (r: Option<usize>)
    ensures
        selection_view(r) == previous_index(selection_view(selected), len as nat),
{
    if len == 0 {
        selected
    } else {
        match selected {
            Some(i) => if i == 0 {
                Some(len - 1)
            } else {
                Some(i - 1)
            },
            None => Some(0),
        }
    }
}

/// `selected` clamped into a list of `len` entries.
pub fn clamp(selected: Option<usize>, len: usize) -> (r: Option<usize>)
    ensures
        selection_view(r) == clamped_index(selection_view(selected), len as nat),
{
    if len == 0 {
        None
    } else {
        match selected {
            Some(i) => if i <= len - 1 {
                Some(i)
            } else {
                Some(len - 1)
            },
            None => Some(0),
        }
    }
}

/// An ordered list of options with a cursor on one of them.
pub struct NavigatableList {
    pub state: ListState,
    pub options: Vec<String>,
}

/// What a [`NavigatableList`] holds: the selected index and the option texts.
pub struct NavigatableListView {
    pub selected: Option<int>,
    pub options: Seq<Seq<char>>,
}

impl NavigatableListView {
    /// The selection is nothing on an empty list and one of the indices
    /// otherwise.
    pub open spec fn wf(self) -> bool {
        valid_selection(self.selected, self.options.len())
    }

    /// The list after one step down.
    pub open spec fn next(self) -> NavigatableListView {
        NavigatableListView {
            selected: next_index(self.selected, self.options.len()),
            options: self.options,
        }
    }

    /// The list after one step up.
    pub open spec fn previous(self) -> NavigatableListView {
        NavigatableListView {
            selected: previous_index(self.selected, self.options.len()),
            options: self.options,
        }
    }

    /// The text of the option that Enter acts on: the selected one, or the first
    /// when nothing is selected; nothing where that index is outside the list.
    pub open spec fn chosen(self) -> Option<Seq<char>> {
        let i = match self.selected {
            Some(i) => i,
            None => 0,
        };
        if 0 <= i < self.options.len() {
            Some(self.options[i])
        } else {
            None
        }
    }
}

impl View for NavigatableList {
    type V = NavigatableListView;

    open spec fn view(&self) -> NavigatableListView {
        NavigatableListView {
            selected: selection_view(self.state.selected),
            options: self.options.deep_view(),
        }
    }
}

impl NavigatableList {
    /// Moves the cursor one entry down, wrapping from the last entry to the
    /// first; does nothing on an empty list.
    pub fn next(&mut self)
        ensures
            final(self)@ == old(self)@.next(),
            old(self)@.wf() ==> final(self)@.wf(),
    {
        let i = step_down(self.state.selected(), self.options.len());
        self.state.select(i);
    }

    /// Moves the cursor one entry up, wrapping from the first entry to the
    /// last; does nothing on an empty list.
    pub fn previous(&mut self)
        ensures
            final(self)@ == old(self)@.previous(),
            old(self)@.wf() ==> final(self)@.wf(),
    {
        let i = step_up(self.state.selected(), self.options.len());
        self.state.select(i);
    }

    /// The option that Enter acts on, as [`NavigatableListView::chosen`] says.
    pub fn chosen(&self) -> (r: Option<&String>)
        ensures
            r.deep_view() == self@.chosen(),
    {
        let i: usize = match self.state.selected() {
            Some(i) => i,
            None => 0,
        };
        if i < self.options.len() {
            Some(&self.options[i])
        } else {
            None
        }
    }
}

/// On a non-empty list with a valid selection, `next` then `previous` and
/// `previous` then `next` both give the list back as it was; from the first
/// entry `previous` lands on the last, and from the last `next` lands on the
/// first.
pub proof fn lemma_list_round_trip(list: NavigatableListView)
    requires
        list.wf(),
        list.options.len() > 0,
    ensures
        list.next().previous() == list,
        list.previous().next() == list,
        list.selected == Some(0int) ==> list.previous().selected == Some(list.options.len() - 1),
        list.selected == Some(list.options.len() - 1) ==> list.next().selected == Some(0int),
{
}

} // verus!
