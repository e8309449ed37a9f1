//! The start menu: a fixed list of entries under one cursor.

use crate::ui::navigation::{
    next_index, previous_index, selection_view, step_down, step_up, valid_selection, ListState,
};
use vstd::prelude::*;
use vstd::string::*;

verus! {

/// The start menu with its cursor and the name shown above it.
pub struct App {
    pub menu_options: Vec<String>,
    pub menu_state: ListState,
    pub screen_name: String,
}

/// What an [`App`] holds: the entries, the selected index and the screen's
/// name.
pub struct AppView {
    pub menu_options: Seq<Seq<char>>,
    pub selected: Option<int>,
    pub screen_name: Seq<char>,
}

impl AppView {
    /// The selection is nothing on an empty menu and one of the indices
    /// otherwise.
    pub open spec fn wf(self) -> bool {
        valid_selection(self.selected, self.menu_options.len())
    }

    /// The menu after one step down.
    pub open spec fn next(self) -> AppView {
        AppView { selected: next_index(self.selected, self.menu_options.len()), ..self }
    }

    /// The menu after one step up.
    pub open spec fn previous(self) -> AppView {
        AppView { selected: previous_index(self.selected, self.menu_options.len()), ..self }
    }
}

impl View for App {
    type V = AppView;

    open spec fn view(&self) -> AppView {
        AppView {
            menu_options: self.menu_options.deep_view(),
            selected: selection_view(self.menu_state.selected),
            screen_name: self.screen_name@,
        }
    }
}

impl App {
    /// Moves the cursor one entry down, wrapping from the last entry to the
    /// first; does nothing on an empty menu.
    pub fn next(&mut self)
        ensures
            final(self)@ == old(self)@.next(),
            old(self)@.wf() ==> final(self)@.wf(),
    {
        let i = step_down(self.menu_state.selected(), self.menu_options.len());
        self.menu_state.select(i);
    }

    /// Moves the cursor one entry up, wrapping from the first entry to the
    /// last; does nothing on an empty menu.
    pub fn previous(&mut self)
        ensures
            final(self)@ == old(self)@.previous(),
            old(self)@.wf() ==> final(self)@.wf(),
    {
        let i = step_up(self.menu_state.selected(), self.menu_options.len());
        self.menu_state.select(i);
    }

    /// The menu "Menu" with its four entries and nothing selected yet: the
    /// first move of the cursor, or the caller, selects the first entry.
    pub fn new() -> (r: Self)
        ensures
            r@.menu_options == seq!["Home"@, "Add Task"@, "Settings"@, "Exit"@],
            r@.selected is None,
            r@.screen_name == "Menu"@,
    {
        let mut menu_options: Vec<String> = Vec::new();
        menu_options.push(String::from_str("Home"));
        menu_options.push(String::from_str("Add Task"));
        menu_options.push(String::from_str("Settings"));
        menu_options.push(String::from_str("Exit"));
        let r = App {
            menu_options,
            menu_state: ListState::default(),
            screen_name: String::from_str("Menu"),
        };
        assert(r@.menu_options =~= seq!["Home"@, "Add Task"@, "Settings"@, "Exit"@]);
        r
    }
}

} // verus!
