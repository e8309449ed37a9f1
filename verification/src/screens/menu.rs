//! The main menu: three entries under one cursor.

use crate::model::option_view;
use crate::text::same_text;
use crate::ui::navigation::{ListState, NavigatableList, NavigatableListView};
use crate::ui::screen::{Key, ScreenAction, ScreenActionView, ScreenKind};
use vstd::prelude::*;
use vstd::string::*;

verus! {

/// The title of the main menu.
pub const MENU_TITLE: &'static str = "Main Menu";

/// The entry that opens the tasks screen.
pub const VIEW_TASKS: &'static str = "View Tasks";

/// The entry that opens the settings screen.
pub const SETTINGS: &'static str = "Settings";

/// The entry that ends the session.
pub const EXIT: &'static str = "Exit";

/// The main menu.
pub struct MenuScreen {
    pub title: String,
    pub list: NavigatableList,
}

/// What a [`MenuScreen`] holds.
pub struct MenuScreenView {
    pub title: Seq<char>,
    pub list: NavigatableListView,
}

/// What Enter does on the entry with this text: [`VIEW_TASKS`] and
/// [`SETTINGS`] open their screens, [`EXIT`] ends the session, and any other
/// entry, or none, does nothing.
pub open spec fn menu_choice(label: Option<Seq<char>>) -> Option<ScreenActionView> {
    match label {
        Some(label) => if label == VIEW_TASKS@ {
            Some(ScreenActionView::Switch(ScreenKind::Tasks))
        } else if label == SETTINGS@ {
            Some(ScreenActionView::Switch(ScreenKind::Settings))
        } else if label == EXIT@ {
            Some(ScreenActionView::Exit)
        } else {
            None
        },
        None => None,
    }
}

impl MenuScreenView {
    /// The menu and the action after a key press: Up and Down move the cursor,
    /// Enter acts on the chosen entry, `q` ends the session, and any other key
    /// does nothing.
    pub open spec fn handle_input(self, key: Key) -> (MenuScreenView, Option<ScreenActionView>) {
        match key {
            Key::Down => (MenuScreenView { list: self.list.next(), ..self }, None),
            Key::Up => (MenuScreenView { list: self.list.previous(), ..self }, None),
            Key::Enter => (self, menu_choice(self.list.chosen())),
            Key::Char(c) => (
                self,
                if c == 'q' {
                    Some(ScreenActionView::Exit)
                } else {
                    None
                },
            ),
            _ => (self, None),
        }
    }
}

impl View for MenuScreen {
    type V = MenuScreenView;

    open spec fn view(&self) -> MenuScreenView {
        MenuScreenView { title: self.title@, list: self.list@ }
    }
}

impl MenuScreen {
    /// The menu [`MENU_TITLE`] with the entries [`VIEW_TASKS`], [`SETTINGS`]
    /// and [`EXIT`], the cursor on the first.
    pub fn new() -> (r: Self)
        ensures
            r@.title == MENU_TITLE@,
            r@.list.options == seq![VIEW_TASKS@, SETTINGS@, EXIT@],
            r@.list.selected == Some(0int),
            r@.list.wf(),
    {
        let mut options: Vec<String> = Vec::new();
        options.push(String::from_str(VIEW_TASKS));
        options.push(String::from_str(SETTINGS));
        options.push(String::from_str(EXIT));
        let mut list = NavigatableList { state: ListState::default(), options };
        list.state.select(Some(0));
        let r = MenuScreen { title: String::from_str(MENU_TITLE), list };
        assert(r@.list.options =~= seq![VIEW_TASKS@, SETTINGS@, EXIT@]);
        r
    }

    /// Reacts to one key press, as [`MenuScreenView::handle_input`] says, and
    /// returns the action for whoever runs the screen.
    pub fn handle_input(&mut self, key: Key) -> (action: Option<ScreenAction>)
        ensures
            final(self)@ == old(self)@.handle_input(key).0,
            option_view(action) == old(self)@.handle_input(key).1,
            old(self)@.list.wf() ==> final(self)@.list.wf(),
    {
        match key {
            Key::Down => {
                self.list.next();
                None
            },
            Key::Up => {
                self.list.previous();
                None
            },
            Key::Enter => {
                match self.list.chosen() {
                    Some(label) => {
                        if same_text(label.as_str(), VIEW_TASKS) {
                            Some(ScreenAction::Switch(ScreenKind::Tasks))
                        } else if same_text(label.as_str(), SETTINGS) {
                            Some(ScreenAction::Switch(ScreenKind::Settings))
                        } else if same_text(label.as_str(), EXIT) {
                            Some(ScreenAction::Exit)
                        } else {
                            None
                        }
                    },
                    None => None,
                }
            },
            Key::Char(c) => {
                if c == 'q' {
                    Some(ScreenAction::Exit)
                } else {
                    None
                }
            },
            _ => None,
        }
    }
}

} // verus!
