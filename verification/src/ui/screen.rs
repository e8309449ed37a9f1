//! What the screens share: the keys they react to and the actions they hand
//! to whoever runs them.

use crate::model::option_view;
use crate::persistence::persistence::{Task, TaskView};
use crate::screens::menu::{MenuScreen, MenuScreenView};
use crate::screens::settings::{SettingsScreen, SettingsScreenView};
use crate::screens::tasks::{TasksScreen, TasksScreenView};
use vstd::prelude::*;
use vstd::string::*;

verus! {

/// A key press, as far as the screens tell keys apart.
#[derive(Debug, Clone, Copy, PartialEq, Eq)]
pub enum Key {
    Up,
    Down,
    Enter,
    Esc,
    Tab,
    Backspace,
    Delete,
    Char(char),
    /// Any other key.
    Other,
}

/// The screens of the application.
#[derive(Debug, Clone, Copy, PartialEq, Eq, Structural)]
pub enum ScreenKind {
    Menu,
    Settings,
    Tasks,
}

/// Work on the store that the tasks screen asks for. Whoever runs the screen
/// carries it out, lists the stored tasks afresh and hands the list to
/// [`crate::screens::tasks::TasksScreen::complete`].
#[derive(Debug, Clone, PartialEq, Eq)]
pub enum StoreRequest {
    /// Store the given task as a new record.
    Save(Task),
    /// Delete the record with this identity.
    Delete(i64),
    /// Change nothing, and only list the tasks again.
    Reload,
}

/// What a [`StoreRequest`] holds.
pub enum StoreRequestView {
    Save(TaskView),
    Delete(i64),
    Reload,
}

impl View for StoreRequest {
    type V = StoreRequestView;

    open spec fn view(&self) -> StoreRequestView {
        match self {
            StoreRequest::Save(task) => StoreRequestView::Save(task@),
            StoreRequest::Delete(id) => StoreRequestView::Delete(*id),
            StoreRequest::Reload => StoreRequestView::Reload,
        }
    }
}

/// What a screen asks of whoever runs it after a key press.
#[derive(Debug, Clone, PartialEq, Eq)]
pub enum ScreenAction {
    /// Replace the active screen by a new one of this kind. The old screen and
    /// what it held in memory are gone.
    Switch(ScreenKind),
    /// Leave the interactive session, install the update, and end.
    UpdateAndExit,
    /// End the session.
    Exit,
    /// Carry out this request on the store and report back.
    Store(StoreRequest),
    /// Start a check for a newer release in the background and hand its result
    /// to [`crate::screens::settings::SettingsScreen::poll_updates`]. The
    /// settings screen returns it only while no check is in flight.
    CheckForUpdates,
}

/// What a [`ScreenAction`] holds.
pub enum ScreenActionView {
    Switch(ScreenKind),
    UpdateAndExit,
    Exit,
    Store(StoreRequestView),
    CheckForUpdates,
}

impl View for ScreenAction {
    type V = ScreenActionView;

    open spec fn view(&self) -> ScreenActionView {
        match self {
            ScreenAction::Switch(kind) => ScreenActionView::Switch(*kind),
            ScreenAction::UpdateAndExit => ScreenActionView::UpdateAndExit,
            ScreenAction::Exit => ScreenActionView::Exit,
            ScreenAction::Store(request) => ScreenActionView::Store(request@),
            ScreenAction::CheckForUpdates => ScreenActionView::CheckForUpdates,
        }
    }
}

/// The colour in which a status line is written.
#[derive(Debug, Clone, Copy, PartialEq, Eq, Structural)]
pub enum StatusColor {
    Green,
    Yellow,
    Red,
}

/// The line at the bottom of a screen: what it says and in which colour.
#[derive(Debug, Clone, PartialEq, Eq)]
pub struct StatusLine {
    pub text: String,
    pub color: StatusColor,
}

/// What a [`StatusLine`] holds.
pub struct StatusLineView {
    pub text: Seq<char>,
    pub color: StatusColor,
}

impl View for StatusLine {
    type V = StatusLineView;

    open spec fn view(&self) -> StatusLineView {
        StatusLineView { text: self.text@, color: self.color }
    }
}

/// The screen that is active: one of the three, with what it holds.
pub enum Screen {
    Menu(MenuScreen),
    Settings(SettingsScreen),
    Tasks(TasksScreen),
}

/// What a [`Screen`] holds.
pub enum ScreenView {
    Menu(MenuScreenView),
    Settings(SettingsScreenView),
    Tasks(TasksScreenView),
}

impl ScreenView {
    /// Which of the screens this is.
    pub open spec fn kind(self) -> ScreenKind {
        match self {
            ScreenView::Menu(_) => ScreenKind::Menu,
            ScreenView::Settings(_) => ScreenKind::Settings,
            ScreenView::Tasks(_) => ScreenKind::Tasks,
        }
    }

    /// The screen and the action after a key press: what the screen of this
    /// kind makes of the key.
    pub open spec fn handle_input(self, key: Key) -> (ScreenView, Option<ScreenActionView>) {
        match self {
            ScreenView::Menu(menu) => (
                ScreenView::Menu(menu.handle_input(key).0),
                menu.handle_input(key).1,
            ),
            ScreenView::Settings(settings) => (
                ScreenView::Settings(settings.handle_input(key).0),
                settings.handle_input(key).1,
            ),
            ScreenView::Tasks(tasks) => (
                ScreenView::Tasks(tasks.handle_input(key).0),
                tasks.handle_input(key).1,
            ),
        }
    }
}

impl View for Screen {
    type V = ScreenView;

    open spec fn view(&self) -> ScreenView {
        match self {
            Screen::Menu(menu) => ScreenView::Menu(menu@),
            Screen::Settings(settings) => ScreenView::Settings(settings@),
            Screen::Tasks(tasks) => ScreenView::Tasks(tasks@),
        }
    }
}

impl Screen {
    /// Which of the screens this is.
    pub fn kind(&self) -> (r: ScreenKind)
        ensures
            r == self@.kind(),
    {
        match self {
            Screen::Menu(_) => ScreenKind::Menu,
            Screen::Settings(_) => ScreenKind::Settings,
            Screen::Tasks(_) => ScreenKind::Tasks,
        }
    }

    /// Hands one key press to the screen and returns its action. The screen
    /// stays of its kind; only whoever runs it replaces it, on
    /// [`ScreenAction::Switch`].
    pub fn handle_input(&mut self, key: Key) -> (action: Option<ScreenAction>)
        ensures
            final(self)@ == old(self)@.handle_input(key).0,
            option_view(action) == old(self)@.handle_input(key).1,
            final(self)@.kind() == old(self)@.kind(),
    {
        match self {
            Screen::Menu(menu) => menu.handle_input(key),
            Screen::Settings(settings) => settings.handle_input(key),
            Screen::Tasks(tasks) => tasks.handle_input(key),
        }
    }
}

} // verus!
