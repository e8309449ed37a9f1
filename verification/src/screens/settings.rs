//! The settings screen: two entries under one cursor, and the state of the
//! update check that the first of them starts. The check itself runs
//! elsewhere: the screen asks for it with an action and is told its result in
//! [`SettingsScreen::poll_updates`]. At most one check is in flight: while
//! the result of one is pending the screen asks for no other.

use crate::model::option_view;
use crate::system::update::VERSION;
use crate::text::same_text;
use crate::ui::navigation::{ListState, NavigatableList, NavigatableListView};
use crate::ui::screen::{
    Key, ScreenAction, ScreenActionView, ScreenKind, StatusColor, StatusLine, StatusLineView,
};
use vstd::prelude::*;
use vstd::string::*;

verus! {

/// The title of the settings screen.
pub const SETTINGS_TITLE: &'static str = "Settings";

/// The entry that starts an update check.
pub const CHECK_FOR_UPDATES: &'static str = "Check for Updates";

/// The entry that returns to the menu.
pub const BACK: &'static str = "Back";

/// The status line while a check runs.
pub const CHECKING: &'static str = " Checking for updates...";

/// The status line while the user is asked whether to install an update.
pub const WAITING: &'static str = " Waiting for input...";

/// The status line after the user declined an update.
pub const CANCELLED: &'static str = " Update cancelled.";

/// The status line of an idle screen that has nothing else to say.
pub const SETTINGS_HINT: &'static str =
    " Press Enter on an option to select.  |  Esc / q → Back";

/// What the status line says before the version that is up to date.
pub const UP_TO_DATE_PREFIX: &'static str = " ✓ Version ";

/// What the status line says after the version that is up to date.
pub const UP_TO_DATE_SUFFIX: &'static str = " is up to date.";

/// Where the update check stands.
#[derive(Debug, Clone, PartialEq, Eq)]
pub enum UpdateState {
    /// No check has found an update that waits for an answer.
    Idle,
    /// A check was started and its result has not arrived.
    Checking,
    /// A check found this version, and the user is asked whether to install
    /// it.
    UpdateAvailable(String),
}

/// What an [`UpdateState`] holds.
pub enum UpdateStateView {
    Idle,
    Checking,
    UpdateAvailable(Seq<char>),
}

impl View for UpdateState {
    type V = UpdateStateView;

    open spec fn view(&self) -> UpdateStateView {
        match self {
            UpdateState::Idle => UpdateStateView::Idle,
            UpdateState::Checking => UpdateStateView::Checking,
            UpdateState::UpdateAvailable(version) => UpdateStateView::UpdateAvailable(version@),
        }
    }
}

/// The settings screen.
pub struct SettingsScreen {
    pub title: String,
    pub list: NavigatableList,
    pub status_message: Option<String>,
    pub update_state: UpdateState,
    /// Whether a check was started whose result the screen has not taken yet.
    pub update_pending: bool,
}

/// What a [`SettingsScreen`] holds.
pub struct SettingsScreenView {
    pub title: Seq<char>,
    pub list: NavigatableListView,
    pub status_message: Option<Seq<char>>,
    pub update_state: UpdateStateView,
    pub update_pending: bool,
}

/// The status line after a check that found nothing newer: it names the
/// version of this program.
pub open spec fn up_to_date_message() -> Seq<char> {
    UP_TO_DATE_PREFIX@ + VERSION@ + UP_TO_DATE_SUFFIX@
}

impl SettingsScreenView {
    /// The cursor is on one of the entries, and the result of a check is
    /// pending exactly while the screen is checking.
    pub open spec fn wf(self) -> bool {
        &&& self.list.wf()
        &&& self.update_pending <==> self.update_state is Checking
    }

    /// The status line: that a check runs, that an answer is awaited, or, when
    /// idle, the last status message, with a hint at the keys where there is
    /// none.
    pub open spec fn status_line(self) -> StatusLineView {
        match self.update_state {
            UpdateStateView::Checking => StatusLineView {
                text: CHECKING@,
                color: StatusColor::Yellow,
            },
            UpdateStateView::UpdateAvailable(_) => StatusLineView {
                text: WAITING@,
                color: StatusColor::Yellow,
            },
            UpdateStateView::Idle => StatusLineView {
                text: match self.status_message {
                    Some(message) => message,
                    None => SETTINGS_HINT@,
                },
                color: StatusColor::Green,
            },
        }
    }

    /// The screen after a check was started: checking, with its result
    /// pending.
    pub open spec fn check_for_updates(self) -> SettingsScreenView {
        SettingsScreenView {
            update_state: UpdateStateView::Checking,
            status_message: Some(CHECKING@),
            update_pending: true,
            ..self
        }
    }

    /// What Enter does on the entry with this text: [`CHECK_FOR_UPDATES`]
    /// starts a check unless the result of one is still pending, in which case
    /// it does nothing; [`BACK`] returns to the menu; and any other entry, or
    /// none, does nothing.
    pub open spec fn activate(self, label: Option<Seq<char>>) -> (
        SettingsScreenView,
        Option<ScreenActionView>,
    ) {
        match label {
            Some(label) => if label == CHECK_FOR_UPDATES@ {
                if self.update_pending {
                    (self, None)
                } else {
                    (self.check_for_updates(), Some(ScreenActionView::CheckForUpdates))
                }
            } else if label == BACK@ {
                (self, Some(ScreenActionView::Switch(ScreenKind::Menu)))
            } else {
                (self, None)
            },
            None => (self, None),
        }
    }

    /// A key press while the user is asked whether to install an update: `y`,
    /// `Y` and Enter accept, `n`, `N` and Esc decline, and any other key
    /// changes nothing.
    pub open spec fn answer(self, key: Key) -> (SettingsScreenView, Option<ScreenActionView>) {
        let declined = SettingsScreenView {
            update_state: UpdateStateView::Idle,
            status_message: Some(CANCELLED@),
            ..self
        };
        match key {
            Key::Enter => (self, Some(ScreenActionView::UpdateAndExit)),
            Key::Esc => (declined, None),
            Key::Char(c) => if c == 'y' || c == 'Y' {
                (self, Some(ScreenActionView::UpdateAndExit))
            } else if c == 'n' || c == 'N' {
                (declined, None)
            } else {
                (self, None)
            },
            _ => (self, None),
        }
    }

    /// A key press on the list of settings: Up and Down move the cursor, Enter
    /// acts on the chosen entry, and Esc and `q` return to the menu.
    pub open spec fn browse(self, key: Key) -> (SettingsScreenView, Option<ScreenActionView>) {
        match key {
            Key::Down => (SettingsScreenView { list: self.list.next(), ..self }, None),
            Key::Up => (SettingsScreenView { list: self.list.previous(), ..self }, None),
            Key::Enter => self.activate(self.list.chosen()),
            Key::Esc => (self, Some(ScreenActionView::Switch(ScreenKind::Menu))),
            Key::Char(c) => (
                self,
                if c == 'q' {
                    Some(ScreenActionView::Switch(ScreenKind::Menu))
                } else {
                    None
                },
            ),
            _ => (self, None),
        }
    }

    /// The screen and the action after a key press. While an update waits for
    /// an answer, every key goes to that question.
    pub open spec fn handle_input(self, key: Key) -> (
        SettingsScreenView,
        Option<ScreenActionView>,
    ) {
        if self.update_state is UpdateAvailable {
            self.answer(key)
        } else {
            self.browse(key)
        }
    }

    /// The screen after it was told `received`: nothing yet (`None`), or the
    /// result of the check, which is the newer version or none. A result is
    /// taken only while one is pending. A newer version is then offered;
    /// without one the screen is idle again and says that the program is up to
    /// date.
    pub open spec fn poll_updates(self, received: Option<Option<Seq<char>>>) -> SettingsScreenView {
        if !self.update_pending {
            self
        } else {
            match received {
                None => self,
                Some(Some(latest)) => SettingsScreenView {
                    update_pending: false,
                    update_state: UpdateStateView::UpdateAvailable(latest),
                    ..self
                },
                Some(None) => SettingsScreenView {
                    update_pending: false,
                    update_state: UpdateStateView::Idle,
                    status_message: Some(up_to_date_message()),
                    ..self
                },
            }
        }
    }
}

impl View for SettingsScreen {
    type V = SettingsScreenView;

    open spec fn view(&self) -> SettingsScreenView {
        SettingsScreenView {
            title: self.title@,
            list: self.list@,
            status_message: self.status_message.deep_view(),
            update_state: self.update_state@,
            update_pending: self.update_pending,
        }
    }
}

impl SettingsScreen {
    /// The screen [`SETTINGS_TITLE`] with the entries [`CHECK_FOR_UPDATES`]
    /// and [`BACK`], the cursor on the first, idle and without a status
    /// message.
    pub fn new() -> (r: Self)
        ensures
            r@.title == SETTINGS_TITLE@,
            r@.list.options == seq![CHECK_FOR_UPDATES@, BACK@],
            r@.list.selected == Some(0int),
            r@.status_message is None,
            r@.update_state == UpdateStateView::Idle,
            !r@.update_pending,
            r@.wf(),
    {
        let mut options: Vec<String> = Vec::new();
        options.push(String::from_str(CHECK_FOR_UPDATES));
        options.push(String::from_str(BACK));
        let mut list = NavigatableList { state: ListState::default(), options };
        list.state.select(Some(0));
        let r = SettingsScreen {
            title: String::from_str(SETTINGS_TITLE),
            list,
            status_message: None,
            update_state: UpdateState::Idle,
            update_pending: false,
        };
        assert(r@.list.options =~= seq![CHECK_FOR_UPDATES@, BACK@]);
        r
    }

    /// Marks a check as started. It is called only while no result is
    /// pending.
    fn check_for_updates(&mut self)
        requires
            !old(self).update_pending,
        ensures
            final(self)@ == old(self)@.check_for_updates(),
    {
        self.update_state = UpdateState::Checking;
        self.status_message = Some(String::from_str(CHECKING));
        self.update_pending = true;
    }

    /// Tells the screen what has arrived from the check that was started:
    /// `None` while nothing has, else its result, which is the newer version
    /// or `None`. To be called before each drawing of the screen.
    pub fn poll_updates(&mut self, received: Option<Option<String>>)
        ensures
            final(self)@ == old(self)@.poll_updates(received.deep_view()),
            old(self)@.wf() ==> final(self)@.wf(),
    {
        if self.update_pending {
            match received {
                None => {},
                Some(result) => {
                    self.update_pending = false;
                    match result {
                        Some(latest) => {
                            self.update_state = UpdateState::UpdateAvailable(latest);
                        },
                        None => {
                            self.update_state = UpdateState::Idle;
                            self.status_message = Some(
                                String::from_str(UP_TO_DATE_PREFIX).concat(VERSION).concat(
                                    UP_TO_DATE_SUFFIX,
                                ),
                            );
                        },
                    }
                },
            }
        }
    }

    /// The line to draw at the bottom of the screen.
    pub fn status_line(&self) -> (r: StatusLine)
        ensures
            r@ == self@.status_line(),
    {
        match &self.update_state {
            UpdateState::Checking => StatusLine {
                text: String::from_str(CHECKING),
                color: StatusColor::Yellow,
            },
            UpdateState::UpdateAvailable(_) => StatusLine {
                text: String::from_str(WAITING),
                color: StatusColor::Yellow,
            },
            UpdateState::Idle => StatusLine {
                text: match &self.status_message {
                    Some(message) => message.clone(),
                    None => String::from_str(SETTINGS_HINT),
                },
                color: StatusColor::Green,
            },
        }
    }

    fn decline(&mut self)
        ensures
            final(self)@ == (SettingsScreenView {
                update_state: UpdateStateView::Idle,
                status_message: Some(CANCELLED@),
                ..old(self)@
            }),
    {
        self.update_state = UpdateState::Idle;
        self.status_message = Some(String::from_str(CANCELLED));
    }

    fn answer(&mut self, key: Key) -> (action: Option<ScreenAction>)
        ensures
            final(self)@ == old(self)@.answer(key).0,
            option_view(action) == old(self)@.answer(key).1,
    {
        match key {
            Key::Enter => Some(ScreenAction::UpdateAndExit),
            Key::Esc => {
                self.decline();
                None
            },
            Key::Char(c) => {
                if c == 'y' || c == 'Y' {
                    Some(ScreenAction::UpdateAndExit)
                } else if c == 'n' || c == 'N' {
                    self.decline();
                    None
                } else {
                    None
                }
            },
            _ => None,
        }
    }

    fn activate(&mut self) -> (action: Option<ScreenAction>)
        ensures
            final(self)@ == old(self)@.activate(old(self)@.list.chosen()).0,
            option_view(action) == old(self)@.activate(old(self)@.list.chosen()).1,
    {
        let (check, back) = match self.list.chosen() {
            Some(label) => (
                same_text(label.as_str(), CHECK_FOR_UPDATES),
                same_text(label.as_str(), BACK),
            ),
            None => (false, false),
        };
        if check {
            if self.update_pending {
                None
            } else {
                self.check_for_updates();
                Some(ScreenAction::CheckForUpdates)
            }
        } else if back {
            Some(ScreenAction::Switch(ScreenKind::Menu))
        } else {
            None
        }
    }

    /// Reacts to one key press, as [`SettingsScreenView::handle_input`] says,
    /// and returns the action for whoever runs the screen.
    pub fn handle_input(&mut self, key: Key) -> (action: Option<ScreenAction>)
        ensures
            final(self)@ == old(self)@.handle_input(key).0,
            option_view(action) == old(self)@.handle_input(key).1,
            old(self)@.list.wf() ==> final(self)@.list.wf(),
            old(self)@.wf() ==> final(self)@.wf(),
    {
        let asking = match &self.update_state {
            UpdateState::UpdateAvailable(_) => true,
            _ => false,
        };
        if asking {
            return self.answer(key);
        }
        match key {
            Key::Down => {
                self.list.next();
                None
            },
            Key::Up => {
                self.list.previous();
                None
            },
            Key::Enter => self.activate(),
            Key::Esc => Some(ScreenAction::Switch(ScreenKind::Menu)),
            Key::Char(c) => {
                if c == 'q' {
                    Some(ScreenAction::Switch(ScreenKind::Menu))
                } else {
                    None
                }
            },
            _ => None,
        }
    }
}

/// Checks are serialized: while the result of a check is pending no key
/// starts another, and the pending result is still awaited afterwards.
pub proof fn lemma_checks_are_serialized(screen: SettingsScreenView, key: Key)
    requires
        screen.update_pending,
    ensures
        screen.handle_input(key).1 != Some(ScreenActionView::CheckForUpdates),
        screen.handle_input(key).0.update_pending,
{
}

/// Enter on the entry that checks for updates, pressed during a check, leaves
/// the screen as it is and asks for nothing.
pub proof fn lemma_enter_during_a_check_does_nothing(screen: SettingsScreenView)
    requires
        screen.update_pending,
        screen.update_state == UpdateStateView::Checking,
        screen.list.chosen() == Some(CHECK_FOR_UPDATES@),
    ensures
        screen.handle_input(Key::Enter) == (screen, None::<ScreenActionView>),
{
}

/// Every action that starts a check comes from a screen without a pending
/// result, and leaves exactly one pending.
pub proof fn lemma_a_check_starts_from_rest(screen: SettingsScreenView, key: Key)
    requires
        screen.handle_input(key).1 == Some(ScreenActionView::CheckForUpdates),
    ensures
        !screen.update_pending,
        screen.handle_input(key).0 == screen.check_for_updates(),
{
}

/// While the user is asked whether to install an update, no key reaches the
/// list of settings: the cursor stays, no check starts and no screen opens.
pub proof fn lemma_question_takes_every_key(screen: SettingsScreenView, key: Key)
    requires
        screen.update_state is UpdateAvailable,
    ensures
        screen.handle_input(key).0.list == screen.list,
        screen.handle_input(key).0.update_pending == screen.update_pending,
        screen.handle_input(key).1 is None || screen.handle_input(key).1 == Some(
            ScreenActionView::UpdateAndExit,
        ),
        screen.handle_input(key).0.update_state == screen.update_state || screen.handle_input(
            key,
        ).0.update_state == UpdateStateView::Idle,
{
}

/// A check that found nothing newer never leads to the offer of an update: the
/// screen is idle afterwards and says that the program is up to date.
pub proof fn lemma_no_update_ends_idle(screen: SettingsScreenView)
    requires
        screen.update_pending,
    ensures
        screen.poll_updates(Some(None)).update_state == UpdateStateView::Idle,
        screen.poll_updates(Some(None)).status_message == Some(up_to_date_message()),
        !screen.poll_updates(Some(None)).update_pending,
{
}

} // verus!
