//! The tasks screen: the list of tasks under a cursor, and the three modes in
//! which it reads keys. The screen never touches the store. Where a key calls
//! for work on the store it returns the request, and takes the freshly listed
//! tasks back in [`TasksScreen::complete`].

use crate::model::{option_view, views};
use crate::persistence::persistence::{Task, TaskView};
use crate::text::{is_blank, lemma_trimmed_empty_iff_blank, trim, trimmed};
use crate::ui::navigation::{
    clamp, clamped_index, lemma_moves_stay_valid, lemma_round_trip, next_index, previous_index,
    selection_view, step_down, step_up, valid_selection, ListState,
};
use crate::ui::screen::{
    Key, ScreenAction, ScreenActionView, ScreenKind, StatusColor, StatusLine, StatusLineView,
    StoreRequest, StoreRequestView,
};
use vstd::prelude::*;
use vstd::string::*;

verus! {

/// The title of the tasks screen.
pub const TASKS_TITLE: &'static str = "Tasks";

/// The status line while browsing.
pub const BROWSE_HINT: &'static str = "  ↑↓ navigate   a → add   d → delete   q/Esc → back";

/// The status line of the add form.
pub const FORM_HINT: &'static str =
    "  Adding task — Tab: switch field   Enter: save   Esc: cancel";

/// The status line while a deletion waits for confirmation.
pub const CONFIRM_HINT: &'static str =
    "  ⚠  Delete the selected task?   Enter → confirm   Esc/n → cancel";

/// What is shown in place of a description that a task does not have.
pub const NO_DESCRIPTION: &'static str = "No description.";

/// The field of the add form that typing goes to.
#[derive(Debug, Clone, Copy, PartialEq, Eq, Structural)]
pub enum AddField {
    Title,
    Description,
}

impl AddField {
    /// The other field.
    pub open spec fn toggled(self) -> AddField {
        match self {
            AddField::Title => AddField::Description,
            AddField::Description => AddField::Title,
        }
    }
}

/// What the screen is doing with the keys it gets.
#[derive(Debug, Clone, PartialEq, Eq)]
pub enum TasksMode {
    /// Browsing the list.
    View,
    /// Filling in the form for a new task; the two texts are the drafts.
    Adding { active_field: AddField, title: String, description: String },
    /// Waiting for the deletion of the selected task to be confirmed.
    ConfirmDelete,
}

/// What a [`TasksMode`] holds.
pub enum TasksModeView {
    View,
    Adding { active_field: AddField, title: Seq<char>, description: Seq<char> },
    ConfirmDelete,
}

impl View for TasksMode {
    type V = TasksModeView;

    open spec fn view(&self) -> TasksModeView {
        match self {
            TasksMode::View => TasksModeView::View,
            TasksMode::Adding { active_field, title, description } => TasksModeView::Adding {
                active_field: *active_field,
                title: title@,
                description: description@,
            },
            TasksMode::ConfirmDelete => TasksModeView::ConfirmDelete,
        }
    }
}

/// The tasks screen.
pub struct TasksScreen {
    pub title: String,
    /// The tasks as the store last listed them.
    pub tasks: Vec<Task>,
    pub state: ListState,
    pub mode: TasksMode,
}

/// What a [`TasksScreen`] holds.
pub struct TasksScreenView {
    pub title: Seq<char>,
    pub tasks: Seq<TaskView>,
    pub selected: Option<int>,
    pub mode: TasksModeView,
}

/// What the screen shows of one task beside the list.
#[derive(Debug, Clone, PartialEq, Eq)]
pub struct TaskDetails {
    pub id: i64,
    pub title: String,
    pub completed: bool,
    pub description: String,
}

/// What a [`TaskDetails`] holds.
pub struct TaskDetailsView {
    pub id: i64,
    pub title: Seq<char>,
    pub completed: bool,
    pub description: Seq<char>,
}

impl View for TaskDetails {
    type V = TaskDetailsView;

    open spec fn view(&self) -> TaskDetailsView {
        TaskDetailsView {
            id: self.id,
            title: self.title@,
            completed: self.completed,
            description: self.description@,
        }
    }
}

/// What the screen shows beside the list.
#[derive(Debug, Clone, PartialEq, Eq)]
pub enum Panel {
    /// No task is selected: a hint to select one.
    Hint,
    /// The selected task.
    Details(TaskDetails),
    /// The add form with its drafts.
    Form { active_field: AddField, title: String, description: String },
}

/// What a [`Panel`] holds.
pub enum PanelView {
    Hint,
    Details(TaskDetailsView),
    Form { active_field: AddField, title: Seq<char>, description: Seq<char> },
}

impl View for Panel {
    type V = PanelView;

    open spec fn view(&self) -> PanelView {
        match self {
            Panel::Hint => PanelView::Hint,
            Panel::Details(details) => PanelView::Details(details@),
            Panel::Form { active_field, title, description } => PanelView::Form {
                active_field: *active_field,
                title: title@,
                description: description@,
            },
        }
    }
}

/// What is shown of `task`: identity 0 for a task that was never stored, and
/// [`NO_DESCRIPTION`] for one without a description.
pub open spec fn details_of(task: TaskView) -> TaskDetailsView {
    TaskDetailsView {
        id: match task.id {
            Some(id) => id,
            None => 0,
        },
        title: task.title,
        completed: task.completed,
        description: match task.description {
            Some(description) => description,
            None => NO_DESCRIPTION@,
        },
    }
}

/// The task that the add form stands for: not yet stored, not completed, with
/// the trimmed title, and with the trimmed description unless that is empty.
pub open spec fn drafted_task(title: Seq<char>, description: Seq<char>) -> TaskView {
    TaskView {
        id: None,
        title: trimmed(title),
        description: if trimmed(description).len() == 0 {
            None
        } else {
            Some(trimmed(description))
        },
        completed: false,
    }
}

/// `text` with `c` typed at its end.
pub open spec fn typed(text: Seq<char>, c: char) -> Seq<char> {
    text.push(c)
}

/// `text` after Backspace: without its last character, or still empty.
pub open spec fn erased(text: Seq<char>) -> Seq<char> {
    if text.len() == 0 {
        text
    } else {
        text.drop_last()
    }
}

impl TasksScreenView {
    /// The selection is nothing on an empty list and one of the indices
    /// otherwise.
    pub open spec fn wf(self) -> bool {
        valid_selection(self.selected, self.tasks.len())
    }

    /// The task under the cursor, if the cursor is on one.
    pub open spec fn selected_task(self) -> Option<TaskView> {
        match self.selected {
            Some(i) => if 0 <= i < self.tasks.len() {
                Some(self.tasks[i])
            } else {
                None
            },
            None => None,
        }
    }

    /// The status line: the keys of the mode the screen is in.
    pub open spec fn status_line(self) -> StatusLineView {
        match self.mode {
            TasksModeView::View => StatusLineView {
                text: BROWSE_HINT@,
                color: StatusColor::Green,
            },
            TasksModeView::Adding { .. } => StatusLineView {
                text: FORM_HINT@,
                color: StatusColor::Yellow,
            },
            TasksModeView::ConfirmDelete => StatusLineView {
                text: CONFIRM_HINT@,
                color: StatusColor::Red,
            },
        }
    }

    /// What stands beside the list: the add form while it is open, else the
    /// selected task, or a hint where none is selected.
    pub open spec fn panel(self) -> PanelView {
        match self.mode {
            TasksModeView::Adding { active_field, title, description } => PanelView::Form {
                active_field,
                title,
                description,
            },
            _ => match self.selected_task() {
                Some(task) => PanelView::Details(details_of(task)),
                None => PanelView::Hint,
            },
        }
    }

    /// The screen in another mode.
    pub open spec fn with_mode(self, mode: TasksModeView) -> TasksScreenView {
        TasksScreenView { mode, ..self }
    }

    /// The screen after one step down the list.
    pub open spec fn list_next(self) -> TasksScreenView {
        TasksScreenView { selected: next_index(self.selected, self.tasks.len()), ..self }
    }

    /// The screen after one step up the list.
    pub open spec fn list_prev(self) -> TasksScreenView {
        TasksScreenView { selected: previous_index(self.selected, self.tasks.len()), ..self }
    }

    /// The screen showing `tasks`, the selection clamped into them.
    pub open spec fn reload(self, tasks: Seq<TaskView>) -> TasksScreenView {
        TasksScreenView { tasks, selected: clamped_index(self.selected, tasks.len()), ..self }
    }

    /// The screen with the cursor on the last task, if there is one.
    pub open spec fn select_last(self) -> TasksScreenView {
        if self.tasks.len() == 0 {
            self
        } else {
            TasksScreenView { selected: Some(self.tasks.len() - 1), ..self }
        }
    }

    /// The screen after `request` was carried out and the store listed
    /// `tasks`: it shows them, with the cursor on the last of them after a
    /// save, and clamped into them otherwise.
    pub open spec fn complete(
        self,
        request: StoreRequestView,
        tasks: Seq<TaskView>,
    ) -> TasksScreenView {
        match request {
            StoreRequestView::Save(_) => self.reload(tasks).select_last(),
            _ => self.reload(tasks),
        }
    }

    /// A key press while browsing. Up and Down move the cursor; `a` opens an
    /// empty add form; `d` and Delete ask for confirmation if a task is
    /// selected; Esc, `q` and `b` go back to the menu.
    pub open spec fn browse(self, key: Key) -> (TasksScreenView, Option<ScreenActionView>) {
        match key {
            Key::Up => (self.list_prev(), None),
            Key::Down => (self.list_next(), None),
            Key::Delete => (
                if self.selected_task() is Some {
                    self.with_mode(TasksModeView::ConfirmDelete)
                } else {
                    self
                },
                None,
            ),
            Key::Esc => (self, Some(ScreenActionView::Switch(ScreenKind::Menu))),
            Key::Char(c) => if c == 'a' {
                (
                    self.with_mode(
                        TasksModeView::Adding {
                            active_field: AddField::Title,
                            title: Seq::empty(),
                            description: Seq::empty(),
                        },
                    ),
                    None,
                )
            } else if c == 'd' {
                (
                    if self.selected_task() is Some {
                        self.with_mode(TasksModeView::ConfirmDelete)
                    } else {
                        self
                    },
                    None,
                )
            } else if c == 'q' || c == 'b' {
                (self, Some(ScreenActionView::Switch(ScreenKind::Menu)))
            } else {
                (self, None)
            },
            _ => (self, None),
        }
    }

    /// A key press in the add form. Esc drops the drafts; Tab moves to the
    /// other field; a character is typed into the active field and Backspace
    /// erases there. Enter always closes the form: with a title that is not
    /// blank it asks the store to save the drafted task, with a blank one it
    /// asks for nothing.
    pub open spec fn fill_form(
        self,
        key: Key,
        active_field: AddField,
        title: Seq<char>,
        description: Seq<char>,
    ) -> (TasksScreenView, Option<ScreenActionView>) {
        match key {
            Key::Esc => (self.with_mode(TasksModeView::View), None),
            Key::Tab => (
                self.with_mode(
                    TasksModeView::Adding {
                        active_field: active_field.toggled(),
                        title,
                        description,
                    },
                ),
                None,
            ),
            Key::Enter => (
                self.with_mode(TasksModeView::View),
                if trimmed(title).len() == 0 {
                    None
                } else {
                    Some(
                        ScreenActionView::Store(
                            StoreRequestView::Save(drafted_task(title, description)),
                        ),
                    )
                },
            ),
            Key::Backspace => (
                self.with_mode(
                    match active_field {
                        AddField::Title => TasksModeView::Adding {
                            active_field,
                            title: erased(title),
                            description,
                        },
                        AddField::Description => TasksModeView::Adding {
                            active_field,
                            title,
                            description: erased(description),
                        },
                    },
                ),
                None,
            ),
            Key::Char(c) => (
                self.with_mode(
                    match active_field {
                        AddField::Title => TasksModeView::Adding {
                            active_field,
                            title: typed(title, c),
                            description,
                        },
                        AddField::Description => TasksModeView::Adding {
                            active_field,
                            title,
                            description: typed(description, c),
                        },
                    },
                ),
                None,
            ),
            _ => (self, None),
        }
    }

    /// The request that confirms a deletion: delete the selected task by its
    /// identity, or only list the tasks again where no task is selected or the
    /// selected one was never stored.
    pub open spec fn deletion(self) -> StoreRequestView {
        match self.selected_task() {
            Some(task) => match task.id {
                Some(id) => StoreRequestView::Delete(id),
                None => StoreRequestView::Reload,
            },
            None => StoreRequestView::Reload,
        }
    }

    /// A key press while a deletion waits for confirmation. Enter confirms,
    /// Esc and `n` cancel, and any other key changes nothing.
    pub open spec fn confirm(self, key: Key) -> (TasksScreenView, Option<ScreenActionView>) {
        match key {
            Key::Enter => (
                self.with_mode(TasksModeView::View),
                Some(ScreenActionView::Store(self.deletion())),
            ),
            Key::Esc => (self.with_mode(TasksModeView::View), None),
            Key::Char(c) => if c == 'n' {
                (self.with_mode(TasksModeView::View), None)
            } else {
                (self, None)
            },
            _ => (self, None),
        }
    }

    /// The screen and the action after a key press, by the mode the screen is
    /// in.
    pub open spec fn handle_input(self, key: Key) -> (TasksScreenView, Option<ScreenActionView>) {
        match self.mode {
            TasksModeView::View => self.browse(key),
            TasksModeView::Adding { active_field, title, description } => self.fill_form(
                key,
                active_field,
                title,
                description,
            ),
            TasksModeView::ConfirmDelete => self.confirm(key),
        }
    }

    /// The screen after the keys of `keys` were pressed in order.
    pub open spec fn after_keys(self, keys: Seq<Key>) -> TasksScreenView
        decreases keys.len(),
    {
        if keys.len() == 0 {
            self
        } else {
            self.after_keys(keys.drop_last()).handle_input(keys.last()).0
        }
    }
}

/// The key that types `c`.
pub open spec fn character_key(c: char) -> Key {
    Key::Char(c)
}

/// The keys that type `text`, one for each character.
pub open spec fn typing(text: Seq<char>) -> Seq<Key> {
    text.map_values(|c: char| character_key(c))
}

impl View for TasksScreen {
    type V = TasksScreenView;

    open spec fn view(&self) -> TasksScreenView {
        TasksScreenView {
            title: self.title@,
            tasks: views(self.tasks@),
            selected: selection_view(self.state.selected),
            mode: self.mode@,
        }
    }
}

impl TasksScreen {
    /// The screen [`TASKS_TITLE`] over the tasks that the store listed,
    /// browsing, with the cursor on the first task if there is one.
    pub fn new(tasks: Vec<Task>) -> (r: Self)
        ensures
            r@.title == TASKS_TITLE@,
            r@.tasks == views(tasks@),
            r@.selected == (if tasks@.len() == 0 {
                None
            } else {
                Some(0int)
            }),
            r@.mode == TasksModeView::View,
            r@.wf(),
    {
        let mut state = ListState::default();
        if tasks.len() != 0 {
            state.select(Some(0));
        }
        TasksScreen { title: String::from_str(TASKS_TITLE), tasks, state, mode: TasksMode::View }
    }

    /// Shows `tasks`, the tasks that the store lists now, and clamps the
    /// selection into them: nothing on an empty list, else the old index or
    /// the last one, whichever is smaller.
    pub fn reload(&mut self, tasks: Vec<Task>)
        ensures
            final(self)@ == old(self)@.reload(views(tasks@)),
            final(self)@.wf(),
    {
        self.tasks = tasks;
        let i = clamp(self.state.selected(), self.tasks.len());
        self.state.select(i);
    }

    /// Takes the tasks that the store lists after `request` was carried out.
    /// After a save the cursor goes to the last entry of the list; otherwise
    /// it stays where it was, clamped into the list. Where the store lists the
    /// newest task first, the last entry is the oldest task and not the one
    /// just saved.
    pub fn complete(&mut self, request: &StoreRequest, tasks: Vec<Task>)
        ensures
            final(self)@ == old(self)@.complete(request@, views(tasks@)),
            final(self)@.wf(),
    {
        self.reload(tasks);
        match request {
            StoreRequest::Save(_) => {
                if self.tasks.len() != 0 {
                    self.state.select(Some(self.tasks.len() - 1));
                }
            },
            _ => {},
        }
    }

    /// The task under the cursor, if the cursor is on one.
    pub fn selected_task(&self) -> (r: Option<&Task>)
        ensures
            option_view(r) == self@.selected_task(),
    {
        match self.state.selected() {
            Some(i) => if i < self.tasks.len() {
                Some(&self.tasks[i])
            } else {
                None
            },
            None => None,
        }
    }

    /// Moves the cursor one task down, wrapping from the last to the first;
    /// does nothing on an empty list.
    pub fn list_next(&mut self)
        ensures
            final(self)@ == old(self)@.list_next(),
    {
        let i = step_down(self.state.selected(), self.tasks.len());
        self.state.select(i);
    }

    /// Moves the cursor one task up, wrapping from the first to the last; does
    /// nothing on an empty list.
    pub fn list_prev(&mut self)
        ensures
            final(self)@ == old(self)@.list_prev(),
    {
        let i = step_up(self.state.selected(), self.tasks.len());
        self.state.select(i);
    }

    /// The line to draw at the bottom of the screen.
    pub fn status_line(&self) -> (r: StatusLine)
        ensures
            r@ == self@.status_line(),
    {
        match &self.mode {
            TasksMode::View => StatusLine {
                text: String::from_str(BROWSE_HINT),
                color: StatusColor::Green,
            },
            TasksMode::Adding { .. } => StatusLine {
                text: String::from_str(FORM_HINT),
                color: StatusColor::Yellow,
            },
            TasksMode::ConfirmDelete => StatusLine {
                text: String::from_str(CONFIRM_HINT),
                color: StatusColor::Red,
            },
        }
    }

    /// What to draw beside the list.
    pub fn panel(&self) -> (r: Panel)
        ensures
            r@ == self@.panel(),
    {
        match &self.mode {
            TasksMode::Adding { active_field, title, description } => Panel::Form {
                active_field: *active_field,
                title: title.clone(),
                description: description.clone(),
            },
            _ => match self.selected_task() {
                Some(task) => Panel::Details(
                    TaskDetails {
                        id: match task.id {
                            Some(id) => id,
                            None => 0,
                        },
                        title: task.title.clone(),
                        completed: task.completed,
                        description: match &task.description {
                            Some(description) => description.clone(),
                            None => String::from_str(NO_DESCRIPTION),
                        },
                    },
                ),
                None => Panel::Hint,
            },
        }
    }

    fn deletion(&self) -> (r: StoreRequest)
        ensures
            r@ == self@.deletion(),
    {
        match self.selected_task() {
            Some(task) => match task.id {
                Some(id) => StoreRequest::Delete(id),
                None => StoreRequest::Reload,
            },
            None => StoreRequest::Reload,
        }
    }

    fn browse(&mut self, key: Key) -> (action: Option<ScreenAction>)
        ensures
            final(self)@ == old(self)@.browse(key).0,
            option_view(action) == old(self)@.browse(key).1,
    {
        match key {
            Key::Up => {
                self.list_prev();
                None
            },
            Key::Down => {
                self.list_next();
                None
            },
            Key::Delete => {
                if self.selected_task().is_some() {
                    self.mode = TasksMode::ConfirmDelete;
                }
                None
            },
            Key::Esc => Some(ScreenAction::Switch(ScreenKind::Menu)),
            Key::Char(c) => {
                if c == 'a' {
                    self.mode = TasksMode::Adding {
                        active_field: AddField::Title,
                        title: String::new(),
                        description: String::new(),
                    };
                    None
                } else if c == 'd' {
                    if self.selected_task().is_some() {
                        self.mode = TasksMode::ConfirmDelete;
                    }
                    None
                } else if c == 'q' || c == 'b' {
                    Some(ScreenAction::Switch(ScreenKind::Menu))
                } else {
                    None
                }
            },
            _ => None,
        }
    }

    fn confirm(&mut self, key: Key) -> (action: Option<ScreenAction>)
        ensures
            final(self)@ == old(self)@.confirm(key).0,
            option_view(action) == old(self)@.confirm(key).1,
    {
        match key {
            Key::Enter => {
                let request = self.deletion();
                self.mode = TasksMode::View;
                Some(ScreenAction::Store(request))
            },
            Key::Esc => {
                self.mode = TasksMode::View;
                None
            },
            Key::Char(c) => {
                if c == 'n' {
                    self.mode = TasksMode::View;
                }
                None
            },
            _ => None,
        }
    }

    /// Reacts to one key press, as [`TasksScreenView::handle_input`] says, and
    /// returns the action for whoever runs the screen. A request to the store
    /// in it is answered through [`TasksScreen::complete`].
    pub fn handle_input(&mut self, key: Key) -> (action: Option<ScreenAction>)
        ensures
            final(self)@ == old(self)@.handle_input(key).0,
            option_view(action) == old(self)@.handle_input(key).1,
            old(self)@.wf() ==> final(self)@.wf(),
    {
        proof {
            lemma_moves_stay_valid(old(self)@.selected, old(self)@.tasks.len());
        }
        match &mut self.mode {
            TasksMode::View => self.browse(key),
            TasksMode::Adding { active_field, title, description } => match key {
                Key::Esc => {
                    self.mode = TasksMode::View;
                    None
                },
                Key::Tab => {
                    *active_field = match *active_field {
                        AddField::Title => AddField::Description,
                        AddField::Description => AddField::Title,
                    };
                    None
                },
                Key::Enter => {
                    let t = trim(title.as_str());
                    let action = if t.as_str().is_empty() {
                        None
                    } else {
                        let d = trim(description.as_str());
                        let task = Task {
                            id: None,
                            title: t,
                            description: if d.as_str().is_empty() {
                                None
                            } else {
                                Some(d)
                            },
                            completed: false,
                        };
                        Some(ScreenAction::Store(StoreRequest::Save(task)))
                    };
                    self.mode = TasksMode::View;
                    action
                },
                Key::Backspace => {
                    match active_field {
                        AddField::Title => {
                            title.pop();
                        },
                        AddField::Description => {
                            description.pop();
                        },
                    }
                    None
                },
                Key::Char(c) => {
                    match active_field {
                        AddField::Title => title.push(c),
                        AddField::Description => description.push(c),
                    }
                    None
                },
                _ => None,
            },
            TasksMode::ConfirmDelete => self.confirm(key),
        }
    }
}

/// No key changes the title or the listed tasks: the list changes only when
/// the store has listed the tasks again.
pub proof fn lemma_keys_keep_the_list(screen: TasksScreenView, key: Key)
    ensures
        screen.handle_input(key).0.tasks == screen.tasks,
        screen.handle_input(key).0.title == screen.title,
{
}

/// While browsing a list that is not empty, Down then Up, and Up then Down,
/// leave the screen as it was; Up from the first task lands on the last, and
/// Down from the last lands on the first.
pub proof fn lemma_cursor_round_trip(screen: TasksScreenView)
    requires
        screen.wf(),
        screen.tasks.len() > 0,
        screen.mode == TasksModeView::View,
    ensures
        screen.handle_input(Key::Down).0.handle_input(Key::Up).0 == screen,
        screen.handle_input(Key::Up).0.handle_input(Key::Down).0 == screen,
        screen.selected == Some(0int) ==> screen.handle_input(Key::Up).0.selected == Some(
            screen.tasks.len() - 1,
        ),
        screen.selected == Some(screen.tasks.len() - 1) ==> screen.handle_input(
            Key::Down,
        ).0.selected == Some(0int),
{
    lemma_round_trip(screen.selected, screen.tasks.len());
}

/// Pressing one run of keys after another is pressing them all in order.
pub proof fn lemma_after_keys_concat(screen: TasksScreenView, first: Seq<Key>, second: Seq<Key>)
    ensures
        screen.after_keys(first + second) == screen.after_keys(first).after_keys(second),
    decreases second.len(),
{
    if second.len() == 0 {
        assert(first + second == first);
    } else {
        lemma_after_keys_concat(screen, first, second.drop_last());
        assert((first + second).drop_last() == first + second.drop_last());
        assert((first + second).last() == second.last());
    }
}

/// In the add form every character that is typed is added to the draft of
/// the active field, whatever the character is, and nothing else changes.
pub proof fn lemma_typing_fills_the_active_field(
    screen: TasksScreenView,
    active_field: AddField,
    title: Seq<char>,
    description: Seq<char>,
    text: Seq<char>,
)
    requires
        screen.mode == (TasksModeView::Adding { active_field, title, description }),
    ensures
        screen.after_keys(typing(text)) == screen.with_mode(
            match active_field {
                AddField::Title => TasksModeView::Adding {
                    active_field,
                    title: title + text,
                    description,
                },
                AddField::Description => TasksModeView::Adding {
                    active_field,
                    title,
                    description: description + text,
                },
            },
        ),
    decreases text.len(),
{
    if text.len() == 0 {
        assert(title + text == title);
        assert(description + text == description);
    } else {
        let front = text.drop_last();
        lemma_typing_fills_the_active_field(screen, active_field, title, description, front);
        assert(typing(text).len() == text.len());
        assert(typing(text).drop_last() =~= typing(front));
        assert(typing(text).last() == Key::Char(text.last()));
        assert((title + front).push(text.last()) == title + text);
        assert((description + front).push(text.last()) == description + text);
    }
}

/// From browsing, `a`, a title typed, Tab, a description typed and Enter ask
/// the store to save exactly the task drafted from the two texts, or nothing
/// if the title is blank; either way the screen is browsing again, its list
/// and cursor untouched.
pub proof fn lemma_add_flow(screen: TasksScreenView, title: Seq<char>, description: Seq<char>)
    requires
        screen.mode == TasksModeView::View,
    ensures
        ({
            let keys = seq![Key::Char('a')] + typing(title) + seq![Key::Tab] + typing(description);
            let end = screen.after_keys(keys).handle_input(Key::Enter);
            &&& end.0 == screen
            &&& end.1 == if is_blank(title) {
                None
            } else {
                Some(
                    ScreenActionView::Store(
                        StoreRequestView::Save(drafted_task(title, description)),
                    ),
                )
            }
        }),
{
    let empty = Seq::<char>::empty();
    let opened = screen.with_mode(
        TasksModeView::Adding { active_field: AddField::Title, title: empty, description: empty },
    );
    let titled = screen.with_mode(
        TasksModeView::Adding { active_field: AddField::Title, title, description: empty },
    );
    let moved = screen.with_mode(
        TasksModeView::Adding { active_field: AddField::Description, title, description: empty },
    );
    let filled = screen.with_mode(
        TasksModeView::Adding { active_field: AddField::Description, title, description },
    );
    let a = seq![Key::Char('a')];
    let tab = seq![Key::Tab];
    assert(screen.after_keys(a) == opened) by {
        assert(a.drop_last() == Seq::<Key>::empty());
        assert(screen.after_keys(a.drop_last()) == screen);
    }
    assert(opened.after_keys(typing(title)) == titled) by {
        lemma_typing_fills_the_active_field(opened, AddField::Title, empty, empty, title);
        assert(empty + title == title);
    }
    assert(titled.after_keys(tab) == moved) by {
        assert(tab.drop_last() == Seq::<Key>::empty());
        assert(titled.after_keys(tab.drop_last()) == titled);
    }
    assert(moved.after_keys(typing(description)) == filled) by {
        lemma_typing_fills_the_active_field(
            moved,
            AddField::Description,
            title,
            empty,
            description,
        );
        assert(empty + description == description);
    }
    lemma_after_keys_concat(screen, a, typing(title));
    lemma_after_keys_concat(screen, a + typing(title), tab);
    lemma_after_keys_concat(screen, a + typing(title) + tab, typing(description));
    lemma_trimmed_empty_iff_blank(title);
}

/// Enter in the add form with a title of white space alone asks nothing of the
/// store, leaves the listed tasks as they are, and returns to browsing.
pub proof fn lemma_blank_title_is_not_saved(
    screen: TasksScreenView,
    active_field: AddField,
    title: Seq<char>,
    description: Seq<char>,
)
    requires
        screen.mode == (TasksModeView::Adding { active_field, title, description }),
        is_blank(title),
    ensures
        screen.handle_input(Key::Enter).1 is None,
        screen.handle_input(Key::Enter).0 == screen.with_mode(TasksModeView::View),
        screen.handle_input(Key::Enter).0.tasks == screen.tasks,
{
    lemma_trimmed_empty_iff_blank(title);
}

/// Enter in the add form with a title that is not blank asks the store to save
/// exactly the drafted task, and returns to browsing.
pub proof fn lemma_titled_draft_is_saved(
    screen: TasksScreenView,
    active_field: AddField,
    title: Seq<char>,
    description: Seq<char>,
)
    requires
        screen.mode == (TasksModeView::Adding { active_field, title, description }),
        !is_blank(title),
    ensures
        screen.handle_input(Key::Enter).1 == Some(
            ScreenActionView::Store(StoreRequestView::Save(drafted_task(title, description))),
        ),
        drafted_task(title, description).title.len() > 0,
        screen.handle_input(Key::Enter).0.mode == TasksModeView::View,
{
    lemma_trimmed_empty_iff_blank(title);
}

/// After a deletion the screen shows what the store still lists. If that is
/// nothing, nothing is selected; otherwise the cursor is on a task of the
/// list: where it was, or on the last task if it was beyond it.
pub proof fn lemma_delete_clamps_selection(
    screen: TasksScreenView,
    id: i64,
    remaining: Seq<TaskView>,
)
    requires
        screen.wf(),
    ensures
        screen.complete(StoreRequestView::Delete(id), remaining).tasks == remaining,
        screen.complete(StoreRequestView::Delete(id), remaining).wf(),
        remaining.len() == 0 ==> screen.complete(
            StoreRequestView::Delete(id),
            remaining,
        ).selected is None,
        remaining.len() > 0 ==> ({
            let after = screen.complete(StoreRequestView::Delete(id), remaining).selected;
            &&& after is Some
            &&& 0 <= after->0 <= remaining.len() - 1
            &&& screen.selected is Some ==> after->0 == if screen.selected->0 <= remaining.len()
                - 1 {
                screen.selected->0
            } else {
                remaining.len() - 1
            }
        }),
{
}

} // verus!
