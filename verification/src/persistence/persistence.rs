//! The store's side of the library: what a record must offer to be stored, the
//! statements that save, list, change and delete records, the decoding of the
//! rows that come back, and where the database file belongs. Running a
//! statement against a database is left to the caller, who hands the rows back
//! as plain values.

use crate::model::views;
use vstd::prelude::*;
use vstd::string::*;

verus! {

/// The directory, below the user's data directory, that holds the database.
pub const APP_DIRECTORY: &'static str = "todo";

/// The name of the database file.
pub const DATABASE_FILE: &'static str = "tasks.db";

/// The statement that creates the task table unless it exists.
pub const SCHEMA_SQL: &'static str =
    "CREATE TABLE IF NOT EXISTS tasks (id INTEGER PRIMARY KEY, title TEXT NOT NULL, description TEXT, completed BOOLEAN NOT NULL)";

/// The statement that inserts a task. The identity is left to the store.
pub const INSERT_TASK_SQL: &'static str =
    "INSERT INTO tasks (title, description, completed) VALUES (?1, ?2, ?3)";

/// The statement that overwrites the task with a given identity.
pub const UPDATE_TASK_SQL: &'static str =
    "UPDATE tasks SET title = ?1, description = ?2, completed = ?3 WHERE id = ?4";

/// The statement that lists all tasks, the one with the greatest identity
/// first.
pub const SELECT_TASKS_SQL: &'static str =
    "SELECT id, title, description, completed FROM tasks ORDER BY id DESC";

/// The statement that deletes the task with a given identity.
pub const DELETE_TASK_SQL: &'static str = "DELETE FROM tasks WHERE id = ?1";

/// One value of a row or of a statement's parameters.
#[derive(Debug, Clone, PartialEq, Eq)]
pub enum SqlValue {
    Null,
    Integer(i64),
    Text(String),
    /// A value of a storage class that no record of this library reads. It
    /// occurs in rows only: no statement binds it.
    Other,
}

/// What a [`SqlValue`] holds.
pub enum SqlValueView {
    Null,
    Integer(i64),
    Text(Seq<char>),
    Other,
}

impl View for SqlValue {
    type V = SqlValueView;

    open spec fn view(&self) -> SqlValueView {
        match self {
            SqlValue::Null => SqlValueView::Null,
            SqlValue::Integer(i) => SqlValueView::Integer(*i),
            SqlValue::Text(s) => SqlValueView::Text(s@),
            SqlValue::Other => SqlValueView::Other,
        }
    }
}

/// Whether every value can be bound to a parameter: none is
/// [`SqlValue::Other`].
pub open spec fn bindable(values: Seq<SqlValueView>) -> bool {
    forall|i: int| 0 <= i < values.len() ==> #[trigger] values[i] != SqlValueView::Other
}

/// Why a row could not be read as a record.
#[derive(Debug, Clone, Copy, PartialEq, Eq, Structural)]
pub enum RowError {
    /// The row has no column at this index.
    InvalidColumnIndex(usize),
    /// The value at this index has a storage class that the field cannot take.
    InvalidColumnType(usize),
}

/// A statement for the database: its text and the values bound to its
/// parameters `?1`, `?2`, and so on, in order.
#[derive(Debug, Clone, PartialEq, Eq)]
pub struct Statement {
    pub sql: String,
    pub params: Vec<SqlValue>,
}

/// What a [`Statement`] holds.
pub struct StatementView {
    pub sql: Seq<char>,
    pub params: Seq<SqlValueView>,
}

impl View for Statement {
    type V = StatementView;

    open spec fn view(&self) -> StatementView {
        StatementView { sql: self.sql@, params: views(self.params@) }
    }
}

/// What a record type offers so that the store can save, list, change and
/// delete its records without knowing their shape.
pub trait Persistable: Sized + View {
    /// The text of the statement that inserts a record.
    spec fn insert_text() -> Seq<char>;

    /// The values bound to the insert statement for `record`.
    spec fn insert_values(record: Self::V) -> Seq<SqlValueView>;

    /// The text of the statement that changes a stored record.
    spec fn update_text() -> Seq<char>;

    /// The values bound to the update statement for `record`.
    spec fn update_values(record: Self::V) -> Seq<SqlValueView>;

    /// The text of the statement that lists all records.
    spec fn get_all_text() -> Seq<char>;

    /// The text of the statement that deletes the record with a given identity.
    spec fn delete_text() -> Seq<char>;

    /// The record that a row of the listing stands for, or why it stands for
    /// none.
    spec fn decoded(row: Seq<SqlValueView>) -> Result<Self::V, RowError>;

    /// The statement that inserts this record, with one parameter for each
    /// value of [`Persistable::params`].
    fn insert_sql(&self) -> (sql: String)
        ensures
            sql@ == Self::insert_text(),
    ;

    /// The values to bind to the insert statement.
    fn params(&self) -> (values: Vec<SqlValue>)
        ensures
            views(values@) == Self::insert_values(self@),
            bindable(views(values@)),
    ;

    /// The statement that changes a stored record, with one parameter for each
    /// value of [`Persistable::update_params`].
    fn update_sql() -> (sql: String)
        ensures
            sql@ == Self::update_text(),
    ;

    /// The values to bind to the update statement.
    fn update_params(&self) -> (values: Vec<SqlValue>)
        ensures
            views(values@) == Self::update_values(self@),
            bindable(views(values@)),
    ;

    /// The statement that lists all records, without parameters.
    fn get_all_sql() -> (sql: String)
        ensures
            sql@ == Self::get_all_text(),
    ;

    /// The statement that deletes one record, with the identity as its only
    /// parameter.
    fn delete_sql() -> (sql: String)
        ensures
            sql@ == Self::delete_text(),
    ;

    /// Reads one row of the listing as a record.
    fn from_row(row: &Vec<SqlValue>) -> (r: Result<Self, RowError>)
        ensures
            match r {
                Ok(record) => Self::decoded(views(row@)) == Ok::<Self::V, RowError>(record@),
                Err(e) => Self::decoded(views(row@)) == Err::<Self::V, RowError>(e),
            },
    ;
}

impl Statement {
    /// The statement that creates the task table unless it exists. It can be
    /// run at every start.
    pub fn schema() -> (r: Statement)
        ensures
            r@.sql == SCHEMA_SQL@,
            r@.params.len() == 0,
            bindable(r@.params),
    {
        Statement { sql: String::from_str(SCHEMA_SQL), params: Vec::new() }
    }

    /// The statement that stores `item` as a new record.
    pub fn insert<T: Persistable>(item: &T) -> (r: Statement)
        ensures
            r@.sql == T::insert_text(),
            r@.params == T::insert_values(item@),
            bindable(r@.params),
    {
        Statement { sql: item.insert_sql(), params: item.params() }
    }

    /// The statement that lists every stored record of type `T`.
    pub fn select_all<T: Persistable>() -> (r: Statement)
        ensures
            r@.sql == T::get_all_text(),
            r@.params.len() == 0,
            bindable(r@.params),
    {
        Statement { sql: T::get_all_sql(), params: Vec::new() }
    }

    /// The statement that overwrites the stored record that has the identity
    /// of `item`.
    pub fn update<T: Persistable>(item: &T) -> (r: Statement)
        ensures
            r@.sql == T::update_text(),
            r@.params == T::update_values(item@),
            bindable(r@.params),
    {
        Statement { sql: T::update_sql(), params: item.update_params() }
    }

    /// The statement that deletes the record of type `T` with identity `id`.
    /// Where no such record is stored it deletes nothing.
    pub fn delete<T: Persistable>(id: i64) -> (r: Statement)
        ensures
            r@.sql == T::delete_text(),
            r@.params == seq![SqlValueView::Integer(id)],
            bindable(r@.params),
    {
        let mut params: Vec<SqlValue> = Vec::new();
        params.push(SqlValue::Integer(id));
        let r = Statement { sql: T::delete_sql(), params };
        assert(r@.params =~= seq![SqlValueView::Integer(id)]);
        r
    }
}

/// The rows of a listing as plain values.
pub open spec fn row_views(rows: Seq<Vec<SqlValue>>) -> Seq<Seq<SqlValueView>> {
    rows.map_values(|row: Vec<SqlValue>| views(row@))
}

/// The view of what a listing was read as.
pub open spec fn listing_view<T: View>(r: Result<Vec<T>, RowError>) -> Result<
    Seq<T::V>,
    RowError,
> {
    match r {
        Ok(items) => Ok(views(items@)),
        Err(e) => Err(e),
    }
}

/// Whether `outcome` is what the rows of a listing are read as: one record for
/// each row, in the order of the rows, none left out and none added; or, where
/// a row stands for no record, the error of the first such row.
pub open spec fn reads_as<T: Persistable>(
    rows: Seq<Seq<SqlValueView>>,
    outcome: Result<Seq<T::V>, RowError>,
) -> bool {
    match outcome {
        Ok(items) => {
            &&& items.len() == rows.len()
            &&& forall|i: int|
                0 <= i < rows.len() ==> T::decoded(#[trigger] rows[i]) == Ok::<T::V, RowError>(
                    items[i],
                )
        },
        Err(e) => exists|k: int|
            {
                &&& 0 <= k < rows.len()
                &&& T::decoded(#[trigger] rows[k]) == Err::<T::V, RowError>(e)
                &&& forall|j: int| 0 <= j < k ==> T::decoded(#[trigger] rows[j]) is Ok
            },
    }
}

/// Reads the rows of a listing as records, in the order of the rows. The first
/// row that stands for no record ends the reading with its error.
pub fn decode_rows<T: Persistable>(rows: &Vec<Vec<SqlValue>>) -> (r: Result<Vec<T>, RowError>)
    ensures
        reads_as::<T>(row_views(rows@), listing_view(r)),
{
    let ghost listed = row_views(rows@);
    let mut items: Vec<T> = Vec::new();
    let mut i: usize = 0;
    while i < rows.len()
        invariant
            i <= rows@.len(),
            listed == row_views(rows@),
            items@.len() == i,
            forall|j: int|
                0 <= j < i ==> T::decoded(#[trigger] listed[j]) == Ok::<T::V, RowError>(
                    items@[j]@,
                ),
        decreases rows@.len() - i,
    {
        assert(listed[i as int] == views(rows@[i as int]@));
        match T::from_row(&rows[i]) {
            Ok(item) => {
                items.push(item);
            },
            Err(e) => {
                assert(T::decoded(listed[i as int]) == Err::<T::V, RowError>(e));
                return Err(e);
            },
        }
        i += 1;
    }
    assert(views(items@).len() == listed.len());
    assert forall|j: int| 0 <= j < listed.len() implies T::decoded(#[trigger] listed[j]) == Ok::<
        T::V,
        RowError,
    >(views(items@)[j]) by {
        assert(views(items@)[j] == items@[j]@);
    }
    Ok(items)
}

/// One task of the list.
#[derive(Debug, Clone, PartialEq, Eq)]
pub struct Task {
    /// The identity that the store gave the task; `None` until it is stored.
    pub id: Option<i64>,
    pub title: String,
    pub description: Option<String>,
    pub completed: bool,
}

/// What a [`Task`] holds.
pub struct TaskView {
    pub id: Option<i64>,
    pub title: Seq<char>,
    pub description: Option<Seq<char>>,
    pub completed: bool,
}

impl View for Task {
    type V = TaskView;

    open spec fn view(&self) -> TaskView {
        TaskView {
            id: self.id,
            title: self.title@,
            description: self.description.deep_view(),
            completed: self.completed,
        }
    }
}

/// The value that stands for an optional identity.
pub open spec fn identity_value(id: Option<i64>) -> SqlValueView {
    match id {
        Some(i) => SqlValueView::Integer(i),
        None => SqlValueView::Null,
    }
}

/// The value that stands for an optional text.
pub open spec fn optional_text_value(text: Option<Seq<char>>) -> SqlValueView {
    match text {
        Some(s) => SqlValueView::Text(s),
        None => SqlValueView::Null,
    }
}

/// The value that stands for a flag: 1 for true, 0 for false.
pub open spec fn flag_value(flag: bool) -> SqlValueView {
    SqlValueView::Integer(
        if flag {
            1
        } else {
            0
        },
    )
}

/// The value of column `index`, or the error for a row that is too short.
pub open spec fn column(row: Seq<SqlValueView>, index: usize) -> Result<SqlValueView, RowError> {
    if index < row.len() {
        Ok(row[index as int])
    } else {
        Err(RowError::InvalidColumnIndex(index))
    }
}

/// Column `index` read as an optional integer: NULL is none, an integer is
/// itself.
pub open spec fn optional_integer_at(row: Seq<SqlValueView>, index: usize) -> Result<
    Option<i64>,
    RowError,
> {
    match column(row, index) {
        Err(e) => Err(e),
        Ok(SqlValueView::Null) => Ok(None),
        Ok(SqlValueView::Integer(i)) => Ok(Some(i)),
        Ok(_) => Err(RowError::InvalidColumnType(index)),
    }
}

/// Column `index` read as a text.
pub open spec fn text_at(row: Seq<SqlValueView>, index: usize) -> Result<Seq<char>, RowError> {
    match column(row, index) {
        Err(e) => Err(e),
        Ok(SqlValueView::Text(s)) => Ok(s),
        Ok(_) => Err(RowError::InvalidColumnType(index)),
    }
}

/// Column `index` read as an optional text: NULL is none, a text is itself.
pub open spec fn optional_text_at(row: Seq<SqlValueView>, index: usize) -> Result<
    Option<Seq<char>>,
    RowError,
> {
    match column(row, index) {
        Err(e) => Err(e),
        Ok(SqlValueView::Null) => Ok(None),
        Ok(SqlValueView::Text(s)) => Ok(Some(s)),
        Ok(_) => Err(RowError::InvalidColumnType(index)),
    }
}

/// Column `index` read as a flag: an integer, true unless it is 0.
pub open spec fn flag_at(row: Seq<SqlValueView>, index: usize) -> Result<bool, RowError> {
    match column(row, index) {
        Err(e) => Err(e),
        Ok(SqlValueView::Integer(i)) => Ok(i != 0),
        Ok(_) => Err(RowError::InvalidColumnType(index)),
    }
}

/// The task that a row `id, title, description, completed` stands for. The
/// columns are read in that order, and the first that cannot be read gives the
/// error.
pub open spec fn decoded_task(row: Seq<SqlValueView>) -> Result<TaskView, RowError> {
    match optional_integer_at(row, 0) {
        Err(e) => Err(e),
        Ok(id) => match text_at(row, 1) {
            Err(e) => Err(e),
            Ok(title) => match optional_text_at(row, 2) {
                Err(e) => Err(e),
                Ok(description) => match flag_at(row, 3) {
                    Err(e) => Err(e),
                    Ok(completed) => Ok(TaskView { id, title, description, completed }),
                },
            },
        },
    }
}

/// The row under which the store lists `task`.
pub open spec fn stored_row(task: TaskView) -> Seq<SqlValueView> {
    seq![
        identity_value(task.id),
        SqlValueView::Text(task.title),
        optional_text_value(task.description),
        flag_value(task.completed),
    ]
}

/// Reading the row under which a task is listed gives the task back; and the
/// row is the identity followed by the values that the insert statement
/// binds, so what is saved is what is read, under the identity that the store
/// gave it.
pub proof fn lemma_task_round_trip(task: TaskView)
    ensures
        decoded_task(stored_row(task)) == Ok::<TaskView, RowError>(task),
        stored_row(task) == seq![identity_value(task.id)] + <Task as Persistable>::insert_values(
            task,
        ),
{
    let row = stored_row(task);
    assert(row.len() == 4);
    assert(row =~= seq![identity_value(task.id)] + <Task as Persistable>::insert_values(task));
}

/// The rows under which the store lists `tasks`, in their order.
pub open spec fn stored_rows(tasks: Seq<TaskView>) -> Seq<Seq<SqlValueView>> {
    tasks.map_values(|task: TaskView| stored_row(task))
}

/// Whatever tasks the store lists and in whatever order, reading its rows
/// gives exactly those tasks in that order: none is missing, added, repeated
/// or moved, and no listing of tasks fails to be read. So the tasks come out
/// newest first exactly if the store lists them so.
pub proof fn lemma_listing_round_trip(
    tasks: Seq<TaskView>,
    outcome: Result<Seq<TaskView>, RowError>,
)
    requires
        reads_as::<Task>(stored_rows(tasks), outcome),
    ensures
        outcome == Ok::<Seq<TaskView>, RowError>(tasks),
{
    let rows = stored_rows(tasks);
    assert forall|i: int| 0 <= i < rows.len() implies <Task as Persistable>::decoded(
        #[trigger] rows[i],
    ) == Ok::<TaskView, RowError>(tasks[i]) by {
        lemma_task_round_trip(tasks[i]);
    }
    match outcome {
        Ok(items) => {
            assert(rows.len() == tasks.len());
            assert forall|i: int| 0 <= i < items.len() implies items[i] == tasks[i] by {
                assert(<Task as Persistable>::decoded(rows[i]) == Ok::<TaskView, RowError>(
                    items[i],
                ));
            }
            assert(items =~= tasks);
        },
        Err(e) => {
            let k = choose|k: int|
                {
                    &&& 0 <= k < rows.len()
                    &&& <Task as Persistable>::decoded(#[trigger] rows[k]) == Err::<
                        TaskView,
                        RowError,
                    >(e)
                };
            assert(<Task as Persistable>::decoded(rows[k]) is Ok);
        },
    }
}

fn optional_integer(row: &Vec<SqlValue>, index: usize) -> (r: Result<Option<i64>, RowError>)
    ensures
        r == optional_integer_at(views(row@), index),
{
    if index < row.len() {
        match &row[index] {
            SqlValue::Null => Ok(None),
            SqlValue::Integer(i) => Ok(Some(*i)),
            _ => Err(RowError::InvalidColumnType(index)),
        }
    } else {
        Err(RowError::InvalidColumnIndex(index))
    }
}

fn text(row: &Vec<SqlValue>, index: usize) -> (r: Result<String, RowError>)
    ensures
        match r {
            Ok(s) => text_at(views(row@), index) == Ok::<Seq<char>, RowError>(s@),
            Err(e) => text_at(views(row@), index) == Err::<Seq<char>, RowError>(e),
        },
{
    if index < row.len() {
        match &row[index] {
            SqlValue::Text(s) => Ok(s.clone()),
            _ => Err(RowError::InvalidColumnType(index)),
        }
    } else {
        Err(RowError::InvalidColumnIndex(index))
    }
}

fn optional_text(row: &Vec<SqlValue>, index: usize) -> (r: Result<Option<String>, RowError>)
    ensures
        match r {
            Ok(s) => optional_text_at(views(row@), index) == Ok::<Option<Seq<char>>, RowError>(
                s.deep_view(),
            ),
            Err(e) => optional_text_at(views(row@), index) == Err::<Option<Seq<char>>, RowError>(e),
        },
{
    if index < row.len() {
        match &row[index] {
            SqlValue::Null => Ok(None),
            SqlValue::Text(s) => Ok(Some(s.clone())),
            _ => Err(RowError::InvalidColumnType(index)),
        }
    } else {
        Err(RowError::InvalidColumnIndex(index))
    }
}

fn flag(row: &Vec<SqlValue>, index: usize) -> (r: Result<bool, RowError>)
    ensures
        r == flag_at(views(row@), index),
{
    if index < row.len() {
        match &row[index] {
            SqlValue::Integer(i) => Ok(*i != 0),
            _ => Err(RowError::InvalidColumnType(index)),
        }
    } else {
        Err(RowError::InvalidColumnIndex(index))
    }
}

impl Task {
    fn identity(&self) -> (r: SqlValue)
        ensures
            r@ == identity_value(self.id),
    {
        match self.id {
            Some(i) => SqlValue::Integer(i),
            None => SqlValue::Null,
        }
    }

    fn fields(&self) -> (values: Vec<SqlValue>)
        ensures
            views(values@) == seq![
                SqlValueView::Text(self@.title),
                optional_text_value(self@.description),
                flag_value(self@.completed),
            ],
    {
        let mut values: Vec<SqlValue> = Vec::new();
        values.push(SqlValue::Text(self.title.clone()));
        values.push(
            match &self.description {
                Some(s) => SqlValue::Text(s.clone()),
                None => SqlValue::Null,
            },
        );
        values.push(
            SqlValue::Integer(
                if self.completed {
                    1
                } else {
                    0
                },
            ),
        );
        assert(views(values@) =~= seq![
            SqlValueView::Text(self@.title),
            optional_text_value(self@.description),
            flag_value(self@.completed),
        ]);
        values
    }
}

impl Persistable for Task {
    open spec fn insert_text() -> Seq<char> {
        INSERT_TASK_SQL@
    }

    open spec fn insert_values(record: TaskView) -> Seq<SqlValueView> {
        seq![
            SqlValueView::Text(record.title),
            optional_text_value(record.description),
            flag_value(record.completed),
        ]
    }

    open spec fn update_text() -> Seq<char> {
        UPDATE_TASK_SQL@
    }

    open spec fn update_values(record: TaskView) -> Seq<SqlValueView> {
        seq![
            SqlValueView::Text(record.title),
            optional_text_value(record.description),
            flag_value(record.completed),
            identity_value(record.id),
        ]
    }

    open spec fn get_all_text() -> Seq<char> {
        SELECT_TASKS_SQL@
    }

    open spec fn delete_text() -> Seq<char> {
        DELETE_TASK_SQL@
    }

    open spec fn decoded(row: Seq<SqlValueView>) -> Result<TaskView, RowError> {
        decoded_task(row)
    }

    fn insert_sql(&self) -> (sql: String) {
        String::from_str(INSERT_TASK_SQL)
    }

    fn params(&self) -> (values: Vec<SqlValue>) {
        self.fields()
    }

    fn update_sql() -> (sql: String) {
        String::from_str(UPDATE_TASK_SQL)
    }

    fn update_params(&self) -> (values: Vec<SqlValue>) {
        let mut values = self.fields();
        let ghost before = values@;
        values.push(self.identity());
        proof {
            let all = views(values@);
            assert(views(before).len() == 3);
            assert(all.len() == 4);
            assert forall|i: int| 0 <= i < 3 implies all[i] == views(before)[i] by {
                assert(values@[i] == before[i]);
            }
            assert(all =~= Self::update_values(self@));
        }
        values
    }

    fn get_all_sql() -> (sql: String) {
        String::from_str(SELECT_TASKS_SQL)
    }

    fn delete_sql() -> (sql: String) {
        String::from_str(DELETE_TASK_SQL)
    }

    fn from_row(row: &Vec<SqlValue>) -> (r: Result<Self, RowError>) {
        let id = match optional_integer(row, 0) {
            Ok(id) => id,
            Err(e) => { return Err(e); },
        };
        let title = match text(row, 1) {
            Ok(title) => title,
            Err(e) => { return Err(e); },
        };
        let description = match optional_text(row, 2) {
            Ok(description) => description,
            Err(e) => { return Err(e); },
        };
        let completed = match flag(row, 3) {
            Ok(completed) => completed,
            Err(e) => { return Err(e); },
        };
        Ok(Task { id, title, description, completed })
    }
}

/// Where the data directory lies below `HOME` unless `XDG_DATA_HOME` names
/// another one.
pub const DEFAULT_DATA_HOME: &'static str = "/.local/share";

/// A variable of the environment that the data directory depends on and that
/// is not set.
#[derive(Debug, Clone, Copy, PartialEq, Eq, Structural)]
pub enum MissingVariable {
    AppData,
    Home,
}

/// The user's data directory: on Windows what `APPDATA` names; elsewhere what
/// `XDG_DATA_HOME` names or, where that is not set, `.local/share` below
/// `HOME`, which has to be set in either case.
pub open spec fn data_directory_of(
    windows: bool,
    appdata: Option<Seq<char>>,
    home: Option<Seq<char>>,
    xdg_data_home: Option<Seq<char>>,
) -> Result<Seq<char>, MissingVariable> {
    if windows {
        match appdata {
            Some(dir) => Ok(dir),
            None => Err(MissingVariable::AppData),
        }
    } else {
        match home {
            None => Err(MissingVariable::Home),
            Some(home) => Ok(
                match xdg_data_home {
                    Some(dir) => dir,
                    None => home + DEFAULT_DATA_HOME@,
                },
            ),
        }
    }
}

/// The user's data directory, from the values of the environment variables
/// `APPDATA`, `HOME` and `XDG_DATA_HOME` (`None` for one that is not set). The
/// database is the file [`DATABASE_FILE`] in the directory [`APP_DIRECTORY`]
/// below it.
pub fn data_directory(
    windows: bool,
    appdata: Option<String>,
    home: Option<String>,
    xdg_data_home: Option<String>,
) -> (r: Result<String, MissingVariable>)
    ensures
        match r {
            Ok(dir) => data_directory_of(
                windows,
                appdata.deep_view(),
                home.deep_view(),
                xdg_data_home.deep_view(),
            ) == Ok::<Seq<char>, MissingVariable>(dir@),
            Err(e) => data_directory_of(
                windows,
                appdata.deep_view(),
                home.deep_view(),
                xdg_data_home.deep_view(),
            ) == Err::<Seq<char>, MissingVariable>(e),
        },
{
    if windows {
        match appdata {
            Some(dir) => Ok(dir),
            None => Err(MissingVariable::AppData),
        }
    } else {
        match home {
            None => Err(MissingVariable::Home),
            Some(home) => Ok(
                match xdg_data_home {
                    Some(dir) => dir,
                    None => home.concat(DEFAULT_DATA_HOME),
                },
            ),
        }
    }
}

} // verus!
