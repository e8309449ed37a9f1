use rusqlite::types::Value;
use rusqlite::{params_from_iter, Connection};
use todo::persistence::persistence::{
    data_directory, decode_rows, MissingVariable, Persistable, RowError, SqlValue, Statement,
    Task, APP_DIRECTORY, DATABASE_FILE,
};
use todo::screens::tasks::{TasksMode, TasksScreen};
use todo::ui::screen::{Key, ScreenAction, StoreRequest};

fn new_task(title: &str) -> Task {
    Task { id: None, title: title.to_string(), description: None, completed: false }
}

fn bound(value: &SqlValue) -> Value {
    match value {
        SqlValue::Null => Value::Null,
        SqlValue::Integer(i) => Value::Integer(*i),
        SqlValue::Text(s) => Value::Text(s.clone()),
        SqlValue::Other => panic!("no statement binds a value of an unknown storage class"),
    }
}

fn read(value: Value) -> SqlValue {
    match value {
        Value::Null => SqlValue::Null,
        Value::Integer(i) => SqlValue::Integer(i),
        Value::Text(s) => SqlValue::Text(s),
        _ => SqlValue::Other,
    }
}

fn execute(conn: &Connection, statement: &Statement) -> usize {
    conn.execute(&statement.sql, params_from_iter(statement.params.iter().map(bound)))
        .expect("the statement runs")
}

fn query(conn: &Connection, statement: &Statement) -> Vec<Vec<SqlValue>> {
    let mut prepared = conn.prepare(&statement.sql).expect("the statement is valid");
    let columns = prepared.column_count();
    let rows = prepared
        .query_map(params_from_iter(statement.params.iter().map(bound)), |row| {
            let mut values = Vec::new();
            for i in 0..columns {
                values.push(read(row.get::<usize, Value>(i)?));
            }
            Ok(values)
        })
        .expect("the query runs");
    rows.map(|row| row.expect("the row is read")).collect()
}

fn fresh_store() -> Connection {
    let conn = Connection::open_in_memory().expect("an in-memory database opens");
    execute(&conn, &Statement::schema());
    conn
}

fn get_all(conn: &Connection) -> Vec<Task> {
    decode_rows::<Task>(&query(conn, &Statement::select_all::<Task>())).expect("rows are tasks")
}

#[test]
fn task_statements_have_the_fixed_texts() {
    let t = new_task("A");
    assert_eq!(
        t.insert_sql(),
        "INSERT INTO tasks (title, description, completed) VALUES (?1, ?2, ?3)"
    );
    assert_eq!(
        Task::update_sql(),
        "UPDATE tasks SET title = ?1, description = ?2, completed = ?3 WHERE id = ?4"
    );
    assert_eq!(
        Task::get_all_sql(),
        "SELECT id, title, description, completed FROM tasks ORDER BY id DESC"
    );
    assert_eq!(Task::delete_sql(), "DELETE FROM tasks WHERE id = ?1");
}

#[test]
fn task_params_are_title_description_completed() {
    let t = Task {
        id: Some(5),
        title: "A".to_string(),
        description: Some("d".to_string()),
        completed: true,
    };
    assert_eq!(
        t.params(),
        vec![SqlValue::Text("A".to_string()), SqlValue::Text("d".to_string()), SqlValue::Integer(1)]
    );
    assert_eq!(
        t.update_params(),
        vec![
            SqlValue::Text("A".to_string()),
            SqlValue::Text("d".to_string()),
            SqlValue::Integer(1),
            SqlValue::Integer(5)
        ]
    );
    let t = new_task("B");
    assert_eq!(
        t.params(),
        vec![SqlValue::Text("B".to_string()), SqlValue::Null, SqlValue::Integer(0)]
    );
    assert_eq!(
        t.update_params(),
        vec![SqlValue::Text("B".to_string()), SqlValue::Null, SqlValue::Integer(0), SqlValue::Null]
    );
}

#[test]
fn statements_pair_text_and_parameters() {
    let t = new_task("A");
    assert_eq!(Statement::insert(&t), Statement { sql: t.insert_sql(), params: t.params() });
    assert_eq!(
        Statement::update(&t),
        Statement { sql: Task::update_sql(), params: t.update_params() }
    );
    assert_eq!(
        Statement::delete::<Task>(42),
        Statement { sql: Task::delete_sql(), params: vec![SqlValue::Integer(42)] }
    );
    assert_eq!(
        Statement::select_all::<Task>(),
        Statement { sql: Task::get_all_sql(), params: vec![] }
    );
    let schema = Statement::schema();
    assert!(schema.sql.starts_with("CREATE TABLE IF NOT EXISTS tasks"));
    assert!(schema.params.is_empty());
}

#[test]
fn from_row_reads_a_task() {
    let row = vec![
        SqlValue::Integer(7),
        SqlValue::Text("Buy milk".to_string()),
        SqlValue::Text("two litres".to_string()),
        SqlValue::Integer(1),
    ];
    assert_eq!(
        Task::from_row(&row),
        Ok(Task {
            id: Some(7),
            title: "Buy milk".to_string(),
            description: Some("two litres".to_string()),
            completed: true,
        })
    );
    let row = vec![
        SqlValue::Null,
        SqlValue::Text(String::new()),
        SqlValue::Null,
        SqlValue::Integer(0),
        SqlValue::Other,
    ];
    assert_eq!(
        Task::from_row(&row),
        Ok(Task { id: None, title: String::new(), description: None, completed: false })
    );
}

#[test]
fn from_row_reads_any_integer_but_zero_as_completed() {
    for (stored, completed) in [(0, false), (1, true), (2, true), (-1, true), (i64::MIN, true)] {
        let row = vec![
            SqlValue::Integer(1),
            SqlValue::Text("t".to_string()),
            SqlValue::Null,
            SqlValue::Integer(stored),
        ];
        assert_eq!(Task::from_row(&row).unwrap().completed, completed);
    }
}

#[test]
fn from_row_reports_a_missing_column() {
    let full = vec![
        SqlValue::Integer(1),
        SqlValue::Text("t".to_string()),
        SqlValue::Null,
        SqlValue::Integer(0),
    ];
    for len in 0..4 {
        assert_eq!(
            Task::from_row(&full[..len].to_vec()),
            Err(RowError::InvalidColumnIndex(len))
        );
    }
}

#[test]
fn from_row_reports_the_first_column_of_the_wrong_type() {
    let good = vec![
        SqlValue::Integer(1),
        SqlValue::Text("t".to_string()),
        SqlValue::Null,
        SqlValue::Integer(0),
    ];
    let bad = [
        (0, SqlValue::Text("1".to_string())),
        (0, SqlValue::Other),
        (1, SqlValue::Null),
        (1, SqlValue::Integer(3)),
        (2, SqlValue::Integer(3)),
        (2, SqlValue::Other),
        (3, SqlValue::Null),
        (3, SqlValue::Text("true".to_string())),
    ];
    for (index, value) in bad {
        let mut row = good.clone();
        row[index] = value;
        assert_eq!(Task::from_row(&row), Err(RowError::InvalidColumnType(index)));
    }
    let row = vec![SqlValue::Other, SqlValue::Other, SqlValue::Other];
    assert_eq!(Task::from_row(&row), Err(RowError::InvalidColumnType(0)));
    let row = vec![SqlValue::Null, SqlValue::Text("t".to_string()), SqlValue::Other];
    assert_eq!(Task::from_row(&row), Err(RowError::InvalidColumnType(2)));
}

#[test]
fn a_task_survives_its_own_row() {
    for t in [
        Task { id: Some(3), title: "A".to_string(), description: None, completed: false },
        Task {
            id: None,
            title: "B".to_string(),
            description: Some("d".to_string()),
            completed: true,
        },
    ] {
        let mut row = vec![match t.id {
            Some(i) => SqlValue::Integer(i),
            None => SqlValue::Null,
        }];
        row.extend(t.params());
        assert_eq!(Task::from_row(&row), Ok(t));
    }
}

#[test]
fn decode_rows_keeps_the_order_of_the_rows() {
    let rows = vec![
        vec![
            SqlValue::Integer(2),
            SqlValue::Text("B".to_string()),
            SqlValue::Null,
            SqlValue::Integer(0),
        ],
        vec![
            SqlValue::Integer(1),
            SqlValue::Text("A".to_string()),
            SqlValue::Null,
            SqlValue::Integer(1),
        ],
    ];
    assert_eq!(
        decode_rows::<Task>(&rows),
        Ok(vec![
            Task { id: Some(2), title: "B".to_string(), description: None, completed: false },
            Task { id: Some(1), title: "A".to_string(), description: None, completed: true },
        ])
    );
    assert_eq!(decode_rows::<Task>(&Vec::new()), Ok(Vec::new()));
}

#[test]
fn decode_rows_stops_at_the_first_bad_row() {
    let good = vec![
        SqlValue::Integer(2),
        SqlValue::Text("B".to_string()),
        SqlValue::Null,
        SqlValue::Integer(0),
    ];
    let rows = vec![
        good.clone(),
        vec![SqlValue::Integer(1), SqlValue::Null],
        vec![SqlValue::Other],
        good,
    ];
    assert_eq!(decode_rows::<Task>(&rows), Err(RowError::InvalidColumnType(1)));
}

#[test]
fn data_directory_on_windows_is_appdata() {
    assert_eq!(
        data_directory(true, Some("C:\\Users\\u\\AppData\\Roaming".to_string()), None, None),
        Ok("C:\\Users\\u\\AppData\\Roaming".to_string())
    );
    assert_eq!(
        data_directory(true, None, Some("/home/u".to_string()), Some("/data".to_string())),
        Err(MissingVariable::AppData)
    );
}

#[test]
fn data_directory_elsewhere_prefers_xdg_data_home() {
    assert_eq!(
        data_directory(false, None, Some("/home/u".to_string()), Some("/data".to_string())),
        Ok("/data".to_string())
    );
    assert_eq!(
        data_directory(false, None, Some("/home/u".to_string()), None),
        Ok("/home/u/.local/share".to_string())
    );
    assert_eq!(
        data_directory(false, Some("C:\\x".to_string()), Some(String::new()), None),
        Ok("/.local/share".to_string())
    );
}

#[test]
fn data_directory_elsewhere_needs_home_in_any_case() {
    assert_eq!(
        data_directory(false, None, None, Some("/data".to_string())),
        Err(MissingVariable::Home)
    );
    assert_eq!(data_directory(false, None, None, None), Err(MissingVariable::Home));
}

#[test]
fn database_file_and_directory_names() {
    assert_eq!(APP_DIRECTORY, "todo");
    assert_eq!(DATABASE_FILE, "tasks.db");
}

#[test]
fn scenario_fresh_store_add_buy_milk() {
    let conn = fresh_store();
    assert_eq!(get_all(&conn), Vec::new());
    assert_eq!(execute(&conn, &Statement::insert(&new_task("Buy milk"))), 1);
    let all = get_all(&conn);
    assert_eq!(all.len(), 1);
    assert_eq!(all[0].title, "Buy milk");
    assert!(!all[0].completed);
    assert_eq!(all[0].description, None);
    assert!(all[0].id.is_some());
}

#[test]
fn scenario_two_tasks_are_listed_newest_first() {
    let conn = fresh_store();
    execute(&conn, &Statement::insert(&new_task("A")));
    execute(&conn, &Statement::insert(&new_task("B")));
    let titles: Vec<String> = get_all(&conn).into_iter().map(|t| t.title).collect();
    assert_eq!(titles, vec!["B".to_string(), "A".to_string()]);
}

#[test]
fn added_tasks_are_all_listed_newest_first() {
    let conn = fresh_store();
    let mut added: Vec<Task> = Vec::new();
    for i in 0..12 {
        let t = Task {
            id: None,
            title: format!("task {}", i),
            description: if i % 3 == 0 { None } else { Some(format!("about {}", i)) },
            completed: i % 2 == 1,
        };
        execute(&conn, &Statement::insert(&t));
        added.push(t);
        let all = get_all(&conn);
        assert_eq!(all.len(), added.len());
        for (listed, original) in all.iter().zip(added.iter().rev()) {
            assert_eq!(listed.title, original.title);
            assert_eq!(listed.description, original.description);
            assert_eq!(listed.completed, original.completed);
        }
        for pair in all.windows(2) {
            assert!(pair[0].id.unwrap() > pair[1].id.unwrap());
        }
    }
}

#[test]
fn the_schema_can_be_created_again() {
    let conn = fresh_store();
    execute(&conn, &Statement::insert(&new_task("A")));
    execute(&conn, &Statement::schema());
    execute(&conn, &Statement::schema());
    assert_eq!(get_all(&conn).len(), 1);
}

#[test]
fn delete_removes_the_record_with_the_identity() {
    let conn = fresh_store();
    for title in ["A", "B", "C"] {
        execute(&conn, &Statement::insert(&new_task(title)));
    }
    let all = get_all(&conn);
    let b = all[1].id.unwrap();
    assert_eq!(execute(&conn, &Statement::delete::<Task>(b)), 1);
    let titles: Vec<String> = get_all(&conn).into_iter().map(|t| t.title).collect();
    assert_eq!(titles, vec!["C".to_string(), "A".to_string()]);
}

#[test]
fn delete_of_an_unknown_identity_changes_nothing() {
    let conn = fresh_store();
    execute(&conn, &Statement::insert(&new_task("A")));
    assert_eq!(execute(&conn, &Statement::delete::<Task>(12345)), 0);
    assert_eq!(get_all(&conn).len(), 1);
}

#[test]
fn update_overwrites_the_stored_record() {
    let conn = fresh_store();
    execute(&conn, &Statement::insert(&new_task("A")));
    execute(&conn, &Statement::insert(&new_task("B")));
    let mut a = get_all(&conn).pop().unwrap();
    assert_eq!(a.title, "A");
    a.title = "A, done".to_string();
    a.description = Some("finally".to_string());
    a.completed = true;
    assert_eq!(execute(&conn, &Statement::update(&a)), 1);
    let all = get_all(&conn);
    assert_eq!(all.len(), 2);
    assert_eq!(all[1], a);
    assert_eq!(all[0].title, "B");
}

#[test]
fn scenario_keys_to_store() {
    let conn = fresh_store();
    let mut screen = TasksScreen::new(get_all(&conn));
    let mut requests = 0;
    for key in [Key::Char('a'), Key::Char('X'), Key::Tab, Key::Char('Y'), Key::Enter] {
        if let Some(ScreenAction::Store(request)) = screen.handle_input(key) {
            requests += 1;
            match &request {
                StoreRequest::Save(task) => {
                    execute(&conn, &Statement::insert(task));
                }
                StoreRequest::Delete(id) => {
                    execute(&conn, &Statement::delete::<Task>(*id));
                }
                StoreRequest::Reload => {}
            }
            screen.complete(&request, get_all(&conn));
        }
    }
    assert_eq!(requests, 1);
    assert_eq!(screen.mode, TasksMode::View);
    let all = get_all(&conn);
    assert_eq!(all.len(), 1);
    assert_eq!(all[0].title, "X");
    assert_eq!(all[0].description, Some("Y".to_string()));
    assert!(!all[0].completed);
    assert_eq!(screen.tasks, all);
}
