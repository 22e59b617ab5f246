use datum::codec::{CellData, CellValue, RawCell, RawRow};
use datum::error::{DbError, ErrorKind};
use datum::names::NameMap;
use datum::operation::{
    delete_record, get_fields_from_table, get_foreign_key_values, get_table_columns,
    get_table_content, get_table_names, insert_record, update_record, Action, Event, Operation,
    Phase, Reply, Request,
};
use datum::query::{BindParam, Statement};
use datum::schema::{ForeignKeyInfo, ForeignKeyValue, ForeignKeys};
use datum::value::{JsonNumber, JsonValue, Record};

const COLUMNS_SQL: &str = "SELECT COLUMN_NAME FROM INFORMATION_SCHEMA.COLUMNS WHERE TABLE_SCHEMA = DATABASE() AND TABLE_NAME = ? ORDER BY ORDINAL_POSITION";
const KEYS_SQL: &str = "SELECT kcu.COLUMN_NAME, kcu.REFERENCED_TABLE_NAME, kcu.REFERENCED_COLUMN_NAME FROM information_schema.KEY_COLUMN_USAGE AS kcu WHERE kcu.TABLE_SCHEMA = DATABASE() AND kcu.TABLE_NAME = ? AND kcu.REFERENCED_TABLE_NAME IS NOT NULL";
const UNEXPECTED: &str = "event does not answer the pending statement";

fn text_cell(name: &str, value: &str) -> RawCell {
    RawCell {
        name: name.to_string(),
        declared_type: "VARCHAR".to_string(),
        data: CellData::Value(CellValue::Text(value.to_string())),
    }
}

fn int_cell(name: &str, value: i64) -> RawCell {
    RawCell {
        name: name.to_string(),
        declared_type: "INT".to_string(),
        data: CellData::Value(CellValue::Integer(value)),
    }
}

fn names(column: &str, values: &[&str]) -> Event {
    Event::Rows(values.iter().map(|v| vec![text_cell(column, v)]).collect())
}

fn constraint_row(column: &str, table: &str, referenced: &str) -> RawRow {
    vec![
        text_cell("COLUMN_NAME", column),
        text_cell("REFERENCED_TABLE_NAME", table),
        text_cell("REFERENCED_COLUMN_NAME", referenced),
    ]
}

fn show_tables() -> Action {
    Action::Fetch(Statement { sql: "SHOW TABLES".to_string(), params: vec![] })
}

fn ask_columns(table: &str) -> Action {
    Action::Fetch(Statement {
        sql: COLUMNS_SQL.to_string(),
        params: vec![BindParam::Text(table.to_string())],
    })
}

fn ask_keys(table: &str) -> Action {
    Action::Fetch(Statement {
        sql: KEYS_SQL.to_string(),
        params: vec![BindParam::Text(table.to_string())],
    })
}

fn ann() -> Record {
    let mut record: Record = NameMap::new();
    record.insert("name".to_string(), JsonValue::String("Ann".to_string()));
    record.insert("age".to_string(), JsonValue::Number(JsonNumber::PosInt(30)));
    record
}

fn key(column: &str, table: &str, referenced: &str, descriptive: &str) -> ForeignKeyInfo {
    ForeignKeyInfo {
        column_name: column.to_string(),
        referenced_table: table.to_string(),
        referenced_column: referenced.to_string(),
        descriptive_column: descriptive.to_string(),
        join_alias: format!("{}__{}", column, descriptive),
    }
}

#[test]
fn nothing_is_sent_without_a_connection() {
    let (op, action) = get_table_names(false);
    assert_eq!(action, Action::Fail(DbError::NotConnected));
    assert_eq!(op.phase, Phase::Finished);
    let (_, action) = insert_record("users".to_string(), ann(), false);
    assert_eq!(action, Action::Fail(DbError::NotConnected));
    let (_, action) = get_table_content("users".to_string(), false);
    assert_eq!(action, Action::Fail(DbError::NotConnected));
    // a missing connection is reported before an empty record
    let (_, action) = insert_record("users".to_string(), NameMap::new(), false);
    assert_eq!(action, Action::Fail(DbError::NotConnected));
}

#[test]
fn table_names_are_listed_as_sent() {
    let (op, action) = get_table_names(true);
    assert_eq!(action, show_tables());
    assert_eq!(op.phase, Phase::Tables);
    let (op, action) = op.advance(names("Tables_in_shop", &["users", "posts", "Alpha"]));
    assert_eq!(
        action,
        Action::Finish(Reply::Names(vec![
            "users".to_string(),
            "posts".to_string(),
            "Alpha".to_string()
        ]))
    );
    assert_eq!(op.phase, Phase::Finished);
}

#[test]
fn empty_insert_is_refused_before_any_statement() {
    let (op, action) = insert_record("users".to_string(), NameMap::new(), true);
    assert_eq!(action, Action::Fail(DbError::EmptyInsert));
    assert_eq!(op.phase, Phase::Finished);
    match action {
        Action::Fail(error) => assert_eq!(error.kind(), ErrorKind::Validation),
        _ => unreachable!(),
    }
}

#[test]
fn empty_update_is_refused_before_any_statement() {
    let (op, action) = update_record(
        "users".to_string(),
        "17".to_string(),
        "id".to_string(),
        NameMap::new(),
        true,
    );
    assert_eq!(action, Action::Fail(DbError::EmptyUpdate));
    assert_eq!(op.phase, Phase::Finished);
    assert_eq!(DbError::EmptyUpdate.kind(), ErrorKind::Validation);
}

#[test]
fn injected_table_name_never_reaches_statement_text() {
    let hostile = "users; DROP TABLE users --";
    let (op, action) = insert_record(hostile.to_string(), ann(), true);
    // the only statement sent is the fixed one that lists the tables
    assert_eq!(action, show_tables());
    let (op, action) = op.advance(names("Tables_in_shop", &["users", "posts"]));
    assert_eq!(action, Action::Fail(DbError::UnknownTable(hostile.to_string())));
    assert_eq!(op.phase, Phase::Finished);
    match action {
        Action::Fail(error) => assert_eq!(error.kind(), ErrorKind::Validation),
        _ => unreachable!(),
    }
}

#[test]
fn insert_runs_after_both_checks() {
    let (op, action) = insert_record("users".to_string(), ann(), true);
    assert_eq!(action, show_tables());
    let (op, action) = op.advance(names("Tables_in_shop", &["posts", "users"]));
    assert_eq!(action, ask_columns("users"));
    assert_eq!(op.phase, Phase::Columns);
    let (op, action) = op.advance(names("COLUMN_NAME", &["id", "name", "age"]));
    assert_eq!(
        action,
        Action::Execute(Statement {
            sql: "INSERT INTO `users` (`name`, `age`) VALUES (?, ?)".to_string(),
            params: vec![BindParam::Text("Ann".to_string()), BindParam::Integer(30)],
        })
    );
    assert_eq!(op.phase, Phase::Execution);
    let (op, action) = op.advance(Event::Executed);
    assert_eq!(action, Action::Finish(Reply::Done));
    assert_eq!(op.phase, Phase::Finished);
}

#[test]
fn insert_of_unknown_column_is_refused() {
    let (op, _) = insert_record("users".to_string(), ann(), true);
    let (op, _) = op.advance(names("Tables_in_shop", &["users"]));
    let (op, action) = op.advance(names("COLUMN_NAME", &["id", "name"]));
    assert_eq!(action, Action::Fail(DbError::UnknownColumn("age".to_string())));
    assert_eq!(op.phase, Phase::Finished);
}

#[test]
fn insert_reports_what_the_database_refused() {
    let (op, _) = insert_record("users".to_string(), ann(), true);
    let (op, _) = op.advance(names("Tables_in_shop", &["users"]));
    let (op, _) = op.advance(names("COLUMN_NAME", &["id", "name", "age"]));
    let (op, action) = op.advance(Event::Failed("Duplicate entry 'Ann'".to_string()));
    assert_eq!(action, Action::Fail(DbError::Query("Duplicate entry 'Ann'".to_string())));
    assert_eq!(op.phase, Phase::Finished);
    match action {
        Action::Fail(error) => assert_eq!(error.kind(), ErrorKind::Query),
        _ => unreachable!(),
    }
}

#[test]
fn update_binds_the_identifier_last() {
    let (op, action) =
        update_record("users".to_string(), "17".to_string(), "id".to_string(), ann(), true);
    assert_eq!(action, show_tables());
    let (op, action) = op.advance(names("Tables_in_shop", &["users"]));
    assert_eq!(action, ask_columns("users"));
    let (op, action) = op.advance(names("COLUMN_NAME", &["id", "name", "age"]));
    assert_eq!(
        action,
        Action::Execute(Statement {
            sql: "UPDATE `users` SET `name` = ?, `age` = ? WHERE `id` = ?".to_string(),
            params: vec![
                BindParam::Text("Ann".to_string()),
                BindParam::Integer(30),
                BindParam::Text("17".to_string())
            ],
        })
    );
    let (_, action) = op.advance(Event::Executed);
    assert_eq!(action, Action::Finish(Reply::Done));
}

#[test]
fn update_checks_the_key_column() {
    let (op, _) =
        update_record("users".to_string(), "17".to_string(), "uid".to_string(), ann(), true);
    let (op, _) = op.advance(names("Tables_in_shop", &["users"]));
    let (_, action) = op.advance(names("COLUMN_NAME", &["id", "name", "age"]));
    assert_eq!(action, Action::Fail(DbError::UnknownColumn("uid".to_string())));
}

#[test]
fn delete_runs_after_both_checks() {
    let (op, action) = delete_record("users".to_string(), "17".to_string(), "id".to_string(), true);
    assert_eq!(action, show_tables());
    let (op, action) = op.advance(names("Tables_in_shop", &["users"]));
    assert_eq!(action, ask_columns("users"));
    let (op, action) = op.advance(names("COLUMN_NAME", &["id", "name"]));
    assert_eq!(
        action,
        Action::Execute(Statement {
            sql: "DELETE FROM `users` WHERE `id` = ?".to_string(),
            params: vec![BindParam::Text("17".to_string())],
        })
    );
    let (op, action) = op.advance(Event::Executed);
    assert_eq!(action, Action::Finish(Reply::Done));
    // a finished operation answers nothing more
    let (_, action) = op.advance(Event::Executed);
    assert_eq!(action, Action::Fail(DbError::Query(UNEXPECTED.to_string())));
}

#[test]
fn delete_of_unknown_table_or_column_is_refused() {
    let (op, _) = delete_record("ghosts".to_string(), "17".to_string(), "id".to_string(), true);
    let (_, action) = op.advance(names("Tables_in_shop", &["users"]));
    assert_eq!(action, Action::Fail(DbError::UnknownTable("ghosts".to_string())));
    let (op, _) = delete_record("users".to_string(), "17".to_string(), "uid".to_string(), true);
    let (op, _) = op.advance(names("Tables_in_shop", &["users"]));
    let (_, action) = op.advance(names("COLUMN_NAME", &["id", "name"]));
    assert_eq!(action, Action::Fail(DbError::UnknownColumn("uid".to_string())));
}

#[test]
fn fields_are_read_from_the_field_column() {
    let (op, action) = get_fields_from_table("users".to_string(), true);
    assert_eq!(action, show_tables());
    let (op, action) = op.advance(names("Tables_in_shop", &["users"]));
    assert_eq!(
        action,
        Action::Fetch(Statement { sql: "DESCRIBE `users`".to_string(), params: vec![] })
    );
    assert_eq!(op.phase, Phase::Rows);
    let rows: Vec<RawRow> = vec![
        vec![text_cell("Field", "id"), text_cell("Type", "int")],
        vec![text_cell("Type", "varchar(40)"), text_cell("Field", "name")],
    ];
    let (_, action) = op.advance(Event::Rows(rows));
    assert_eq!(action, Action::Finish(Reply::Names(vec!["id".to_string(), "name".to_string()])));
}

#[test]
fn table_is_described_with_resolved_keys() {
    let (op, action) = get_table_columns("posts".to_string(), true);
    assert_eq!(action, show_tables());
    let (op, action) = op.advance(names("Tables_in_shop", &["users", "posts", "tags"]));
    assert_eq!(action, ask_columns("posts"));
    let (op, action) = op.advance(names("COLUMN_NAME", &["id", "title", "owner_id", "tag_id"]));
    assert_eq!(action, ask_keys("posts"));
    assert_eq!(op.phase, Phase::Constraints);
    let (op, action) = op.advance(Event::Rows(vec![
        constraint_row("owner_id", "users", "id"),
        constraint_row("tag_id", "tags", "tid"),
    ]));
    assert_eq!(action, ask_columns("users"));
    assert_eq!(op.phase, Phase::Referenced);
    let (op, action) = op.advance(names("COLUMN_NAME", &["id", "login", "email"]));
    assert_eq!(action, ask_columns("tags"));
    // the lookup of the second table fails: its referenced column stands in
    let (op, action) = op.advance(Event::Failed("table is locked".to_string()));
    let mut foreign_keys: ForeignKeys = NameMap::new();
    foreign_keys.insert("owner_id".to_string(), key("owner_id", "users", "id", "login"));
    foreign_keys.insert("tag_id".to_string(), key("tag_id", "tags", "tid", "tid"));
    assert_eq!(
        action,
        Action::Finish(Reply::Description {
            columns: vec![
                "id".to_string(),
                "title".to_string(),
                "owner_id".to_string(),
                "tag_id".to_string()
            ],
            foreign_keys,
        })
    );
    assert_eq!(op.phase, Phase::Finished);
}

#[test]
fn table_without_keys_is_described_at_once() {
    let (op, _) = get_table_columns("users".to_string(), true);
    let (op, _) = op.advance(names("Tables_in_shop", &["users"]));
    let (op, action) = op.advance(names("COLUMN_NAME", &["id", "login"]));
    assert_eq!(action, ask_keys("users"));
    let (_, action) = op.advance(Event::Rows(vec![]));
    assert_eq!(
        action,
        Action::Finish(Reply::Description {
            columns: vec!["id".to_string(), "login".to_string()],
            foreign_keys: NameMap::new(),
        })
    );
}

#[test]
fn rows_come_with_foreign_keys_resolved() {
    let (op, action) = get_table_content("posts".to_string(), true);
    assert_eq!(action, show_tables());
    let (op, action) = op.advance(names("Tables_in_shop", &["users", "posts"]));
    assert_eq!(action, ask_keys("posts"));
    let (op, action) = op.advance(Event::Rows(vec![constraint_row("owner_id", "users", "id")]));
    assert_eq!(action, ask_columns("users"));
    let (op, action) = op.advance(names("COLUMN_NAME", &["id", "login", "email"]));
    assert_eq!(
        action,
        Action::Fetch(Statement {
            sql: "SELECT `main_table`.*, `jt0`.`login` AS `owner_id__login` FROM `posts` AS `main_table` LEFT JOIN `users` AS `jt0` ON `main_table`.`owner_id` = `jt0`.`id`".to_string(),
            params: vec![],
        })
    );
    assert_eq!(op.phase, Phase::Rows);
    let rows: Vec<RawRow> = vec![
        vec![
            int_cell("id", 1),
            text_cell("title", "Hello"),
            int_cell("owner_id", 7),
            text_cell("owner_id__login", "ann"),
        ],
        vec![
            int_cell("id", 2),
            text_cell("title", "Orphan"),
            RawCell {
                name: "owner_id".to_string(),
                declared_type: "INT".to_string(),
                data: CellData::Null,
            },
            RawCell {
                name: "owner_id__login".to_string(),
                declared_type: "VARCHAR".to_string(),
                data: CellData::Null,
            },
        ],
    ];
    let (op, action) = op.advance(Event::Rows(rows));
    assert_eq!(op.phase, Phase::Finished);
    let decoded = match action {
        Action::Finish(Reply::Rows(decoded)) => decoded,
        other => panic!("unexpected action {:?}", other),
    };
    assert_eq!(decoded.len(), 2);
    assert_eq!(decoded[0].get("owner_id"), Some(&JsonValue::Number(JsonNumber::PosInt(7))));
    assert_eq!(decoded[0].get("owner_id__login"), Some(&JsonValue::String("ann".to_string())));
    assert_eq!(decoded[0].get("title"), Some(&JsonValue::String("Hello".to_string())));
    // a null foreign key keeps its row and shows null
    assert_eq!(decoded[1].get("id"), Some(&JsonValue::Number(JsonNumber::PosInt(2))));
    assert_eq!(decoded[1].get("owner_id"), Some(&JsonValue::Null));
    assert_eq!(decoded[1].get("owner_id__login"), Some(&JsonValue::Null));
}

#[test]
fn rows_of_a_table_without_keys() {
    let (op, _) = get_table_content("users".to_string(), true);
    let (op, _) = op.advance(names("Tables_in_shop", &["users"]));
    let (op, action) = op.advance(Event::Rows(vec![]));
    assert_eq!(
        action,
        Action::Fetch(Statement {
            sql: "SELECT `main_table`.* FROM `users` AS `main_table` ".to_string(),
            params: vec![],
        })
    );
    let (_, action) = op.advance(Event::Rows(vec![]));
    assert_eq!(action, Action::Finish(Reply::Rows(vec![])));
}

#[test]
fn written_record_reads_back() {
    // what the insert binds ...
    let (op, _) = insert_record("people".to_string(), ann(), true);
    let (op, _) = op.advance(names("Tables_in_shop", &["people"]));
    let (_, action) = op.advance(names("COLUMN_NAME", &["name", "age"]));
    let params = match action {
        Action::Execute(statement) => statement.params,
        other => panic!("unexpected action {:?}", other),
    };
    assert_eq!(params, vec![BindParam::Text("Ann".to_string()), BindParam::Integer(30)]);
    // ... is what the cells of the stored row decode to
    let (op, _) = get_table_content("people".to_string(), true);
    let (op, _) = op.advance(names("Tables_in_shop", &["people"]));
    let (op, _) = op.advance(Event::Rows(vec![]));
    let (_, action) =
        op.advance(Event::Rows(vec![vec![text_cell("name", "Ann"), int_cell("age", 30)]]));
    let rows = match action {
        Action::Finish(Reply::Rows(rows)) => rows,
        other => panic!("unexpected action {:?}", other),
    };
    assert_eq!(rows.len(), 1);
    assert_eq!(rows[0].get("name"), Some(&JsonValue::String("Ann".to_string())));
    assert_eq!(rows[0].get("age"), Some(&JsonValue::Number(JsonNumber::PosInt(30))));
}

#[test]
fn one_bad_cell_fails_the_rows() {
    let (op, _) = get_table_content("users".to_string(), true);
    let (op, _) = op.advance(names("Tables_in_shop", &["users"]));
    let (op, _) = op.advance(Event::Rows(vec![]));
    let rows: Vec<RawRow> = vec![
        vec![int_cell("id", 1)],
        vec![RawCell {
            name: "id".to_string(),
            declared_type: "INT".to_string(),
            data: CellData::Undecodable("out of range".to_string()),
        }],
    ];
    let (op, action) = op.advance(Event::Rows(rows));
    assert_eq!(action, Action::Fail(DbError::Decode("out of range".to_string())));
    assert_eq!(op.phase, Phase::Finished);
}

#[test]
fn candidates_are_listed_after_three_checks() {
    let info = key("owner_id", "users", "id", "login");
    let (op, action) = get_foreign_key_values(info, true);
    assert_eq!(action, show_tables());
    let (op, action) = op.advance(names("Tables_in_shop", &["users", "posts"]));
    assert_eq!(action, ask_columns("users"));
    let (op, action) = op.advance(names("COLUMN_NAME", &["id", "login", "email"]));
    assert_eq!(
        action,
        Action::Fetch(Statement {
            sql: "SELECT `id` as id, `login` as display FROM `users` ORDER BY `login` ASC"
                .to_string(),
            params: vec![],
        })
    );
    let rows: Vec<RawRow> = vec![
        vec![int_cell("id", 7), text_cell("display", "ann")],
        vec![int_cell("id", 3), text_cell("display", "bob")],
    ];
    let (_, action) = op.advance(Event::Rows(rows));
    assert_eq!(
        action,
        Action::Finish(Reply::Candidates(vec![
            ForeignKeyValue { id: JsonValue::Number(JsonNumber::PosInt(7)), display: "ann".to_string() },
            ForeignKeyValue { id: JsonValue::Number(JsonNumber::PosInt(3)), display: "bob".to_string() },
        ]))
    );
}

#[test]
fn candidates_of_forged_key_are_refused() {
    let (op, _) = get_foreign_key_values(key("owner_id", "users` --", "id", "login"), true);
    let (_, action) = op.advance(names("Tables_in_shop", &["users"]));
    assert_eq!(action, Action::Fail(DbError::UnknownTable("users` --".to_string())));

    let (op, _) = get_foreign_key_values(key("owner_id", "users", "id", "password"), true);
    let (op, _) = op.advance(names("Tables_in_shop", &["users"]));
    let (_, action) = op.advance(names("COLUMN_NAME", &["id", "login"]));
    assert_eq!(action, Action::Fail(DbError::UnknownColumn("password".to_string())));
}

#[test]
fn database_failure_ends_the_operation() {
    let (op, _) = get_table_names(true);
    let (op, action) = op.advance(Event::Failed("connection reset".to_string()));
    assert_eq!(action, Action::Fail(DbError::Query("connection reset".to_string())));
    assert_eq!(op.phase, Phase::Finished);

    let (op, _) = get_table_columns("users".to_string(), true);
    let (op, _) = op.advance(names("Tables_in_shop", &["users"]));
    let (_, action) = op.advance(Event::Failed("gone away".to_string()));
    assert_eq!(action, Action::Fail(DbError::Query("gone away".to_string())));
}

#[test]
fn events_must_answer_the_pending_statement() {
    let unexpected = Action::Fail(DbError::Query(UNEXPECTED.to_string()));
    let (op, _) = get_table_names(true);
    let (_, action) = op.advance(Event::Executed);
    assert_eq!(action, unexpected);

    let (op, _) = delete_record("users".to_string(), "1".to_string(), "id".to_string(), true);
    let (op, _) = op.advance(names("Tables_in_shop", &["users"]));
    let (op, _) = op.advance(names("COLUMN_NAME", &["id"]));
    let (_, action) = op.advance(Event::Rows(vec![]));
    assert_eq!(action, unexpected);
}

#[test]
fn unreadable_table_list_is_a_decode_failure() {
    let (op, _) = get_table_names(true);
    let rows: Vec<RawRow> = vec![vec![int_cell("Tables_in_shop", 1)]];
    let (_, action) = op.advance(Event::Rows(rows));
    match action {
        Action::Fail(error) => assert_eq!(error.kind(), ErrorKind::Decode),
        other => panic!("unexpected action {:?}", other),
    }
}

#[test]
fn operation_can_be_started_from_a_request() {
    let (op, action) = Operation::start(Request::Fields { table: "users".to_string() }, true);
    assert_eq!(action, show_tables());
    assert_eq!(op.request, Request::Fields { table: "users".to_string() });
    assert_eq!(op.phase, Phase::Tables);
}

#[test]
fn repeated_constraint_on_a_column_keeps_the_last() {
    let (op, _) = get_table_columns("posts".to_string(), true);
    let (op, _) = op.advance(names("Tables_in_shop", &["posts", "users", "staff"]));
    let (op, _) = op.advance(names("COLUMN_NAME", &["id", "owner_id"]));
    let (op, _) = op.advance(Event::Rows(vec![
        constraint_row("owner_id", "users", "id"),
        constraint_row("owner_id", "staff", "sid"),
    ]));
    let (op, action) = op.advance(names("COLUMN_NAME", &["id", "code"]));
    assert_eq!(action, ask_columns("staff"));
    let (_, action) = op.advance(names("COLUMN_NAME", &["sid"]));
    let mut foreign_keys: ForeignKeys = NameMap::new();
    foreign_keys.insert("owner_id".to_string(), key("owner_id", "staff", "sid", "sid"));
    assert_eq!(
        action,
        Action::Finish(Reply::Description {
            columns: vec!["id".to_string(), "owner_id".to_string()],
            foreign_keys,
        })
    );
}
