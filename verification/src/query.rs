//! Statement construction: the text of every statement the browser
//! sends, the values bound to its placeholders, and the checks a name
//! must pass before it is written into statement text.

use vstd::prelude::*;
use vstd::string::*;
use crate::codec::{decoded, kind_of, CellDataView, CellValueView, ColumnKind};
use crate::error::{DbError, DbErrorView, ErrorKind};
use crate::names::names_of;
use crate::schema::{ForeignKeyInfo, ForeignKeyInfoView, ForeignKeys};
use crate::text::{contains_name, decimal, push_decimal, push_quoted, quoted};
use crate::value::{JsonModel, JsonNumber, JsonValue, Record};

verus! {

/// A value bound to one placeholder of a statement.
#[derive(Clone, Debug, PartialEq, Eq)]
pub enum BindParam {
    /// SQL NULL.
    Null,
    /// A text value.
    Text(String),
    /// A signed integer.
    Integer(i64),
    /// A 64-bit float, by its IEEE 754 bit pattern.
    Float(u64),
    /// An unsigned integer above the signed range, to be bound as the
    /// 64-bit float nearest to it.
    Approximate(u64),
    /// A boolean.
    Bool(bool),
}

/// The mathematical form of a [`BindParam`].
pub enum BindParamView {
    Null,
    Text(Seq<char>),
    Integer(i64),
    Float(u64),
    Approximate(u64),
    Bool(bool),
}

impl View for BindParam {
    type V = BindParamView;

    open spec fn view(&self) -> BindParamView {
        match self {
            BindParam::Null => BindParamView::Null,
            BindParam::Text(text) => BindParamView::Text(text@),
            BindParam::Integer(i) => BindParamView::Integer(*i),
            BindParam::Float(bits) => BindParamView::Float(*bits),
            BindParam::Approximate(u) => BindParamView::Approximate(*u),
            BindParam::Bool(b) => BindParamView::Bool(*b),
        }
    }
}

/// The text of a statement and the values bound to its placeholders, in
/// the order of the placeholders.
#[derive(Debug, PartialEq, Eq)]
pub struct Statement {
    pub sql: String,
    pub params: Vec<BindParam>,
}

/// The mathematical form of a [`Statement`].
pub struct StatementView {
    pub sql: Seq<char>,
    pub params: Seq<BindParamView>,
}

/// The mathematical form of a list of bound values.
pub open spec fn params_view(params: Seq<BindParam>) -> Seq<BindParamView> {
    Seq::new(params.len(), |i: int| params[i]@)
}

impl View for Statement {
    type V = StatementView;

    open spec fn view(&self) -> StatementView {
        StatementView { sql: self.sql@, params: params_view(self.params@) }
    }
}

/// How a record value is bound: null as SQL NULL, a string as text, a
/// boolean as boolean, an integer within the signed 64-bit range as
/// integer, any other number as float, an array or object as its JSON
/// text.
pub open spec fn bound(value: JsonModel) -> BindParamView {
    match value {
        JsonModel::Null => BindParamView::Null,
        JsonModel::Bool(b) => BindParamView::Bool(b),
        JsonModel::String(text) => BindParamView::Text(text),
        JsonModel::Composite(json) => BindParamView::Text(json),
        JsonModel::Number(n) => match n.spec_as_i64() {
            Some(i) => BindParamView::Integer(i),
            None => match n {
                JsonNumber::PosInt(u) => BindParamView::Approximate(u),
                JsonNumber::NegInt(i) => BindParamView::Integer(i),
                JsonNumber::Float(bits) => BindParamView::Float(bits),
            },
        },
    }
}

/// The bound values of a record, one per entry and in entry order.
pub open spec fn bound_values(record: Seq<(Seq<char>, JsonModel)>) -> Seq<BindParamView> {
    Seq::new(record.len(), |i: int| bound(record[i].1))
}

/// The first `count` names, each quoted, separated by a comma and a
/// space.
pub open spec fn column_list(names: Seq<Seq<char>>, count: nat) -> Seq<char>
    decreases count,
{
    if count == 0 {
        Seq::empty()
    } else if count == 1 {
        quoted(names[0])
    } else {
        column_list(names, (count - 1) as nat) + ", "@ + quoted(names[count - 1])
    }
}

/// `count` placeholders, separated by a comma and a space.
pub open spec fn placeholders(count: nat) -> Seq<char>
    decreases count,
{
    if count == 0 {
        Seq::empty()
    } else if count == 1 {
        "?"@
    } else {
        placeholders((count - 1) as nat) + ", "@ + "?"@
    }
}

/// An assignment of a placeholder to each of the first `count` names,
/// separated by a comma and a space.
pub open spec fn assignments(names: Seq<Seq<char>>, count: nat) -> Seq<char>
    decreases count,
{
    if count == 0 {
        Seq::empty()
    } else if count == 1 {
        quoted(names[0]) + " = ?"@
    } else {
        assignments(names, (count - 1) as nat) + ", "@ + quoted(names[count - 1]) + " = ?"@
    }
}

/// The text that lists the tables of the connected schema.
pub open spec fn table_names_sql() -> Seq<char> {
    "SHOW TABLES"@
}

/// The text that lists the columns of the table bound to its
/// placeholder, in declaration order and within the connected schema.
pub open spec fn columns_sql() -> Seq<char> {
    "SELECT COLUMN_NAME FROM INFORMATION_SCHEMA.COLUMNS WHERE TABLE_SCHEMA = DATABASE() AND TABLE_NAME = ? ORDER BY ORDINAL_POSITION"@
}

/// The text that lists the outgoing foreign keys of the table bound to
/// its placeholder: owning column, referenced table, referenced column.
pub open spec fn foreign_keys_sql() -> Seq<char> {
    "SELECT kcu.COLUMN_NAME, kcu.REFERENCED_TABLE_NAME, kcu.REFERENCED_COLUMN_NAME FROM information_schema.KEY_COLUMN_USAGE AS kcu WHERE kcu.TABLE_SCHEMA = DATABASE() AND kcu.TABLE_NAME = ? AND kcu.REFERENCED_TABLE_NAME IS NOT NULL"@
}

/// The text that describes the fields of a table.
pub open spec fn fields_sql(table: Seq<char>) -> Seq<char> {
    "DESCRIBE "@ + quoted(table)
}

/// The text of an insert into `table` that sets `names`.
pub open spec fn insert_sql(table: Seq<char>, names: Seq<Seq<char>>) -> Seq<char> {
    "INSERT INTO "@ + quoted(table) + " ("@ + column_list(names, names.len()) + ") VALUES ("@
        + placeholders(names.len()) + ")"@
}

/// The text of an update of `table` that sets `names` in the row whose
/// `key_column` equals the last placeholder.
pub open spec fn update_sql(table: Seq<char>, names: Seq<Seq<char>>, key_column: Seq<char>) -> Seq<
    char,
> {
    "UPDATE "@ + quoted(table) + " SET "@ + assignments(names, names.len()) + " WHERE "@ + quoted(
        key_column,
    ) + " = ?"@
}

/// The text of a delete from `table` of the row whose `key_column`
/// equals the placeholder.
pub open spec fn delete_sql(table: Seq<char>, key_column: Seq<char>) -> Seq<char> {
    "DELETE FROM "@ + quoted(table) + " WHERE "@ + quoted(key_column) + " = ?"@
}

/// The text that lists the candidate rows of a referenced table: the
/// referenced column as `id`, the descriptive column as `display`, in
/// ascending order of the descriptive column.
pub open spec fn candidates_sql(key: ForeignKeyInfoView) -> Seq<char> {
    "SELECT "@ + quoted(key.referenced_column) + " as id, "@ + quoted(key.descriptive_column)
        + " as display FROM "@ + quoted(key.referenced_table) + " ORDER BY "@ + quoted(
        key.descriptive_column,
    ) + " ASC"@
}

/// The name under which the referenced table of the foreign key at
/// `index` is joined.
pub open spec fn join_table(index: nat) -> Seq<char> {
    "jt"@ + decimal(index)
}

/// What the foreign key at `index` adds to the select list: its
/// descriptive column, labelled with its join alias.
pub open spec fn select_clause(key: ForeignKeyInfoView, index: nat) -> Seq<char> {
    quoted(join_table(index)) + "."@ + quoted(key.descriptive_column) + " AS "@ + quoted(
        key.join_alias,
    )
}

/// The left join that resolves the foreign key at `index`. A left join
/// keeps the owning row where the key is null or dangling.
pub open spec fn join_clause(key: ForeignKeyInfoView, index: nat) -> Seq<char> {
    "LEFT JOIN "@ + quoted(key.referenced_table) + " AS "@ + quoted(join_table(index))
        + " ON `main_table`."@ + quoted(key.column_name) + " = "@ + quoted(join_table(index)) + "."@
        + quoted(key.referenced_column)
}

/// The select list for the first `count` foreign keys: every column of
/// the owning table, then one labelled column per key.
pub open spec fn select_list(keys: Seq<(Seq<char>, ForeignKeyInfoView)>, count: nat) -> Seq<char>
    decreases count,
{
    if count == 0 {
        "`main_table`.*"@
    } else {
        select_list(keys, (count - 1) as nat) + ", "@ + select_clause(
            keys[count - 1].1,
            (count - 1) as nat,
        )
    }
}

/// The joins for the first `count` foreign keys, separated by a space.
pub open spec fn join_list(keys: Seq<(Seq<char>, ForeignKeyInfoView)>, count: nat) -> Seq<char>
    decreases count,
{
    if count == 0 {
        Seq::empty()
    } else if count == 1 {
        join_clause(keys[0].1, 0)
    } else {
        join_list(keys, (count - 1) as nat) + " "@ + join_clause(
            keys[count - 1].1,
            (count - 1) as nat,
        )
    }
}

/// The text that fetches all rows of `table` with every foreign key
/// resolved to its descriptive value.
pub open spec fn content_sql(table: Seq<char>, keys: Seq<(Seq<char>, ForeignKeyInfoView)>) -> Seq<
    char,
> {
    "SELECT "@ + select_list(keys, keys.len()) + " FROM "@ + quoted(table) + " AS `main_table` "@
        + join_list(keys, keys.len())
}

/// The index of the first name at or after `start` that is not among
/// `allowed`.
pub open spec fn first_unknown(names: Seq<Seq<char>>, allowed: Seq<Seq<char>>, start: int) -> Option<
    int,
>
    decreases names.len() - start,
{
    if start < 0 || start >= names.len() {
        None
    } else if !allowed.contains(names[start]) {
        Some(start)
    } else {
        first_unknown(names, allowed, start + 1)
    }
}

/// A statement without bound values.
pub open spec fn plain(sql: Seq<char>) -> StatementView {
    StatementView { sql, params: Seq::empty() }
}

/// What a check or a builder hands back, in mathematical form.
pub open spec fn outcome_view(r: Result<Statement, DbError>) -> Result<StatementView, DbErrorView> {
    match r {
        Ok(statement) => Ok(statement@),
        Err(error) => Err(error@),
    }
}

/// Binds one record value.
pub fn bind_param(value: &JsonValue) -> (param: BindParam)
    ensures
        param@ == bound(value@),
{
    match value {
        JsonValue::Null => BindParam::Null,
        JsonValue::Bool(b) => BindParam::Bool(*b),
        JsonValue::String(text) => BindParam::Text(text.clone()),
        JsonValue::Composite(json) => BindParam::Text(json.clone()),
        JsonValue::Number(n) => match n.as_i64() {
            Some(i) => BindParam::Integer(i),
            None => match n {
                JsonNumber::PosInt(u) => BindParam::Approximate(*u),
                JsonNumber::NegInt(i) => BindParam::Integer(*i),
                JsonNumber::Float(bits) => BindParam::Float(*bits),
            },
        },
    }
}

/// Binds the values of a record, in entry order.
pub fn bind_record(record: &Record) -> (params: Vec<BindParam>)
    ensures
        params_view(params@) == bound_values(record@),
{
    let mut params: Vec<BindParam> = Vec::new();
    let mut i: usize = 0;
    while i < record.len()
        invariant
            i <= record@.len(),
            params@.len() == i,
            forall|j: int| 0 <= j < i ==> (#[trigger] params@[j])@ == bound(record@[j].1),
        decreases record@.len() - i,
    {
        params.push(bind_param(record.value_at(i)));
        i += 1;
    }
    assert(params_view(params@) =~= bound_values(record@));
    params
}

/// Checks a table name against the tables of the connected schema.
pub fn check_table(table: &str, tables: &Vec<String>) -> (r: Result<(), DbError>)
    ensures
        match r {
            Ok(_) => tables.deep_view().contains(table@),
            Err(error) => !tables.deep_view().contains(table@) && error@
                == DbErrorView::UnknownTable(table@),
        },
{
    if contains_name(tables, table) {
        Ok(())
    } else {
        Err(DbError::UnknownTable(String::from_str(table)))
    }
}

/// Checks a column name against the columns of the target table.
pub fn check_column(column: &str, columns: &Vec<String>) -> (r: Result<(), DbError>)
    ensures
        match r {
            Ok(_) => columns.deep_view().contains(column@),
            Err(error) => !columns.deep_view().contains(column@) && error@
                == DbErrorView::UnknownColumn(column@),
        },
{
    if contains_name(columns, column) {
        Ok(())
    } else {
        Err(DbError::UnknownColumn(String::from_str(column)))
    }
}

/// Checks every name of a record against the columns of the target
/// table; the first name that is not a column is reported.
pub fn check_record(record: &Record, columns: &Vec<String>) -> (r: Result<(), DbError>)
    ensures
        match r {
            Ok(_) => first_unknown(names_of(record@), columns.deep_view(), 0) is None,
            Err(error) => first_unknown(names_of(record@), columns.deep_view(), 0) matches Some(i)
                && error@ == DbErrorView::UnknownColumn(record@[i].0),
        },
{
    let mut i: usize = 0;
    while i < record.len()
        invariant
            i <= record@.len(),
            first_unknown(names_of(record@), columns.deep_view(), 0) == first_unknown(
                names_of(record@),
                columns.deep_view(),
                i as int,
            ),
        decreases record@.len() - i,
    {
        let name = record.name_at(i);
        assert(names_of(record@)[i as int] == name@);
        if !contains_name(columns, name.as_str()) {
            return Err(DbError::UnknownColumn(name.clone()));
        }
        i += 1;
    }
    Ok(())
}

/// The statement that lists the tables of the connected schema.
pub fn table_names_query() -> (statement: Statement)
    ensures
        statement@ == plain(table_names_sql()),
{
    let statement = Statement { sql: String::from_str("SHOW TABLES"), params: Vec::new() };
    assert(statement@.params =~= Seq::empty());
    statement
}

/// The statement that lists the columns of `table`. The name is bound,
/// not written into the text, so any name may be asked about.
pub fn columns_query(table: &str) -> (statement: Statement)
    ensures
        statement@ == (StatementView {
            sql: columns_sql(),
            params: seq![BindParamView::Text(table@)],
        }),
{
    let mut params: Vec<BindParam> = Vec::new();
    params.push(BindParam::Text(String::from_str(table)));
    let statement = Statement {
        sql: String::from_str(
            "SELECT COLUMN_NAME FROM INFORMATION_SCHEMA.COLUMNS WHERE TABLE_SCHEMA = DATABASE() AND TABLE_NAME = ? ORDER BY ORDINAL_POSITION",
        ),
        params,
    };
    assert(statement@.params =~= seq![BindParamView::Text(table@)]);
    statement
}

/// The statement that lists the outgoing foreign keys of `table`. The
/// name is bound, not written into the text.
pub fn foreign_keys_query(table: &str) -> (statement: Statement)
    ensures
        statement@ == (StatementView {
            sql: foreign_keys_sql(),
            params: seq![BindParamView::Text(table@)],
        }),
{
    let mut params: Vec<BindParam> = Vec::new();
    params.push(BindParam::Text(String::from_str(table)));
    let statement = Statement {
        sql: String::from_str(
            "SELECT kcu.COLUMN_NAME, kcu.REFERENCED_TABLE_NAME, kcu.REFERENCED_COLUMN_NAME FROM information_schema.KEY_COLUMN_USAGE AS kcu WHERE kcu.TABLE_SCHEMA = DATABASE() AND kcu.TABLE_NAME = ? AND kcu.REFERENCED_TABLE_NAME IS NOT NULL",
        ),
        params,
    };
    assert(statement@.params =~= seq![BindParamView::Text(table@)]);
    statement
}

/// What an insert request comes to: an empty record, an unknown table
/// and an unknown column are refused, in that order; otherwise the
/// statement sets every entry of the record.
pub open spec fn insert_outcome(
    table: Seq<char>,
    record: Seq<(Seq<char>, JsonModel)>,
    tables: Seq<Seq<char>>,
    columns: Seq<Seq<char>>,
) -> Result<StatementView, DbErrorView> {
    if record.len() == 0 {
        Err(DbErrorView::EmptyInsert)
    } else if !tables.contains(table) {
        Err(DbErrorView::UnknownTable(table))
    } else {
        match first_unknown(names_of(record), columns, 0) {
            Some(i) => Err(DbErrorView::UnknownColumn(record[i].0)),
            None => Ok(
                StatementView {
                    sql: insert_sql(table, names_of(record)),
                    params: bound_values(record),
                },
            ),
        }
    }
}

/// What an update request comes to: an empty record, an unknown table,
/// an unknown key column and an unknown column to set are refused, in
/// that order; otherwise the statement sets every entry of the record
/// and binds the row identifier last.
pub open spec fn update_outcome(
    table: Seq<char>,
    record_id: Seq<char>,
    key_column: Seq<char>,
    record: Seq<(Seq<char>, JsonModel)>,
    tables: Seq<Seq<char>>,
    columns: Seq<Seq<char>>,
) -> Result<StatementView, DbErrorView> {
    if record.len() == 0 {
        Err(DbErrorView::EmptyUpdate)
    } else if !tables.contains(table) {
        Err(DbErrorView::UnknownTable(table))
    } else if !columns.contains(key_column) {
        Err(DbErrorView::UnknownColumn(key_column))
    } else {
        match first_unknown(names_of(record), columns, 0) {
            Some(i) => Err(DbErrorView::UnknownColumn(record[i].0)),
            None => Ok(
                StatementView {
                    sql: update_sql(table, names_of(record), key_column),
                    params: bound_values(record).push(BindParamView::Text(record_id)),
                },
            ),
        }
    }
}

/// What a delete request comes to: an unknown table and an unknown key
/// column are refused, in that order; otherwise the statement binds the
/// row identifier.
pub open spec fn delete_outcome(
    table: Seq<char>,
    record_id: Seq<char>,
    key_column: Seq<char>,
    tables: Seq<Seq<char>>,
    columns: Seq<Seq<char>>,
) -> Result<StatementView, DbErrorView> {
    if !tables.contains(table) {
        Err(DbErrorView::UnknownTable(table))
    } else if !columns.contains(key_column) {
        Err(DbErrorView::UnknownColumn(key_column))
    } else {
        Ok(
            StatementView {
                sql: delete_sql(table, key_column),
                params: seq![BindParamView::Text(record_id)],
            },
        )
    }
}

/// What a request for the fields of a table comes to.
pub open spec fn fields_outcome(table: Seq<char>, tables: Seq<Seq<char>>) -> Result<
    StatementView,
    DbErrorView,
> {
    if !tables.contains(table) {
        Err(DbErrorView::UnknownTable(table))
    } else {
        Ok(plain(fields_sql(table)))
    }
}

/// What a request for the rows of a table comes to.
pub open spec fn content_outcome(
    table: Seq<char>,
    tables: Seq<Seq<char>>,
    keys: Seq<(Seq<char>, ForeignKeyInfoView)>,
) -> Result<StatementView, DbErrorView> {
    if !tables.contains(table) {
        Err(DbErrorView::UnknownTable(table))
    } else {
        Ok(plain(content_sql(table, keys)))
    }
}

/// What a request for the candidate rows of a foreign key comes to: the
/// referenced table must be a table of the schema, and the referenced
/// and the descriptive column must be columns of it.
pub open spec fn candidates_outcome(
    key: ForeignKeyInfoView,
    tables: Seq<Seq<char>>,
    columns: Seq<Seq<char>>,
) -> Result<StatementView, DbErrorView> {
    if !tables.contains(key.referenced_table) {
        Err(DbErrorView::UnknownTable(key.referenced_table))
    } else if !columns.contains(key.referenced_column) {
        Err(DbErrorView::UnknownColumn(key.referenced_column))
    } else if !columns.contains(key.descriptive_column) {
        Err(DbErrorView::UnknownColumn(key.descriptive_column))
    } else {
        Ok(plain(candidates_sql(key)))
    }
}

/// Builds the insert of `record` into `table`.
///
/// `tables` are the tables of the connected schema and `columns` the
/// columns of `table`, both as just fetched.
pub fn insert_statement(
    table: &str,
    record: &Record,
    tables: &Vec<String>,
    columns: &Vec<String>,
) -> (r: Result<Statement, DbError>)
    ensures
        outcome_view(r) == insert_outcome(
            table@,
            record@,
            tables.deep_view(),
            columns.deep_view(),
        ),
{
    if record.is_empty() {
        return Err(DbError::EmptyInsert);
    }
    match check_table(table, tables) {
        Err(error) => {
            return Err(error);
        },
        Ok(_) => {},
    }
    match check_record(record, columns) {
        Err(error) => {
            return Err(error);
        },
        Ok(_) => {},
    }
    let mut list = String::new();
    let mut marks = String::new();
    let mut i: usize = 0;
    while i < record.len()
        invariant
            i <= record@.len(),
            list@ == column_list(names_of(record@), i as nat),
            marks@ == placeholders(i as nat),
        decreases record@.len() - i,
    {
        if i > 0 {
            list.append(", ");
            marks.append(", ");
        }
        let name = record.name_at(i);
        assert(names_of(record@)[i as int] == name@);
        push_quoted(&mut list, name.as_str());
        marks.append("?");
        i += 1;
        assert(list@ =~= column_list(names_of(record@), i as nat));
        assert(marks@ =~= placeholders(i as nat));
    }
    let mut sql = String::from_str("INSERT INTO ");
    push_quoted(&mut sql, table);
    sql.append(" (");
    sql.append(list.as_str());
    sql.append(") VALUES (");
    sql.append(marks.as_str());
    sql.append(")");
    assert(sql@ =~= insert_sql(table@, names_of(record@)));
    let params = bind_record(record);
    Ok(Statement { sql, params })
}

/// Builds the update of the row of `table` whose `key_column` equals
/// `record_id`, setting the entries of `record`.
///
/// `tables` are the tables of the connected schema and `columns` the
/// columns of `table`, both as just fetched.
pub fn update_statement(
    table: &str,
    record_id: &str,
    key_column: &str,
    record: &Record,
    tables: &Vec<String>,
    columns: &Vec<String>,
) -> (r: Result<Statement, DbError>)
    ensures
        outcome_view(r) == update_outcome(
            table@,
            record_id@,
            key_column@,
            record@,
            tables.deep_view(),
            columns.deep_view(),
        ),
{
    if record.is_empty() {
        return Err(DbError::EmptyUpdate);
    }
    match check_table(table, tables) {
        Err(error) => {
            return Err(error);
        },
        Ok(_) => {},
    }
    match check_column(key_column, columns) {
        Err(error) => {
            return Err(error);
        },
        Ok(_) => {},
    }
    match check_record(record, columns) {
        Err(error) => {
            return Err(error);
        },
        Ok(_) => {},
    }
    let mut list = String::new();
    let mut i: usize = 0;
    while i < record.len()
        invariant
            i <= record@.len(),
            list@ == assignments(names_of(record@), i as nat),
        decreases record@.len() - i,
    {
        if i > 0 {
            list.append(", ");
        }
        let name = record.name_at(i);
        assert(names_of(record@)[i as int] == name@);
        push_quoted(&mut list, name.as_str());
        list.append(" = ?");
        i += 1;
        assert(list@ =~= assignments(names_of(record@), i as nat));
    }
    let mut sql = String::from_str("UPDATE ");
    push_quoted(&mut sql, table);
    sql.append(" SET ");
    sql.append(list.as_str());
    sql.append(" WHERE ");
    push_quoted(&mut sql, key_column);
    sql.append(" = ?");
    assert(sql@ =~= update_sql(table@, names_of(record@), key_column@));
    let mut params = bind_record(record);
    params.push(BindParam::Text(String::from_str(record_id)));
    assert(params_view(params@) =~= bound_values(record@).push(BindParamView::Text(record_id@)));
    Ok(Statement { sql, params })
}

/// Builds the delete of the row of `table` whose `key_column` equals
/// `record_id`.
///
/// `tables` are the tables of the connected schema and `columns` the
/// columns of `table`, both as just fetched.
pub fn delete_statement(
    table: &str,
    record_id: &str,
    key_column: &str,
    tables: &Vec<String>,
    columns: &Vec<String>,
) -> (r: Result<Statement, DbError>)
    ensures
        outcome_view(r) == delete_outcome(
            table@,
            record_id@,
            key_column@,
            tables.deep_view(),
            columns.deep_view(),
        ),
{
    match check_table(table, tables) {
        Err(error) => {
            return Err(error);
        },
        Ok(_) => {},
    }
    match check_column(key_column, columns) {
        Err(error) => {
            return Err(error);
        },
        Ok(_) => {},
    }
    let mut sql = String::from_str("DELETE FROM ");
    push_quoted(&mut sql, table);
    sql.append(" WHERE ");
    push_quoted(&mut sql, key_column);
    sql.append(" = ?");
    assert(sql@ =~= delete_sql(table@, key_column@));
    let mut params: Vec<BindParam> = Vec::new();
    params.push(BindParam::Text(String::from_str(record_id)));
    assert(params_view(params@) =~= seq![BindParamView::Text(record_id@)]);
    Ok(Statement { sql, params })
}

/// Builds the statement that describes the fields of `table`.
pub fn fields_query(table: &str, tables: &Vec<String>) -> (r: Result<Statement, DbError>)
    ensures
        outcome_view(r) == fields_outcome(table@, tables.deep_view()),
{
    match check_table(table, tables) {
        Err(error) => {
            return Err(error);
        },
        Ok(_) => {},
    }
    let mut sql = String::from_str("DESCRIBE ");
    push_quoted(&mut sql, table);
    let statement = Statement { sql, params: Vec::new() };
    assert(statement@.params =~= Seq::empty());
    Ok(statement)
}

/// Appends the name under which the referenced table of the foreign
/// key at `index` is joined, between backticks.
fn push_join_table(out: &mut String, index: usize)
    ensures
        final(out)@ == old(out)@ + quoted(join_table(index as nat)),
{
    let mut name = String::from_str("jt");
    push_decimal(&mut name, index as u64);
    push_quoted(out, name.as_str());
}

/// Builds the statement that fetches all rows of `table`, with one left
/// join per foreign key in `keys`.
///
/// `tables` are the tables of the connected schema as just fetched;
/// `keys` come from the key catalog of the same schema.
pub fn content_query(table: &str, tables: &Vec<String>, keys: &ForeignKeys) -> (r: Result<
    Statement,
    DbError,
>)
    ensures
        outcome_view(r) == content_outcome(table@, tables.deep_view(), keys@),
{
    match check_table(table, tables) {
        Err(error) => {
            return Err(error);
        },
        Ok(_) => {},
    }
    let mut selected = String::from_str("`main_table`.*");
    let mut joined = String::new();
    let mut i: usize = 0;
    while i < keys.len()
        invariant
            i <= keys@.len(),
            selected@ == select_list(keys@, i as nat),
            joined@ == join_list(keys@, i as nat),
        decreases keys@.len() - i,
    {
        let key = keys.value_at(i);
        selected.append(", ");
        push_join_table(&mut selected, i);
        selected.append(".");
        push_quoted(&mut selected, key.descriptive_column.as_str());
        selected.append(" AS ");
        push_quoted(&mut selected, key.join_alias.as_str());
        if i > 0 {
            joined.append(" ");
        }
        joined.append("LEFT JOIN ");
        push_quoted(&mut joined, key.referenced_table.as_str());
        joined.append(" AS ");
        push_join_table(&mut joined, i);
        joined.append(" ON `main_table`.");
        push_quoted(&mut joined, key.column_name.as_str());
        joined.append(" = ");
        push_join_table(&mut joined, i);
        joined.append(".");
        push_quoted(&mut joined, key.referenced_column.as_str());
        i += 1;
        assert(selected@ =~= select_list(keys@, i as nat));
        assert(joined@ =~= join_list(keys@, i as nat));
    }
    let mut sql = String::from_str("SELECT ");
    sql.append(selected.as_str());
    sql.append(" FROM ");
    push_quoted(&mut sql, table);
    sql.append(" AS `main_table` ");
    sql.append(joined.as_str());
    assert(sql@ =~= content_sql(table@, keys@));
    let statement = Statement { sql, params: Vec::new() };
    assert(statement@.params =~= Seq::empty());
    Ok(statement)
}

/// Builds the statement that lists the candidate rows of a foreign key.
///
/// `tables` are the tables of the connected schema and `columns` the
/// columns of the referenced table, both as just fetched.
pub fn candidates_query(key: &ForeignKeyInfo, tables: &Vec<String>, columns: &Vec<String>) -> (r:
    Result<Statement, DbError>)
    ensures
        outcome_view(r) == candidates_outcome(key@, tables.deep_view(), columns.deep_view()),
{
    match check_table(key.referenced_table.as_str(), tables) {
        Err(error) => {
            return Err(error);
        },
        Ok(_) => {},
    }
    match check_column(key.referenced_column.as_str(), columns) {
        Err(error) => {
            return Err(error);
        },
        Ok(_) => {},
    }
    match check_column(key.descriptive_column.as_str(), columns) {
        Err(error) => {
            return Err(error);
        },
        Ok(_) => {},
    }
    let mut sql = String::from_str("SELECT ");
    push_quoted(&mut sql, key.referenced_column.as_str());
    sql.append(" as id, ");
    push_quoted(&mut sql, key.descriptive_column.as_str());
    sql.append(" as display FROM ");
    push_quoted(&mut sql, key.referenced_table.as_str());
    sql.append(" ORDER BY ");
    push_quoted(&mut sql, key.descriptive_column.as_str());
    sql.append(" ASC");
    assert(sql@ =~= candidates_sql(key@));
    let statement = Statement { sql, params: Vec::new() };
    assert(statement@.params =~= Seq::empty());
    Ok(statement)
}

/// Where no name from `start` on is unknown, every such name is
/// allowed.
pub proof fn lemma_all_known(names: Seq<Seq<char>>, allowed: Seq<Seq<char>>, start: int)
    requires
        0 <= start,
        first_unknown(names, allowed, start) is None,
    ensures
        forall|i: int| start <= i < names.len() ==> allowed.contains(#[trigger] names[i]),
    decreases names.len() - start,
{
    if start < names.len() {
        lemma_all_known(names, allowed, start + 1);
    }
}

/// The name reported as unknown is not allowed, and every name before
/// it is.
pub proof fn lemma_first_unknown(names: Seq<Seq<char>>, allowed: Seq<Seq<char>>, start: int)
    requires
        0 <= start,
        first_unknown(names, allowed, start) is Some,
    ensures
        ({
            let at = first_unknown(names, allowed, start)->0;
            &&& start <= at < names.len()
            &&& !allowed.contains(names[at])
            &&& forall|i: int| start <= i < at ==> allowed.contains(#[trigger] names[i])
        }),
    decreases names.len() - start,
{
    if start < names.len() && allowed.contains(names[start]) {
        lemma_first_unknown(names, allowed, start + 1);
    }
}

/// An insert is built only from checked names: the record is not
/// empty, the table is a table of the schema, and every name of the
/// record is a column of the table. Its values are bound one per
/// entry, in the order in which the names are listed. An empty record
/// is refused whatever the table, and every refusal is a validation
/// error.
pub proof fn lemma_insert_is_validated(
    table: Seq<char>,
    record: Seq<(Seq<char>, JsonModel)>,
    tables: Seq<Seq<char>>,
    columns: Seq<Seq<char>>,
)
    ensures
        insert_outcome(table, record, tables, columns) is Ok ==> {
            &&& record.len() > 0
            &&& tables.contains(table)
            &&& forall|i: int| 0 <= i < record.len() ==> columns.contains((#[trigger] record[i]).0)
        },
        insert_outcome(table, record, tables, columns) matches Ok(statement) ==> {
            &&& statement.sql == insert_sql(table, names_of(record))
            &&& statement.params.len() == record.len()
            &&& forall|i: int|
                0 <= i < record.len() ==> #[trigger] statement.params[i] == bound(record[i].1)
        },
        record.len() == 0 ==> insert_outcome(table, record, tables, columns) == Err::<
            StatementView,
            DbErrorView,
        >(DbErrorView::EmptyInsert),
        !tables.contains(table) ==> insert_outcome(table, record, tables, columns) is Err,
        insert_outcome(table, record, tables, columns) matches Err(error) ==> error.kind()
            == ErrorKind::Validation,
{
    if insert_outcome(table, record, tables, columns) is Ok {
        lemma_all_known(names_of(record), columns, 0);
        assert forall|i: int| 0 <= i < record.len() implies columns.contains(
            (#[trigger] record[i]).0,
        ) by {
            assert(names_of(record)[i] == record[i].0);
        }
    }
}

/// An update is built only from checked names: the record is not
/// empty, the table is a table of the schema, and the key column and
/// every name of the record are columns of the table. Its values are
/// bound one per entry, in the order of the assignments, and the row
/// identifier last. An empty record is refused whatever the table, and
/// every refusal is a validation error.
pub proof fn lemma_update_is_validated(
    table: Seq<char>,
    record_id: Seq<char>,
    key_column: Seq<char>,
    record: Seq<(Seq<char>, JsonModel)>,
    tables: Seq<Seq<char>>,
    columns: Seq<Seq<char>>,
)
    ensures
        update_outcome(table, record_id, key_column, record, tables, columns) is Ok ==> {
            &&& record.len() > 0
            &&& tables.contains(table)
            &&& columns.contains(key_column)
            &&& forall|i: int| 0 <= i < record.len() ==> columns.contains((#[trigger] record[i]).0)
        },
        update_outcome(table, record_id, key_column, record, tables, columns) matches Ok(
            statement,
        ) ==> {
            &&& statement.sql == update_sql(table, names_of(record), key_column)
            &&& statement.params.len() == record.len() + 1
            &&& forall|i: int|
                0 <= i < record.len() ==> #[trigger] statement.params[i] == bound(record[i].1)
            &&& statement.params[record.len() as int] == BindParamView::Text(record_id)
        },
        record.len() == 0 ==> update_outcome(table, record_id, key_column, record, tables, columns)
            == Err::<StatementView, DbErrorView>(DbErrorView::EmptyUpdate),
        update_outcome(table, record_id, key_column, record, tables, columns) matches Err(error)
            ==> error.kind() == ErrorKind::Validation,
{
    if update_outcome(table, record_id, key_column, record, tables, columns) is Ok {
        lemma_all_known(names_of(record), columns, 0);
        assert forall|i: int| 0 <= i < record.len() implies columns.contains(
            (#[trigger] record[i]).0,
        ) by {
            assert(names_of(record)[i] == record[i].0);
        }
    }
}

/// A delete, a description of fields, a fetch of rows and a pick-list
/// are built only from checked names.
pub proof fn lemma_reads_and_deletes_are_validated(
    table: Seq<char>,
    record_id: Seq<char>,
    key_column: Seq<char>,
    key: ForeignKeyInfoView,
    keys: Seq<(Seq<char>, ForeignKeyInfoView)>,
    tables: Seq<Seq<char>>,
    columns: Seq<Seq<char>>,
)
    ensures
        delete_outcome(table, record_id, key_column, tables, columns) is Ok <==> tables.contains(
            table,
        ) && columns.contains(key_column),
        fields_outcome(table, tables) is Ok <==> tables.contains(table),
        content_outcome(table, tables, keys) is Ok <==> tables.contains(table),
        candidates_outcome(key, tables, columns) is Ok <==> tables.contains(key.referenced_table)
            && columns.contains(key.referenced_column) && columns.contains(
            key.descriptive_column,
        ),
{
}

/// What was written comes back as written: the value decoded from an
/// integer, boolean or text cell is bound again as the value that the
/// cell held, and a null cell as null.
pub proof fn lemma_decoded_cells_bind_back(
    declared_type: Seq<char>,
    i: i64,
    b: bool,
    text: Seq<char>,
)
    ensures
        kind_of(declared_type) == ColumnKind::Integer ==> {
            let cell = decoded(declared_type, CellDataView::Value(CellValueView::Integer(i)));
            cell is Ok && bound(cell->Ok_0) == BindParamView::Integer(i)
        },
        kind_of(declared_type) == ColumnKind::Boolean ==> {
            let cell = decoded(declared_type, CellDataView::Value(CellValueView::Boolean(b)));
            cell is Ok && bound(cell->Ok_0) == BindParamView::Bool(b)
        },
        kind_of(declared_type) == ColumnKind::Text ==> {
            let cell = decoded(declared_type, CellDataView::Value(CellValueView::Text(text)));
            cell is Ok && bound(cell->Ok_0) == BindParamView::Text(text)
        },
        ({
            let cell = decoded(declared_type, CellDataView::Null);
            cell is Ok && bound(cell->Ok_0) == BindParamView::Null
        }),
        kind_of("INT"@) == ColumnKind::Integer,
        kind_of("BOOLEAN"@) == ColumnKind::Boolean,
        kind_of("VARCHAR"@) == ColumnKind::Text,
{
    reveal_strlit("TINYINT");
    reveal_strlit("SMALLINT");
    reveal_strlit("MEDIUMINT");
    reveal_strlit("INT");
    reveal_strlit("BIGINT");
    reveal_strlit("YEAR");
    reveal_strlit("FLOAT");
    reveal_strlit("DOUBLE");
    reveal_strlit("DECIMAL");
    reveal_strlit("NEWDECIMAL");
    reveal_strlit("DATETIME");
    reveal_strlit("TIMESTAMP");
    reveal_strlit("DATE");
    reveal_strlit("TIME");
    reveal_strlit("BOOLEAN");
    reveal_strlit("VARCHAR");
    assert("TINYINT"@[0] == 'T' && "DECIMAL"@[0] == 'D');
    assert("BOOLEAN"@[0] == 'B' && "VARCHAR"@[0] == 'V');
    assert("BOOLEAN"@.len() == 7 && "VARCHAR"@.len() == 7);
    assert("SMALLINT"@.len() == 8 && "MEDIUMINT"@.len() == 9 && "INT"@.len() == 3);
    assert("BIGINT"@.len() == 6 && "YEAR"@.len() == 4 && "FLOAT"@.len() == 5);
    assert("DOUBLE"@.len() == 6 && "NEWDECIMAL"@.len() == 10 && "DATETIME"@.len() == 8);
    assert("TIMESTAMP"@.len() == 9 && "DATE"@.len() == 4 && "TIME"@.len() == 4);
}

} // verus!
