//! The operations of the browser, each as a conversation with the
//! database: the library says which statement to send next, the caller
//! sends it and reports what came back.
//!
//! Every operation first asks for the tables of the connected schema and
//! checks its table against them; a name reaches statement text only
//! after that check, and a column name only after the check against the
//! freshly fetched columns of its table.

use vstd::prelude::*;
use vstd::string::*;
use crate::catalog::{
    candidates_of,
    candidates_view,
    constraints_of,
    constraints_view,
    foreign_keys_of,
    get_foreign_keys,
    lemma_names_keep_row_order,
    lookup_view,
    lookups_view,
    read_candidates,
    read_constraints,
    read_names_at,
    read_names_named,
    text_at,
    texts_at,
    texts_named,
    Constraint,
    ConstraintView,
    Lookup,
};
use crate::codec::{
    decoded_rows,
    decoded_view,
    rows_to_json,
    rows_view,
    RawCellView,
    RawRow,
    RowModel,
};
use crate::error::{DbError, DbErrorView};
use crate::names::NameMap;
use crate::query::{
    candidates_outcome,
    candidates_query,
    check_table,
    columns_query,
    columns_sql,
    content_outcome,
    content_query,
    delete_outcome,
    delete_statement,
    fields_outcome,
    fields_query,
    foreign_keys_query,
    foreign_keys_sql,
    insert_outcome,
    insert_statement,
    outcome_view,
    plain,
    table_names_query,
    table_names_sql,
    update_outcome,
    update_statement,
    BindParamView,
    Statement,
    StatementView,
};
use crate::schema::{
    resolved_key,
    ForeignKeyInfo,
    ForeignKeyInfoView,
    ForeignKeyValue,
    ForeignKeyValueView,
    ForeignKeys,
};
use crate::value::{DecodedRow, Record};

verus! {

/// What the caller asks for.
#[derive(Debug, PartialEq, Eq)]
pub enum Request {
    /// The tables of the connected schema.
    TableNames,
    /// The columns of a table and its foreign keys.
    TableColumns { table: String },
    /// The candidate rows of a foreign key, for a pick-list.
    ForeignKeyValues { key: ForeignKeyInfo },
    /// All rows of a table, foreign keys resolved.
    TableContent { table: String },
    /// The field names of a table, as the database describes it.
    Fields { table: String },
    /// A new row.
    Insert { table: String, record: Record },
    /// New values for the row whose key column holds the identifier.
    Update { table: String, record_id: String, key_column: String, record: Record },
    /// Removal of the row whose key column holds the identifier.
    Delete { table: String, record_id: String, key_column: String },
}

/// The mathematical form of a [`Request`].
pub enum RequestView {
    TableNames,
    TableColumns { table: Seq<char> },
    ForeignKeyValues { key: ForeignKeyInfoView },
    TableContent { table: Seq<char> },
    Fields { table: Seq<char> },
    Insert { table: Seq<char>, record: RowModel },
    Update { table: Seq<char>, record_id: Seq<char>, key_column: Seq<char>, record: RowModel },
    Delete { table: Seq<char>, record_id: Seq<char>, key_column: Seq<char> },
}

impl View for Request {
    type V = RequestView;

    open spec fn view(&self) -> RequestView {
        match self {
            Request::TableNames => RequestView::TableNames,
            Request::TableColumns { table } => RequestView::TableColumns { table: table@ },
            Request::ForeignKeyValues { key } => RequestView::ForeignKeyValues { key: key@ },
            Request::TableContent { table } => RequestView::TableContent { table: table@ },
            Request::Fields { table } => RequestView::Fields { table: table@ },
            Request::Insert { table, record } => RequestView::Insert {
                table: table@,
                record: record@,
            },
            Request::Update { table, record_id, key_column, record } => RequestView::Update {
                table: table@,
                record_id: record_id@,
                key_column: key_column@,
                record: record@,
            },
            Request::Delete { table, record_id, key_column } => RequestView::Delete {
                table: table@,
                record_id: record_id@,
                key_column: key_column@,
            },
        }
    }
}

/// What an operation is waiting for.
#[derive(Clone, Copy, Debug, PartialEq, Eq, Structural)]
pub enum Phase {
    /// The tables of the connected schema.
    Tables,
    /// The columns of the target table.
    Columns,
    /// The key constraints of the target table.
    Constraints,
    /// The columns of the table that the next constraint references.
    Referenced,
    /// The rows of the final select.
    Rows,
    /// The outcome of the insert, update or delete.
    Execution,
    /// Nothing: the operation has ended.
    Finished,
}

/// What an operation gives when it succeeds.
#[derive(Debug, PartialEq, Eq)]
pub enum Reply {
    /// Table names, or field names.
    Names(Vec<String>),
    /// The columns of a table, in declaration order, and its foreign
    /// keys.
    Description { columns: Vec<String>, foreign_keys: ForeignKeys },
    /// The rows of a table.
    Rows(Vec<DecodedRow>),
    /// The candidate rows of a foreign key.
    Candidates(Vec<ForeignKeyValue>),
    /// The row was written or removed.
    Done,
}

/// The mathematical form of a [`Reply`].
pub enum ReplyView {
    Names(Seq<Seq<char>>),
    Description { columns: Seq<Seq<char>>, foreign_keys: Seq<(Seq<char>, ForeignKeyInfoView)> },
    Rows(Seq<RowModel>),
    Candidates(Seq<ForeignKeyValueView>),
    Done,
}

impl View for Reply {
    type V = ReplyView;

    open spec fn view(&self) -> ReplyView {
        match self {
            Reply::Names(names) => ReplyView::Names(names.deep_view()),
            Reply::Description { columns, foreign_keys } => ReplyView::Description {
                columns: columns.deep_view(),
                foreign_keys: foreign_keys@,
            },
            Reply::Rows(rows) => ReplyView::Rows(decoded_view(rows@)),
            Reply::Candidates(list) => ReplyView::Candidates(candidates_view(list@)),
            Reply::Done => ReplyView::Done,
        }
    }
}

/// What the caller is to do next.
#[derive(Debug, PartialEq, Eq)]
pub enum Action {
    /// Send the statement and report the rows it returns.
    Fetch(Statement),
    /// Send the statement and report that it ran.
    Execute(Statement),
    /// Hand the reply to whoever asked.
    Finish(Reply),
    /// Hand the error to whoever asked.
    Fail(DbError),
}

/// The mathematical form of an [`Action`].
pub enum ActionView {
    Fetch(StatementView),
    Execute(StatementView),
    Finish(ReplyView),
    Fail(DbErrorView),
}

impl View for Action {
    type V = ActionView;

    open spec fn view(&self) -> ActionView {
        match self {
            Action::Fetch(statement) => ActionView::Fetch(statement@),
            Action::Execute(statement) => ActionView::Execute(statement@),
            Action::Finish(reply) => ActionView::Finish(reply@),
            Action::Fail(error) => ActionView::Fail(error@),
        }
    }
}

/// What came back for the statement last sent.
#[derive(Debug, PartialEq, Eq)]
pub enum Event {
    /// The rows that a fetch returned.
    Rows(Vec<RawRow>),
    /// The statement ran.
    Executed,
    /// The database reported a failure; the text is its own.
    Failed(String),
}

/// The mathematical form of an [`Event`].
pub enum EventView {
    Rows(Seq<Seq<RawCellView>>),
    Executed,
    Failed(Seq<char>),
}

impl View for Event {
    type V = EventView;

    open spec fn view(&self) -> EventView {
        match self {
            Event::Rows(rows) => EventView::Rows(rows_view(rows@)),
            Event::Executed => EventView::Executed,
            Event::Failed(reason) => EventView::Failed(reason@),
        }
    }
}

/// An operation under way: what was asked, what it waits for, and what
/// it has learned of the schema so far.
#[derive(Debug, PartialEq, Eq)]
pub struct Operation {
    pub request: Request,
    pub phase: Phase,
    /// The tables of the connected schema, once fetched.
    pub tables: Vec<String>,
    /// The columns of the target table, once fetched.
    pub columns: Vec<String>,
    /// The key constraints of the target table, once fetched.
    pub constraints: Vec<Constraint>,
    /// The lookups made so far, one for each constraint in turn.
    pub lookups: Vec<Lookup>,
}

/// The mathematical form of an [`Operation`].
pub struct OperationView {
    pub request: RequestView,
    pub phase: Phase,
    pub tables: Seq<Seq<char>>,
    pub columns: Seq<Seq<char>>,
    pub constraints: Seq<ConstraintView>,
    pub lookups: Seq<Option<Seq<Seq<char>>>>,
}

impl View for Operation {
    type V = OperationView;

    open spec fn view(&self) -> OperationView {
        OperationView {
            request: self.request@,
            phase: self.phase,
            tables: self.tables.deep_view(),
            columns: self.columns.deep_view(),
            constraints: constraints_view(self.constraints@),
            lookups: lookups_view(self.lookups@),
        }
    }
}

/// The reason given when an event does not answer the statement that
/// the operation last asked for.
pub open spec fn unexpected_reason() -> Seq<char> {
    "event does not answer the pending statement"@
}

/// The statement that lists the columns of `table`.
pub open spec fn columns_statement(table: Seq<char>) -> StatementView {
    StatementView { sql: columns_sql(), params: seq![BindParamView::Text(table)] }
}

/// The statement that lists the key constraints of `table`.
pub open spec fn foreign_keys_statement(table: Seq<char>) -> StatementView {
    StatementView { sql: foreign_keys_sql(), params: seq![BindParamView::Text(table)] }
}

/// An operation on `request` in the given phase, with nothing learned.
pub open spec fn blank(request: RequestView, phase: Phase) -> OperationView {
    OperationView {
        request,
        phase,
        tables: Seq::empty(),
        columns: Seq::empty(),
        constraints: Seq::empty(),
        lookups: Seq::empty(),
    }
}

/// The operation ends with an error.
pub open spec fn fail(op: OperationView, error: DbErrorView) -> (OperationView, ActionView) {
    (blank(op.request, Phase::Finished), ActionView::Fail(error))
}

/// The operation ends with a reply.
pub open spec fn finish(op: OperationView, reply: ReplyView) -> (OperationView, ActionView) {
    (blank(op.request, Phase::Finished), ActionView::Finish(reply))
}

/// The operation asks for rows and waits in `phase`.
pub open spec fn fetch(op: OperationView, phase: Phase, statement: StatementView) -> (
    OperationView,
    ActionView,
) {
    (OperationView { phase, ..op }, ActionView::Fetch(statement))
}

/// The operation sends the statement that a builder gave, or ends with
/// the builder's refusal.
pub open spec fn ask(
    op: OperationView,
    phase: Phase,
    outcome: Result<StatementView, DbErrorView>,
) -> (OperationView, ActionView) {
    match outcome {
        Err(error) => fail(op, error),
        Ok(statement) => (
            OperationView { phase, ..op },
            if phase == Phase::Execution {
                ActionView::Execute(statement)
            } else {
                ActionView::Fetch(statement)
            },
        ),
    }
}

/// The table whose name a request writes into statement text, if any.
pub open spec fn target_table(request: RequestView) -> Option<Seq<char>> {
    match request {
        RequestView::TableNames => None,
        RequestView::TableColumns { table } => Some(table),
        RequestView::ForeignKeyValues { key } => Some(key.referenced_table),
        RequestView::TableContent { table } => Some(table),
        RequestView::Fields { table } => Some(table),
        RequestView::Insert { table, .. } => Some(table),
        RequestView::Update { table, .. } => Some(table),
        RequestView::Delete { table, .. } => Some(table),
    }
}

/// How an operation begins. Without a connection it fails at once, and
/// so does an insert or update of no column; no statement is sent for
/// them. Every other operation asks for the tables of the schema.
pub open spec fn started(request: RequestView, connected: bool) -> (OperationView, ActionView) {
    let op = blank(request, Phase::Tables);
    if !connected {
        fail(op, DbErrorView::NotConnected)
    } else {
        match request {
            RequestView::Insert { record, .. } if record.len() == 0 => fail(
                op,
                DbErrorView::EmptyInsert,
            ),
            RequestView::Update { record, .. } if record.len() == 0 => fail(
                op,
                DbErrorView::EmptyUpdate,
            ),
            _ => (op, ActionView::Fetch(plain(table_names_sql()))),
        }
    }
}

/// What follows once the tables are known: the table of the request
/// is checked against them before anything is asked about it.
pub open spec fn after_tables(op: OperationView) -> (OperationView, ActionView) {
    match target_table(op.request) {
        None => finish(op, ReplyView::Names(op.tables)),
        Some(table) => if !op.tables.contains(table) {
            fail(op, DbErrorView::UnknownTable(table))
        } else {
            match op.request {
                RequestView::TableContent { .. } => fetch(
                    op,
                    Phase::Constraints,
                    foreign_keys_statement(table),
                ),
                RequestView::Fields { .. } => ask(op, Phase::Rows, fields_outcome(table, op.tables)),
                _ => fetch(op, Phase::Columns, columns_statement(table)),
            }
        },
    }
}

/// What follows once the columns of the target table are known.
pub open spec fn after_columns(op: OperationView) -> (OperationView, ActionView) {
    match op.request {
        RequestView::TableColumns { table } => fetch(
            op,
            Phase::Constraints,
            foreign_keys_statement(table),
        ),
        RequestView::ForeignKeyValues { key } => ask(
            op,
            Phase::Rows,
            candidates_outcome(key, op.tables, op.columns),
        ),
        RequestView::Insert { table, record } => ask(
            op,
            Phase::Execution,
            insert_outcome(table, record, op.tables, op.columns),
        ),
        RequestView::Update { table, record_id, key_column, record } => ask(
            op,
            Phase::Execution,
            update_outcome(table, record_id, key_column, record, op.tables, op.columns),
        ),
        RequestView::Delete { table, record_id, key_column } => ask(
            op,
            Phase::Execution,
            delete_outcome(table, record_id, key_column, op.tables, op.columns),
        ),
        _ => fail(op, DbErrorView::Query(unexpected_reason())),
    }
}

/// The foreign keys that an operation has learned: those of its
/// constraints, each with the lookup made for it.
pub open spec fn keys_of(op: OperationView) -> Seq<(Seq<char>, ForeignKeyInfoView)> {
    foreign_keys_of(op.constraints, op.lookups, op.constraints.len())
}

/// What follows once a lookup was made for every constraint.
pub open spec fn after_keys(op: OperationView) -> (OperationView, ActionView) {
    match op.request {
        RequestView::TableColumns { .. } => finish(
            op,
            ReplyView::Description { columns: op.columns, foreign_keys: keys_of(op) },
        ),
        RequestView::TableContent { table } => ask(
            op,
            Phase::Rows,
            content_outcome(table, op.tables, keys_of(op)),
        ),
        _ => fail(op, DbErrorView::Query(unexpected_reason())),
    }
}

/// The next lookup: the columns of the table that the next constraint
/// references are asked for. Where a lookup was made for every
/// constraint, the keys are done.
pub open spec fn resolve_next(op: OperationView) -> (OperationView, ActionView) {
    if op.lookups.len() < op.constraints.len() {
        fetch(
            op,
            Phase::Referenced,
            columns_statement(op.constraints[op.lookups.len() as int].referenced_table),
        )
    } else {
        after_keys(op)
    }
}

/// A lookup joins those made, as the one for the next constraint.
pub open spec fn resolved_with(op: OperationView, lookup: Option<Seq<Seq<char>>>) -> (
    OperationView,
    ActionView,
) {
    resolve_next(OperationView { lookups: op.lookups.push(lookup), ..op })
}

/// What follows once the rows of the final select are in.
pub open spec fn after_rows(op: OperationView, rows: Seq<Seq<RawCellView>>) -> (
    OperationView,
    ActionView,
) {
    match op.request {
        RequestView::TableContent { .. } => match decoded_rows(rows, rows.len()) {
            Err(error) => fail(op, error),
            Ok(decoded) => finish(op, ReplyView::Rows(decoded)),
        },
        RequestView::Fields { .. } => match texts_named(rows, "Field"@, rows.len()) {
            Err(error) => fail(op, error),
            Ok(names) => finish(op, ReplyView::Names(names)),
        },
        RequestView::ForeignKeyValues { .. } => match candidates_of(rows, rows.len()) {
            Err(error) => fail(op, error),
            Ok(list) => finish(op, ReplyView::Candidates(list)),
        },
        _ => fail(op, DbErrorView::Query(unexpected_reason())),
    }
}

/// The step of an operation: from where it stands and what came back
/// to where it stands next and what the caller is to do.
///
/// A failure reported by the database ends the operation with that
/// failure, except while a descriptive column is looked up: there the
/// referenced column takes its place and the operation goes on. An
/// event that cannot answer the pending statement ends the operation.
pub open spec fn next(op: OperationView, event: EventView) -> (OperationView, ActionView) {
    match op.phase {
        Phase::Tables => match event {
            EventView::Rows(rows) => match texts_at(rows, 0, rows.len()) {
                Err(error) => fail(op, error),
                Ok(tables) => after_tables(OperationView { tables, ..op }),
            },
            EventView::Failed(reason) => fail(op, DbErrorView::Query(reason)),
            EventView::Executed => fail(op, DbErrorView::Query(unexpected_reason())),
        },
        Phase::Columns => match event {
            EventView::Rows(rows) => match texts_at(rows, 0, rows.len()) {
                Err(error) => fail(op, error),
                Ok(columns) => after_columns(OperationView { columns, ..op }),
            },
            EventView::Failed(reason) => fail(op, DbErrorView::Query(reason)),
            EventView::Executed => fail(op, DbErrorView::Query(unexpected_reason())),
        },
        Phase::Constraints => match event {
            EventView::Rows(rows) => match constraints_of(rows, rows.len()) {
                Err(error) => fail(op, error),
                Ok(constraints) => resolve_next(
                    OperationView { constraints, lookups: Seq::empty(), ..op },
                ),
            },
            EventView::Failed(reason) => fail(op, DbErrorView::Query(reason)),
            EventView::Executed => fail(op, DbErrorView::Query(unexpected_reason())),
        },
        Phase::Referenced => if op.lookups.len() >= op.constraints.len() {
            fail(op, DbErrorView::Query(unexpected_reason()))
        } else {
            match event {
                EventView::Rows(rows) => resolved_with(
                    op,
                    match texts_at(rows, 0, rows.len()) {
                        Ok(columns) => Some(columns),
                        Err(_) => None,
                    },
                ),
                EventView::Failed(_) => resolved_with(op, None),
                EventView::Executed => fail(op, DbErrorView::Query(unexpected_reason())),
            }
        },
        Phase::Rows => match event {
            EventView::Rows(rows) => after_rows(op, rows),
            EventView::Failed(reason) => fail(op, DbErrorView::Query(reason)),
            EventView::Executed => fail(op, DbErrorView::Query(unexpected_reason())),
        },
        Phase::Execution => match event {
            EventView::Executed => finish(op, ReplyView::Done),
            EventView::Failed(reason) => fail(op, DbErrorView::Query(reason)),
            EventView::Rows(_) => fail(op, DbErrorView::Query(unexpected_reason())),
        },
        Phase::Finished => fail(op, DbErrorView::Query(unexpected_reason())),
    }
}

/// An operation with what it tells the caller to do, in mathematical
/// form.
pub open spec fn turn_view(turn: (Operation, Action)) -> (OperationView, ActionView) {
    (turn.0@, turn.1@)
}

/// The error for an event that cannot answer the pending statement.
fn unexpected() -> (error: DbError)
    ensures
        error@ == DbErrorView::Query(unexpected_reason()),
{
    DbError::Query(String::from_str("event does not answer the pending statement"))
}

/// The table whose name a request writes into statement text, if any.
fn target_of(request: &Request) -> (target: Option<&String>)
    ensures
        match target {
            Some(table) => target_table(request@) == Some(table@),
            None => target_table(request@) is None,
        },
{
    match request {
        Request::TableNames => None,
        Request::TableColumns { table } => Some(table),
        Request::ForeignKeyValues { key } => Some(&key.referenced_table),
        Request::TableContent { table } => Some(table),
        Request::Fields { table } => Some(table),
        Request::Insert { table, .. } => Some(table),
        Request::Update { table, .. } => Some(table),
        Request::Delete { table, .. } => Some(table),
    }
}

impl Operation {
    /// An operation on `request` in the given phase, with nothing
    /// learned.
    fn blank(request: Request, phase: Phase) -> (op: Operation)
        ensures
            op@ == blank(request@, phase),
    {
        let op = Operation {
            request,
            phase,
            tables: Vec::new(),
            columns: Vec::new(),
            constraints: Vec::new(),
            lookups: Vec::new(),
        };
        assert(op.tables.deep_view() =~= Seq::<Seq<char>>::empty());
        assert(op.columns.deep_view() =~= Seq::<Seq<char>>::empty());
        assert(constraints_view(op.constraints@) =~= Seq::<ConstraintView>::empty());
        assert(lookups_view(op.lookups@) =~= Seq::<Option<Seq<Seq<char>>>>::empty());
        op
    }

    /// Ends the operation with an error.
    fn fail(self, error: DbError) -> (turn: (Operation, Action))
        ensures
            turn_view(turn) == fail(self@, error@),
    {
        (Operation::blank(self.request, Phase::Finished), Action::Fail(error))
    }

    /// Ends the operation with a reply.
    fn finish(self, reply: Reply) -> (turn: (Operation, Action))
        ensures
            turn_view(turn) == finish(self@, reply@),
    {
        (Operation::blank(self.request, Phase::Finished), Action::Finish(reply))
    }

    /// Ends the operation with what a reader gave.
    fn conclude(self, outcome: Result<Reply, DbError>) -> (turn: (Operation, Action))
        ensures
            turn_view(turn) == match outcome {
                Ok(reply) => finish(self@, reply@),
                Err(error) => fail(self@, error@),
            },
    {
        match outcome {
            Ok(reply) => self.finish(reply),
            Err(error) => self.fail(error),
        }
    }

    /// Sends the statement that a builder gave, or ends with the
    /// builder's refusal.
    fn ask(self, phase: Phase, outcome: Result<Statement, DbError>) -> (turn: (Operation, Action))
        ensures
            turn_view(turn) == ask(self@, phase, outcome_view(outcome)),
    {
        match outcome {
            Err(error) => self.fail(error),
            Ok(statement) => {
                let mut op = self;
                op.phase = phase;
                match phase {
                    Phase::Execution => (op, Action::Execute(statement)),
                    _ => (op, Action::Fetch(statement)),
                }
            },
        }
    }

    /// Goes on once the tables are known.
    fn after_tables(self) -> (turn: (Operation, Action))
        ensures
            turn_view(turn) == after_tables(self@),
    {
        let checked = match target_of(&self.request) {
            None => None,
            Some(table) => Some(check_table(table.as_str(), &self.tables)),
        };
        match checked {
            None => {
                let mut op = self;
                let mut tables: Vec<String> = Vec::new();
                std::mem::swap(&mut tables, &mut op.tables);
                op.finish(Reply::Names(tables))
            },
            Some(Err(error)) => self.fail(error),
            Some(Ok(_)) => {
                let next = match &self.request {
                    Request::TableNames => (Phase::Finished, Err(unexpected())),
                    Request::TableContent { table } => (
                        Phase::Constraints,
                        Ok(foreign_keys_query(table.as_str())),
                    ),
                    Request::Fields { table } => (
                        Phase::Rows,
                        fields_query(table.as_str(), &self.tables),
                    ),
                    Request::TableColumns { table } => (
                        Phase::Columns,
                        Ok(columns_query(table.as_str())),
                    ),
                    Request::ForeignKeyValues { key } => (
                        Phase::Columns,
                        Ok(columns_query(key.referenced_table.as_str())),
                    ),
                    Request::Insert { table, .. } => (
                        Phase::Columns,
                        Ok(columns_query(table.as_str())),
                    ),
                    Request::Update { table, .. } => (
                        Phase::Columns,
                        Ok(columns_query(table.as_str())),
                    ),
                    Request::Delete { table, .. } => (
                        Phase::Columns,
                        Ok(columns_query(table.as_str())),
                    ),
                };
                self.ask(next.0, next.1)
            },
        }
    }

    /// Goes on once the columns of the target table are known.
    fn after_columns(self) -> (turn: (Operation, Action))
        ensures
            turn_view(turn) == after_columns(self@),
    {
        let next = match &self.request {
            Request::TableColumns { table } => (
                Phase::Constraints,
                Ok(foreign_keys_query(table.as_str())),
            ),
            Request::ForeignKeyValues { key } => (
                Phase::Rows,
                candidates_query(key, &self.tables, &self.columns),
            ),
            Request::Insert { table, record } => (
                Phase::Execution,
                insert_statement(table.as_str(), record, &self.tables, &self.columns),
            ),
            Request::Update { table, record_id, key_column, record } => (
                Phase::Execution,
                update_statement(
                    table.as_str(),
                    record_id.as_str(),
                    key_column.as_str(),
                    record,
                    &self.tables,
                    &self.columns,
                ),
            ),
            Request::Delete { table, record_id, key_column } => (
                Phase::Execution,
                delete_statement(
                    table.as_str(),
                    record_id.as_str(),
                    key_column.as_str(),
                    &self.tables,
                    &self.columns,
                ),
            ),
            _ => (Phase::Finished, Err(unexpected())),
        };
        self.ask(next.0, next.1)
    }

    /// Goes on once a lookup was made for every constraint.
    fn after_keys(self) -> (turn: (Operation, Action))
        ensures
            turn_view(turn) == after_keys(self@),
    {
        match &self.request {
            Request::TableColumns { .. } => {
                let foreign_keys = get_foreign_keys(&self.constraints, &self.lookups);
                let mut op = self;
                let mut columns: Vec<String> = Vec::new();
                std::mem::swap(&mut columns, &mut op.columns);
                op.finish(Reply::Description { columns, foreign_keys })
            },
            Request::TableContent { table } => {
                let keys = get_foreign_keys(&self.constraints, &self.lookups);
                let outcome = content_query(table.as_str(), &self.tables, &keys);
                self.ask(Phase::Rows, outcome)
            },
            _ => self.fail(unexpected()),
        }
    }

    /// Asks for the columns of the table that the next constraint
    /// references, or goes on where none is left.
    fn resolve_next(self) -> (turn: (Operation, Action))
        ensures
            turn_view(turn) == resolve_next(self@),
    {
        let done = self.lookups.len();
        if done < self.constraints.len() {
            assert(constraints_view(self.constraints@)[done as int] == self.constraints@[done as int]@);
            let statement = columns_query(self.constraints[done].referenced_table.as_str());
            self.ask(Phase::Referenced, Ok(statement))
        } else {
            self.after_keys()
        }
    }

    /// Adds a lookup to those made.
    fn resolved_with(self, lookup: Lookup) -> (turn: (Operation, Action))
        ensures
            turn_view(turn) == resolved_with(self@, lookup_view(lookup)),
    {
        let mut op = self;
        let ghost before = lookups_view(op.lookups@);
        op.lookups.push(lookup);
        assert(lookups_view(op.lookups@) =~= before.push(lookup_view(lookup)));
        op.resolve_next()
    }

    /// Goes on once the rows of the final select are in.
    fn after_rows(self, rows: Vec<RawRow>) -> (turn: (Operation, Action))
        ensures
            turn_view(turn) == after_rows(self@, rows_view(rows@)),
    {
        let outcome = match &self.request {
            Request::TableContent { .. } => match rows_to_json(&rows) {
                Ok(decoded) => Ok(Reply::Rows(decoded)),
                Err(error) => Err(error),
            },
            Request::Fields { .. } => match read_names_named(&rows, "Field") {
                Ok(names) => Ok(Reply::Names(names)),
                Err(error) => Err(error),
            },
            Request::ForeignKeyValues { .. } => match read_candidates(&rows) {
                Ok(list) => Ok(Reply::Candidates(list)),
                Err(error) => Err(error),
            },
            _ => Err(unexpected()),
        };
        self.conclude(outcome)
    }

    /// Begins an operation. `connected` says whether a connection is
    /// set.
    pub fn start(request: Request, connected: bool) -> (turn: (Operation, Action))
        ensures
            turn_view(turn) == started(request@, connected),
    {
        let op = Operation::blank(request, Phase::Tables);
        if !connected {
            return op.fail(DbError::NotConnected);
        }
        let refusal = match &op.request {
            Request::Insert { record, .. } => if record.is_empty() {
                Some(DbError::EmptyInsert)
            } else {
                None
            },
            Request::Update { record, .. } => if record.is_empty() {
                Some(DbError::EmptyUpdate)
            } else {
                None
            },
            _ => None,
        };
        match refusal {
            Some(error) => op.fail(error),
            None => (op, Action::Fetch(table_names_query())),
        }
    }

    /// Takes the operation one step on: `event` is what came back for
    /// the statement that the operation last asked for.
    pub fn advance(self, event: Event) -> (turn: (Operation, Action))
        ensures
            turn_view(turn) == next(self@, event@),
    {
        match self.phase {
            Phase::Tables => match event {
                Event::Rows(rows) => match read_names_at(&rows, 0) {
                    Err(error) => self.fail(error),
                    Ok(tables) => {
                        let mut op = self;
                        op.tables = tables;
                        op.after_tables()
                    },
                },
                Event::Failed(reason) => self.fail(DbError::Query(reason)),
                Event::Executed => self.fail(unexpected()),
            },
            Phase::Columns => match event {
                Event::Rows(rows) => match read_names_at(&rows, 0) {
                    Err(error) => self.fail(error),
                    Ok(columns) => {
                        let mut op = self;
                        op.columns = columns;
                        op.after_columns()
                    },
                },
                Event::Failed(reason) => self.fail(DbError::Query(reason)),
                Event::Executed => self.fail(unexpected()),
            },
            Phase::Constraints => match event {
                Event::Rows(rows) => match read_constraints(&rows) {
                    Err(error) => self.fail(error),
                    Ok(constraints) => {
                        let mut op = self;
                        op.constraints = constraints;
                        op.lookups = Vec::new();
                        assert(lookups_view(op.lookups@) =~= Seq::<
                            Option<Seq<Seq<char>>>,
                        >::empty());
                        op.resolve_next()
                    },
                },
                Event::Failed(reason) => self.fail(DbError::Query(reason)),
                Event::Executed => self.fail(unexpected()),
            },
            Phase::Referenced => if self.lookups.len() >= self.constraints.len() {
                self.fail(unexpected())
            } else {
                match event {
                    Event::Rows(rows) => {
                        let lookup = match read_names_at(&rows, 0) {
                            Ok(columns) => Some(columns),
                            Err(_) => None,
                        };
                        self.resolved_with(lookup)
                    },
                    Event::Failed(_) => self.resolved_with(None),
                    Event::Executed => self.fail(unexpected()),
                }
            },
            Phase::Rows => match event {
                Event::Rows(rows) => self.after_rows(rows),
                Event::Failed(reason) => self.fail(DbError::Query(reason)),
                Event::Executed => self.fail(unexpected()),
            },
            Phase::Execution => match event {
                Event::Executed => self.finish(Reply::Done),
                Event::Failed(reason) => self.fail(DbError::Query(reason)),
                Event::Rows(_) => self.fail(unexpected()),
            },
            Phase::Finished => self.fail(unexpected()),
        }
    }
}

/// Begins listing the tables of the connected schema.
pub fn get_table_names(connected: bool) -> (turn: (Operation, Action))
    ensures
        turn_view(turn) == started(RequestView::TableNames, connected),
{
    Operation::start(Request::TableNames, connected)
}

/// Begins describing a table: its columns in declaration order and its
/// foreign keys.
pub fn get_table_columns(table_name: String, connected: bool) -> (turn: (Operation, Action))
    ensures
        turn_view(turn) == started(RequestView::TableColumns { table: table_name@ }, connected),
{
    Operation::start(Request::TableColumns { table: table_name }, connected)
}

/// Begins listing the candidate rows of a foreign key.
pub fn get_foreign_key_values(fk_info: ForeignKeyInfo, connected: bool) -> (turn: (
    Operation,
    Action,
))
    ensures
        turn_view(turn) == started(RequestView::ForeignKeyValues { key: fk_info@ }, connected),
{
    Operation::start(Request::ForeignKeyValues { key: fk_info }, connected)
}

/// Begins fetching all rows of a table, foreign keys resolved.
pub fn get_table_content(table_name: String, connected: bool) -> (turn: (Operation, Action))
    ensures
        turn_view(turn) == started(RequestView::TableContent { table: table_name@ }, connected),
{
    Operation::start(Request::TableContent { table: table_name }, connected)
}

/// Begins listing the field names of a table.
pub fn get_fields_from_table(table_name: String, connected: bool) -> (turn: (Operation, Action))
    ensures
        turn_view(turn) == started(RequestView::Fields { table: table_name@ }, connected),
{
    Operation::start(Request::Fields { table: table_name }, connected)
}

/// Begins inserting a record into a table.
pub fn insert_record(table_name: String, record: Record, connected: bool) -> (turn: (
    Operation,
    Action,
))
    ensures
        turn_view(turn) == started(
            RequestView::Insert { table: table_name@, record: record@ },
            connected,
        ),
{
    Operation::start(Request::Insert { table: table_name, record }, connected)
}

/// Begins updating the row of a table whose primary-key column holds
/// the identifier.
pub fn update_record(
    table_name: String,
    record_id: String,
    primary_key_column: String,
    updated_record: Record,
    connected: bool,
) -> (turn: (Operation, Action))
    ensures
        turn_view(turn) == started(
            RequestView::Update {
                table: table_name@,
                record_id: record_id@,
                key_column: primary_key_column@,
                record: updated_record@,
            },
            connected,
        ),
{
    Operation::start(
        Request::Update {
            table: table_name,
            record_id,
            key_column: primary_key_column,
            record: updated_record,
        },
        connected,
    )
}

/// Begins deleting the row of a table whose primary-key column holds
/// the identifier.
pub fn delete_record(
    table_name: String,
    record_id: String,
    primary_key_column: String,
    connected: bool,
) -> (turn: (Operation, Action))
    ensures
        turn_view(turn) == started(
            RequestView::Delete {
                table: table_name@,
                record_id: record_id@,
                key_column: primary_key_column@,
            },
            connected,
        ),
{
    Operation::start(
        Request::Delete { table: table_name, record_id, key_column: primary_key_column },
        connected,
    )
}

/// The statement an action carries, if it carries one.
pub open spec fn statement_of(action: ActionView) -> Option<StatementView> {
    match action {
        ActionView::Fetch(statement) => Some(statement),
        ActionView::Execute(statement) => Some(statement),
        _ => None,
    }
}

/// Whether a statement may be sent for an operation, given the tables,
/// columns and keys it has learned: either its text is one of the three
/// catalog texts, into which no name is written, or it is what the
/// builder for the request gives from those freshly fetched names.
pub open spec fn is_validated(op: OperationView, statement: StatementView) -> bool {
    ||| statement.sql == table_names_sql()
    ||| statement.sql == columns_sql()
    ||| statement.sql == foreign_keys_sql()
    ||| match op.request {
        RequestView::TableNames => false,
        RequestView::TableColumns { .. } => false,
        RequestView::TableContent { table } => content_outcome(table, op.tables, keys_of(op))
            == Ok::<StatementView, DbErrorView>(statement),
        RequestView::Fields { table } => fields_outcome(table, op.tables) == Ok::<
            StatementView,
            DbErrorView,
        >(statement),
        RequestView::ForeignKeyValues { key } => candidates_outcome(key, op.tables, op.columns)
            == Ok::<StatementView, DbErrorView>(statement),
        RequestView::Insert { table, record } => insert_outcome(
            table,
            record,
            op.tables,
            op.columns,
        ) == Ok::<StatementView, DbErrorView>(statement),
        RequestView::Update { table, record_id, key_column, record } => update_outcome(
            table,
            record_id,
            key_column,
            record,
            op.tables,
            op.columns,
        ) == Ok::<StatementView, DbErrorView>(statement),
        RequestView::Delete { table, record_id, key_column } => delete_outcome(
            table,
            record_id,
            key_column,
            op.tables,
            op.columns,
        ) == Ok::<StatementView, DbErrorView>(statement),
    }
}

/// An operation begins without writing any name into statement text:
/// it asks for the tables of the schema, or fails. Without a
/// connection, and for an insert or update of no column, it fails and
/// sends nothing.
pub proof fn lemma_start_sends_only_the_table_list(request: RequestView, connected: bool)
    ensures
        ({
            let turn = started(request, connected);
            &&& turn.1 is Fetch || turn.1 is Fail
            &&& turn.1 matches ActionView::Fetch(statement) ==> statement == plain(
                table_names_sql(),
            ) && turn.0.phase == Phase::Tables
            &&& !connected ==> turn.1 == ActionView::Fail(DbErrorView::NotConnected)
            &&& (connected && request is Insert && request->Insert_record.len() == 0) ==> turn.1
                == ActionView::Fail(DbErrorView::EmptyInsert)
            &&& (connected && request is Update && request->Update_record.len() == 0) ==> turn.1
                == ActionView::Fail(DbErrorView::EmptyUpdate)
            &&& turn.1 is Fail ==> turn.0.phase == Phase::Finished
        }),
{
}

/// Every statement that a step sends is validated: no step writes a
/// name into statement text that was not found among the names fetched
/// during this very operation.
pub proof fn lemma_steps_send_only_validated_statements(op: OperationView, event: EventView)
    ensures
        statement_of(next(op, event).1) matches Some(statement) ==> is_validated(
            next(op, event).0,
            statement,
        ),
{
    let turn = next(op, event);
    match op.phase {
        Phase::Tables => {
            if let EventView::Rows(rows) = event {
                if let Ok(tables) = texts_at(rows, 0, rows.len()) {
                    let known = OperationView { tables, ..op };
                    assert(turn == after_tables(known));
                }
            }
        },
        Phase::Columns => {
            if let EventView::Rows(rows) = event {
                if let Ok(columns) = texts_at(rows, 0, rows.len()) {
                    let known = OperationView { columns, ..op };
                    assert(turn == after_columns(known));
                }
            }
        },
        Phase::Constraints => {
            if let EventView::Rows(rows) = event {
                if let Ok(constraints) = constraints_of(rows, rows.len()) {
                    let known = OperationView { constraints, lookups: Seq::empty(), ..op };
                    assert(turn == resolve_next(known));
                }
            }
        },
        _ => {},
    }
}

/// A step that ends the operation leaves it finished, and a finished
/// operation answers every further event with a failure.
pub proof fn lemma_finished_stays_finished(op: OperationView, event: EventView)
    ensures
        next(op, event).1 is Finish || next(op, event).1 is Fail ==> next(op, event).0.phase
            == Phase::Finished,
        op.phase == Phase::Finished ==> next(op, event).1 == ActionView::Fail(
            DbErrorView::Query(unexpected_reason()),
        ),
        next(op, event).0.request == op.request,
{
}

/// A failure that the database reports ends the operation with that
/// failure as a query error, except while a descriptive column is
/// looked up.
pub proof fn lemma_database_failure_is_reported(op: OperationView, reason: Seq<char>)
    requires
        op.phase != Phase::Finished,
        op.phase != Phase::Referenced,
    ensures
        next(op, EventView::Failed(reason)) == fail(op, DbErrorView::Query(reason)),
{
}

/// A failed lookup of a descriptive column does not fail the
/// operation: it goes on, and the key of that constraint is described
/// by its referenced column.
pub proof fn lemma_failed_lookup_degrades(op: OperationView, reason: Seq<char>)
    requires
        op.phase == Phase::Referenced,
        op.lookups.len() < op.constraints.len(),
    ensures
        next(op, EventView::Failed(reason)) == resolved_with(op, None),
        ({
            let constraint = op.constraints[op.lookups.len() as int];
            let key = resolved_key(
                constraint.column_name,
                constraint.referenced_table,
                constraint.referenced_column,
                None,
            );
            key.descriptive_column == constraint.referenced_column
        }),
{
}

/// The columns of a description are the names in the rows that answered
/// the column statement, one per row and in row order: what the
/// database lists in declaration order is handed on in that order, and
/// the same rows give the same columns again. Later steps do not touch
/// them.
pub proof fn lemma_description_keeps_declaration_order(
    op: OperationView,
    rows: Seq<Seq<RawCellView>>,
    later: OperationView,
    event: EventView,
)
    requires
        op.phase == Phase::Columns,
        op.request is TableColumns,
        texts_at(rows, 0, rows.len()) is Ok,
        later.request is TableColumns,
    ensures
        ({
            let columns = texts_at(rows, 0, rows.len())->Ok_0;
            let turn = next(op, EventView::Rows(rows));
            &&& turn.0.columns == columns
            &&& turn.0.phase == Phase::Constraints
            &&& columns.len() == rows.len()
            &&& forall|i: int|
                0 <= i < rows.len() ==> text_at(rows[i], 0) == Ok::<
                    Seq<char>,
                    DbErrorView,
                >(#[trigger] columns[i])
        }),
        (later.phase == Phase::Constraints || later.phase == Phase::Referenced) ==> {
            let turn = next(later, event);
            match turn.1 {
                ActionView::Fetch(_) => turn.0.columns == later.columns,
                ActionView::Finish(reply) => reply is Description && reply->columns
                    == later.columns,
                _ => true,
            }
        },
{
    lemma_names_keep_row_order(rows, 0);
    if later.phase == Phase::Constraints {
        if let EventView::Rows(answer) = event {
            if let Ok(constraints) = constraints_of(answer, answer.len()) {
                let known = OperationView { constraints, lookups: Seq::empty(), ..later };
                assert(next(later, event) == resolve_next(known));
            }
        }
    }
}

} // verus!
