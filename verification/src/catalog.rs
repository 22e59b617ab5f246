//! Reading what the database sends back for the catalog and pick-list
//! statements: names, key constraints and candidate rows.

use vstd::prelude::*;
use vstd::string::*;
use crate::codec::{
    collected,
    decode_cell,
    decoded,
    lemma_collected_rows,
    lemma_failure_stays,
    mismatch_reason,
    row_view,
    rows_view,
    CellData,
    CellDataView,
    CellValue,
    CellValueView,
    RawCellView,
    RawRow,
};
use crate::error::{DbError, DbErrorView};
use crate::names::{
    distinct_names,
    lemma_with_entry_distinct,
    lemma_with_entry_keeps_others,
    position_of,
    with_entry,
    NameMap,
};
use crate::schema::{
    join_alias_of,
    lemma_resolved_key_alias,
    resolved_key,
    ForeignKeyInfo,
    ForeignKeyInfoView,
    ForeignKeyValue,
    ForeignKeyValueView,
    ForeignKeys,
};
use crate::text::same_text;

verus! {

/// The reason given when a row lacks a cell that the reader needs.
pub open spec fn missing_reason() -> Seq<char> {
    "row lacks an expected column"@
}

/// The text in a cell: its content where that was read as text, the
/// driver's reason where it could not be read, a mismatch otherwise.
pub open spec fn text_of(data: CellDataView) -> Result<Seq<char>, DbErrorView> {
    match data {
        CellDataView::Value(CellValueView::Text(text)) => Ok(text),
        CellDataView::Undecodable(reason) => Err(DbErrorView::Decode(reason)),
        _ => Err(DbErrorView::Decode(mismatch_reason())),
    }
}

/// The text in the cell at `index` of a row.
pub open spec fn text_at(row: Seq<RawCellView>, index: int) -> Result<Seq<char>, DbErrorView> {
    if 0 <= index < row.len() {
        text_of(row[index].data)
    } else {
        Err(DbErrorView::Decode(missing_reason()))
    }
}

/// The index of the first cell at or after `start` that is named
/// `name`.
pub open spec fn first_named(row: Seq<RawCellView>, name: Seq<char>, start: int) -> Option<int>
    decreases row.len() - start,
{
    if start < 0 || start >= row.len() {
        None
    } else if row[start].name == name {
        Some(start)
    } else {
        first_named(row, name, start + 1)
    }
}

/// The text in the first cell of a row that is named `name`.
pub open spec fn text_named(row: Seq<RawCellView>, name: Seq<char>) -> Result<
    Seq<char>,
    DbErrorView,
> {
    match first_named(row, name, 0) {
        Some(index) => text_of(row[index].data),
        None => Err(DbErrorView::Decode(missing_reason())),
    }
}

/// The texts in the cells at `index` of the first `count` rows, in row
/// order.
pub open spec fn texts_at(rows: Seq<Seq<RawCellView>>, index: int, count: nat) -> Result<
    Seq<Seq<char>>,
    DbErrorView,
> {
    collected(rows, |row: Seq<RawCellView>| text_at(row, index), count)
}

/// The texts in the cells named `name` of the first `count` rows, in
/// row order.
pub open spec fn texts_named(rows: Seq<Seq<RawCellView>>, name: Seq<char>, count: nat) -> Result<
    Seq<Seq<char>>,
    DbErrorView,
> {
    collected(rows, |row: Seq<RawCellView>| text_named(row, name), count)
}

/// One row of the key catalog: a column of the asked-about table and
/// what it references.
#[derive(Clone, Debug, PartialEq, Eq)]
pub struct Constraint {
    pub column_name: String,
    pub referenced_table: String,
    pub referenced_column: String,
}

/// The mathematical form of a [`Constraint`].
pub struct ConstraintView {
    pub column_name: Seq<char>,
    pub referenced_table: Seq<char>,
    pub referenced_column: Seq<char>,
}

impl View for Constraint {
    type V = ConstraintView;

    open spec fn view(&self) -> ConstraintView {
        ConstraintView {
            column_name: self.column_name@,
            referenced_table: self.referenced_table@,
            referenced_column: self.referenced_column@,
        }
    }
}

/// The mathematical form of a list of constraints.
pub open spec fn constraints_view(list: Seq<Constraint>) -> Seq<ConstraintView> {
    Seq::new(list.len(), |i: int| list[i]@)
}

/// The mathematical form of a list of candidates.
pub open spec fn candidates_view(list: Seq<ForeignKeyValue>) -> Seq<ForeignKeyValueView> {
    Seq::new(list.len(), |i: int| list[i]@)
}

/// The constraint that a row of the key catalog states, in its first
/// three cells.
pub open spec fn constraint_of(row: Seq<RawCellView>) -> Result<ConstraintView, DbErrorView> {
    match text_at(row, 0) {
        Err(error) => Err(error),
        Ok(column_name) => match text_at(row, 1) {
            Err(error) => Err(error),
            Ok(referenced_table) => match text_at(row, 2) {
                Err(error) => Err(error),
                Ok(referenced_column) => Ok(
                    ConstraintView { column_name, referenced_table, referenced_column },
                ),
            },
        },
    }
}

/// The constraints that the first `count` rows state, in row order.
pub open spec fn constraints_of(rows: Seq<Seq<RawCellView>>, count: nat) -> Result<
    Seq<ConstraintView>,
    DbErrorView,
> {
    collected(rows, |row: Seq<RawCellView>| constraint_of(row), count)
}

/// The candidate that a row states: its first cell decoded as the
/// identifier, its cell named `display` as the text to show.
pub open spec fn candidate_of(row: Seq<RawCellView>) -> Result<ForeignKeyValueView, DbErrorView> {
    if row.len() == 0 {
        Err(DbErrorView::Decode(missing_reason()))
    } else {
        match decoded(row[0].declared_type, row[0].data) {
            Err(error) => Err(error),
            Ok(id) => match text_named(row, "display"@) {
                Err(error) => Err(error),
                Ok(display) => Ok(ForeignKeyValueView { id, display }),
            },
        }
    }
}

/// The candidates that the first `count` rows state, in row order.
pub open spec fn candidates_of(rows: Seq<Seq<RawCellView>>, count: nat) -> Result<
    Seq<ForeignKeyValueView>,
    DbErrorView,
> {
    collected(rows, |row: Seq<RawCellView>| candidate_of(row), count)
}

/// What looking up the columns of a referenced table gave: the column
/// names in declaration order, or nothing where the lookup failed.
pub type Lookup = Option<Vec<String>>;

/// The mathematical form of a lookup.
pub open spec fn lookup_view(lookup: Lookup) -> Option<Seq<Seq<char>>> {
    match lookup {
        Some(columns) => Some(columns.deep_view()),
        None => None,
    }
}

/// The mathematical form of a list of lookups.
pub open spec fn lookups_view(lookups: Seq<Lookup>) -> Seq<Option<Seq<Seq<char>>>> {
    Seq::new(lookups.len(), |i: int| lookup_view(lookups[i]))
}

/// The lookup that belongs to the constraint at `index`; a lookup that
/// was never made counts as failed.
pub open spec fn lookup_at(lookups: Seq<Option<Seq<Seq<char>>>>, index: int) -> Option<
    Seq<Seq<char>>,
> {
    if 0 <= index < lookups.len() {
        lookups[index]
    } else {
        None
    }
}

/// The foreign keys that the first `count` constraints give, each with
/// the lookup of its referenced table: keyed by owning column, in
/// discovery order, a later constraint on a column replacing an earlier
/// one.
pub open spec fn foreign_keys_of(
    constraints: Seq<ConstraintView>,
    lookups: Seq<Option<Seq<Seq<char>>>>,
    count: nat,
) -> Seq<(Seq<char>, ForeignKeyInfoView)>
    decreases count,
{
    if count == 0 {
        Seq::empty()
    } else {
        let constraint = constraints[count - 1];
        with_entry(
            foreign_keys_of(constraints, lookups, (count - 1) as nat),
            constraint.column_name,
            resolved_key(
                constraint.column_name,
                constraint.referenced_table,
                constraint.referenced_column,
                lookup_at(lookups, count - 1),
            ),
        )
    }
}

/// What reading a text hands back, in mathematical form.
pub open spec fn text_outcome(r: Result<String, DbError>) -> Result<Seq<char>, DbErrorView> {
    match r {
        Ok(text) => Ok(text@),
        Err(error) => Err(error@),
    }
}

/// What reading names hands back, in mathematical form.
pub open spec fn names_outcome(r: Result<Vec<String>, DbError>) -> Result<
    Seq<Seq<char>>,
    DbErrorView,
> {
    match r {
        Ok(names) => Ok(names.deep_view()),
        Err(error) => Err(error@),
    }
}

/// What reading constraints hands back, in mathematical form.
pub open spec fn constraints_outcome(r: Result<Vec<Constraint>, DbError>) -> Result<
    Seq<ConstraintView>,
    DbErrorView,
> {
    match r {
        Ok(list) => Ok(constraints_view(list@)),
        Err(error) => Err(error@),
    }
}

/// What reading candidates hands back, in mathematical form.
pub open spec fn candidates_outcome_view(r: Result<Vec<ForeignKeyValue>, DbError>) -> Result<
    Seq<ForeignKeyValueView>,
    DbErrorView,
> {
    match r {
        Ok(list) => Ok(candidates_view(list@)),
        Err(error) => Err(error@),
    }
}

/// Reads the text in a cell.
pub fn read_text(data: &CellData) -> (r: Result<String, DbError>)
    ensures
        text_outcome(r) == text_of(data@),
{
    match data {
        CellData::Value(CellValue::Text(text)) => Ok(text.clone()),
        CellData::Undecodable(reason) => Err(DbError::Decode(reason.clone())),
        _ => Err(DbError::Decode(String::from_str("cell content does not match its declared type"))),
    }
}

/// Reads the text in the cell at `index` of a row.
pub fn read_text_at(row: &RawRow, index: usize) -> (r: Result<String, DbError>)
    ensures
        text_outcome(r) == text_at(row_view(row@), index as int),
{
    if index < row.len() {
        assert(row_view(row@)[index as int] == row@[index as int]@);
        read_text(&row[index].data)
    } else {
        Err(DbError::Decode(String::from_str("row lacks an expected column")))
    }
}

/// Reads the text in the first cell of a row that is named `name`.
pub fn read_text_named(row: &RawRow, name: &str) -> (r: Result<String, DbError>)
    ensures
        text_outcome(r) == text_named(row_view(row@), name@),
{
    let mut i: usize = 0;
    while i < row.len()
        invariant
            i <= row@.len(),
            first_named(row_view(row@), name@, 0) == first_named(row_view(row@), name@, i as int),
        decreases row@.len() - i,
    {
        assert(row_view(row@)[i as int] == row@[i as int]@);
        if same_text(row[i].name.as_str(), name) {
            return read_text(&row[i].data);
        }
        i += 1;
    }
    Err(DbError::Decode(String::from_str("row lacks an expected column")))
}

/// Reads the names in the cells at `index` of fetched rows, in row
/// order. One cell that cannot be read fails the whole reading.
pub fn read_names_at(rows: &Vec<RawRow>, index: usize) -> (r: Result<Vec<String>, DbError>)
    ensures
        names_outcome(r) == texts_at(rows_view(rows@), index as int, rows@.len()),
{
    let mut names: Vec<String> = Vec::new();
    assert(names.deep_view() =~= Seq::<Seq<char>>::empty());
    let mut i: usize = 0;
    while i < rows.len()
        invariant
            i <= rows@.len(),
            texts_at(rows_view(rows@), index as int, i as nat) == Ok::<Seq<Seq<char>>, DbErrorView>(
                names.deep_view(),
            ),
        decreases rows@.len() - i,
    {
        assert(rows_view(rows@)[i as int] == row_view(rows@[i as int]@));
        match read_text_at(&rows[i], index) {
            Err(error) => {
                proof {
                    lemma_failure_stays(
                        rows_view(rows@),
                        |row: Seq<RawCellView>| text_at(row, index as int),
                        (i + 1) as nat,
                        rows@.len(),
                    );
                }
                return Err(error);
            },
            Ok(name) => {
                let ghost before = names.deep_view();
                names.push(name);
                assert(names.deep_view() =~= before.push(name@));
            },
        }
        i += 1;
    }
    Ok(names)
}

/// Reads the names in the cells named `name` of fetched rows, in row
/// order. One cell that cannot be read fails the whole reading.
pub fn read_names_named(rows: &Vec<RawRow>, name: &str) -> (r: Result<Vec<String>, DbError>)
    ensures
        names_outcome(r) == texts_named(rows_view(rows@), name@, rows@.len()),
{
    let mut names: Vec<String> = Vec::new();
    assert(names.deep_view() =~= Seq::<Seq<char>>::empty());
    let mut i: usize = 0;
    while i < rows.len()
        invariant
            i <= rows@.len(),
            texts_named(rows_view(rows@), name@, i as nat) == Ok::<Seq<Seq<char>>, DbErrorView>(
                names.deep_view(),
            ),
        decreases rows@.len() - i,
    {
        assert(rows_view(rows@)[i as int] == row_view(rows@[i as int]@));
        match read_text_named(&rows[i], name) {
            Err(error) => {
                proof {
                    lemma_failure_stays(
                        rows_view(rows@),
                        |row: Seq<RawCellView>| text_named(row, name@),
                        (i + 1) as nat,
                        rows@.len(),
                    );
                }
                return Err(error);
            },
            Ok(found) => {
                let ghost before = names.deep_view();
                names.push(found);
                assert(names.deep_view() =~= before.push(found@));
            },
        }
        i += 1;
    }
    Ok(names)
}

/// Reads the constraint that a row of the key catalog states.
pub fn read_constraint(row: &RawRow) -> (r: Result<Constraint, DbError>)
    ensures
        match r {
            Ok(constraint) => constraint_of(row_view(row@)) == Ok::<ConstraintView, DbErrorView>(
                constraint@,
            ),
            Err(error) => constraint_of(row_view(row@)) == Err::<ConstraintView, DbErrorView>(
                error@,
            ),
        },
{
    let column_name = match read_text_at(row, 0) {
        Err(error) => {
            return Err(error);
        },
        Ok(text) => text,
    };
    let referenced_table = match read_text_at(row, 1) {
        Err(error) => {
            return Err(error);
        },
        Ok(text) => text,
    };
    let referenced_column = match read_text_at(row, 2) {
        Err(error) => {
            return Err(error);
        },
        Ok(text) => text,
    };
    Ok(Constraint { column_name, referenced_table, referenced_column })
}

/// Reads the constraints that the rows of the key catalog state, in
/// row order. One row that cannot be read fails the whole reading.
pub fn read_constraints(rows: &Vec<RawRow>) -> (r: Result<Vec<Constraint>, DbError>)
    ensures
        constraints_outcome(r) == constraints_of(rows_view(rows@), rows@.len()),
{
    let mut list: Vec<Constraint> = Vec::new();
    assert(constraints_view(list@) =~= Seq::<ConstraintView>::empty());
    let mut i: usize = 0;
    while i < rows.len()
        invariant
            i <= rows@.len(),
            constraints_of(rows_view(rows@), i as nat) == Ok::<Seq<ConstraintView>, DbErrorView>(
                constraints_view(list@),
            ),
        decreases rows@.len() - i,
    {
        assert(rows_view(rows@)[i as int] == row_view(rows@[i as int]@));
        match read_constraint(&rows[i]) {
            Err(error) => {
                proof {
                    lemma_failure_stays(
                        rows_view(rows@),
                        |row: Seq<RawCellView>| constraint_of(row),
                        (i + 1) as nat,
                        rows@.len(),
                    );
                }
                return Err(error);
            },
            Ok(constraint) => {
                let ghost before = constraints_view(list@);
                list.push(constraint);
                assert(constraints_view(list@) =~= before.push(constraint@));
            },
        }
        i += 1;
    }
    Ok(list)
}

/// Reads the candidate that a row states.
pub fn read_candidate(row: &RawRow) -> (r: Result<ForeignKeyValue, DbError>)
    ensures
        match r {
            Ok(candidate) => candidate_of(row_view(row@)) == Ok::<ForeignKeyValueView, DbErrorView>(
                candidate@,
            ),
            Err(error) => candidate_of(row_view(row@)) == Err::<ForeignKeyValueView, DbErrorView>(
                error@,
            ),
        },
{
    if row.len() == 0 {
        return Err(DbError::Decode(String::from_str("row lacks an expected column")));
    }
    assert(row_view(row@)[0] == row@[0]@);
    let id = match decode_cell(row[0].declared_type.as_str(), &row[0].data) {
        Err(error) => {
            return Err(error);
        },
        Ok(value) => value,
    };
    let display = match read_text_named(row, "display") {
        Err(error) => {
            return Err(error);
        },
        Ok(text) => text,
    };
    Ok(ForeignKeyValue { id, display })
}

/// Reads the candidates that fetched rows state, in row order. One row
/// that cannot be read fails the whole reading.
pub fn read_candidates(rows: &Vec<RawRow>) -> (r: Result<Vec<ForeignKeyValue>, DbError>)
    ensures
        candidates_outcome_view(r) == candidates_of(rows_view(rows@), rows@.len()),
{
    let mut list: Vec<ForeignKeyValue> = Vec::new();
    assert(candidates_view(list@) =~= Seq::<ForeignKeyValueView>::empty());
    let mut i: usize = 0;
    while i < rows.len()
        invariant
            i <= rows@.len(),
            candidates_of(rows_view(rows@), i as nat) == Ok::<
                Seq<ForeignKeyValueView>,
                DbErrorView,
            >(candidates_view(list@)),
        decreases rows@.len() - i,
    {
        assert(rows_view(rows@)[i as int] == row_view(rows@[i as int]@));
        match read_candidate(&rows[i]) {
            Err(error) => {
                proof {
                    lemma_failure_stays(
                        rows_view(rows@),
                        |row: Seq<RawCellView>| candidate_of(row),
                        (i + 1) as nat,
                        rows@.len(),
                    );
                }
                return Err(error);
            },
            Ok(candidate) => {
                let ghost before = candidates_view(list@);
                list.push(candidate);
                assert(candidates_view(list@) =~= before.push(candidate@));
            },
        }
        i += 1;
    }
    Ok(list)
}

/// Builds the foreign keys of a table from the rows of its key catalog
/// and, for each row, the lookup of the referenced table's columns.
///
/// Each key gets its descriptive column from the lookup, or its
/// referenced column where the lookup failed, and its join alias from
/// both.
pub fn get_foreign_keys(constraints: &Vec<Constraint>, lookups: &Vec<Lookup>) -> (keys: ForeignKeys)
    ensures
        keys@ == foreign_keys_of(
            constraints_view(constraints@),
            lookups_view(lookups@),
            constraints@.len(),
        ),
{
    let mut keys: ForeignKeys = NameMap::new();
    let mut i: usize = 0;
    while i < constraints.len()
        invariant
            i <= constraints@.len(),
            keys@ == foreign_keys_of(
                constraints_view(constraints@),
                lookups_view(lookups@),
                i as nat,
            ),
        decreases constraints@.len() - i,
    {
        let constraint = &constraints[i];
        assert(constraints_view(constraints@)[i as int] == constraint@);
        let info = if i < lookups.len() {
            assert(lookups_view(lookups@)[i as int] == lookup_view(lookups@[i as int]));
            ForeignKeyInfo::resolve(
                constraint.column_name.clone(),
                constraint.referenced_table.clone(),
                constraint.referenced_column.clone(),
                match &lookups[i] {
                    Some(columns) => Some(columns),
                    None => None,
                },
            )
        } else {
            ForeignKeyInfo::resolve(
                constraint.column_name.clone(),
                constraint.referenced_table.clone(),
                constraint.referenced_column.clone(),
                None,
            )
        };
        keys.insert(constraint.column_name.clone(), info);
        i += 1;
    }
    keys
}

/// Names read from rows come one per row and in row order: what the
/// database lists in declaration order is handed on in that order.
pub proof fn lemma_names_keep_row_order(rows: Seq<Seq<RawCellView>>, index: int)
    requires
        texts_at(rows, index, rows.len()) is Ok,
    ensures
        texts_at(rows, index, rows.len())->Ok_0.len() == rows.len(),
        forall|i: int|
            0 <= i < rows.len() ==> text_at(rows[i], index) == Ok::<Seq<char>, DbErrorView>(
                #[trigger] texts_at(rows, index, rows.len())->Ok_0[i],
            ),
{
    lemma_collected_rows(rows, |row: Seq<RawCellView>| text_at(row, index), rows.len());
}

/// A foreign key stands under its owning column and is labelled with
/// that column, two underscores and its descriptive column.
pub open spec fn well_labelled(entry: (Seq<char>, ForeignKeyInfoView)) -> bool {
    &&& entry.0 == entry.1.column_name
    &&& entry.1.join_alias == join_alias_of(entry.1.column_name, entry.1.descriptive_column)
}

/// Every constraint of a table gives a foreign key: each owning column
/// has exactly one key, and every key stands under its owning column
/// and is labelled with that column, two underscores and its
/// descriptive column.
pub proof fn lemma_every_constraint_has_a_key(
    constraints: Seq<ConstraintView>,
    lookups: Seq<Option<Seq<Seq<char>>>>,
    count: nat,
)
    requires
        count <= constraints.len(),
    ensures
        distinct_names(foreign_keys_of(constraints, lookups, count)),
        forall|i: int|
            0 <= i < count ==> position_of(
                foreign_keys_of(constraints, lookups, count),
                (#[trigger] constraints[i]).column_name,
            ) is Some,
        forall|k: int|
            0 <= k < foreign_keys_of(constraints, lookups, count).len() ==> well_labelled(
                #[trigger] foreign_keys_of(constraints, lookups, count)[k],
            ),
    decreases count,
{
    if count > 0 {
        let before = foreign_keys_of(constraints, lookups, (count - 1) as nat);
        let constraint = constraints[count - 1];
        let key = resolved_key(
            constraint.column_name,
            constraint.referenced_table,
            constraint.referenced_column,
            lookup_at(lookups, count - 1),
        );
        let after = foreign_keys_of(constraints, lookups, count);
        assert(after == with_entry(before, constraint.column_name, key));
        lemma_every_constraint_has_a_key(constraints, lookups, (count - 1) as nat);
        lemma_with_entry_distinct(before, constraint.column_name, key);
        lemma_with_entry_keeps_others(before, constraint.column_name, key);
        lemma_resolved_key_alias(
            constraint.column_name,
            constraint.referenced_table,
            constraint.referenced_column,
            lookup_at(lookups, count - 1),
        );
        assert forall|k: int| 0 <= k < after.len() implies well_labelled(#[trigger] after[k]) by {
            if after[k] != (constraint.column_name, key) {
                assert(before.contains(after[k]));
                let j = choose|j: int| 0 <= j < before.len() && before[j] == after[k];
                assert(well_labelled(before[j]));
            }
        }
        assert forall|i: int| 0 <= i < count implies position_of(
            after,
            (#[trigger] constraints[i]).column_name,
        ) is Some by {
            if i < count - 1 {
                assert(position_of(before, constraints[i].column_name) is Some);
            }
        }
    }
}

} // verus!
