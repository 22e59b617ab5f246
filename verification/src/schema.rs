//! Foreign keys of a table and the column that describes a referenced row
//! to a reader.

use vstd::prelude::*;
use vstd::string::*;
use crate::names::NameMap;
use crate::text::{eq_ignore_ascii_case, matches_ignoring_ascii_case};
use crate::value::{JsonModel, JsonValue};

verus! {

/// The column names that mark a column as descriptive, most wanted first.
pub open spec fn preferred_names() -> Seq<Seq<char>> {
    seq!["name"@, "username"@, "title"@, "label"@, "nazwa"@, "login"@, "tytul"@]
}

/// The first column at or after `start` whose name matches `wanted`
/// without regard to ASCII case.
pub open spec fn first_matching(columns: Seq<Seq<char>>, wanted: Seq<char>, start: int) -> Option<
    Seq<char>,
>
    decreases columns.len() - start,
{
    if start < 0 || start >= columns.len() {
        None
    } else if matches_ignoring_ascii_case(columns[start], wanted) {
        Some(columns[start])
    } else {
        first_matching(columns, wanted, start + 1)
    }
}

/// The column picked by the first preference, at or after `start` in the
/// preference list, that matches any column.
pub open spec fn first_preferred(
    columns: Seq<Seq<char>>,
    preferences: Seq<Seq<char>>,
    start: int,
) -> Option<Seq<char>>
    decreases preferences.len() - start,
{
    if start < 0 || start >= preferences.len() {
        None
    } else {
        match first_matching(columns, preferences[start], 0) {
            Some(column) => Some(column),
            None => first_preferred(columns, preferences, start + 1),
        }
    }
}

/// The column that stands in when no preference matches: the second
/// one, or the only one.
pub open spec fn positional_choice(columns: Seq<Seq<char>>) -> Seq<char>
    recommends
        columns.len() > 0,
{
    if columns.len() >= 2 {
        columns[1]
    } else {
        columns[0]
    }
}

/// The descriptive column of a table with the given columns, in
/// declaration order; none for a table without columns.
pub open spec fn descriptive_column(columns: Seq<Seq<char>>) -> Option<Seq<char>> {
    if columns.len() == 0 {
        None
    } else {
        match first_preferred(columns, preferred_names(), 0) {
            Some(column) => Some(column),
            None => Some(positional_choice(columns)),
        }
    }
}

/// The label under which a resolved foreign key appears in fetched rows.
pub open spec fn join_alias_of(column_name: Seq<char>, descriptive: Seq<char>) -> Seq<char> {
    column_name + "__"@ + descriptive
}

/// Searches `columns` for the first name that matches `wanted` without
/// regard to ASCII case.
fn find_matching(columns: &Vec<String>, wanted: &str) -> (found: Option<usize>)
    ensures
        match found {
            Some(i) => i < columns.len() && first_matching(columns.deep_view(), wanted@, 0)
                == Some(columns@[i as int]@),
            None => first_matching(columns.deep_view(), wanted@, 0) is None,
        },
{
    let mut i: usize = 0;
    while i < columns.len()
        invariant
            i <= columns.len(),
            first_matching(columns.deep_view(), wanted@, 0) == first_matching(
                columns.deep_view(),
                wanted@,
                i as int,
            ),
        decreases columns.len() - i,
    {
        assert(columns.deep_view()[i as int] == columns@[i as int]@);
        if eq_ignore_ascii_case(columns[i].as_str(), wanted) {
            return Some(i);
        }
        i += 1;
    }
    None
}

/// Picks the column that describes a row of a table to a reader.
///
/// The preferred names are tried in order, each against all columns in
/// declaration order and without regard to ASCII case. Where none
/// matches, the second column is taken, or the only one. A table
/// without columns has no descriptive column.
pub fn find_descriptive_column(columns: &Vec<String>) -> (chosen: Option<String>)
    ensures
        match chosen {
            Some(name) => descriptive_column(columns.deep_view()) == Some(name@),
            None => descriptive_column(columns.deep_view()) is None,
        },
        chosen is Some <==> columns.len() > 0,
{
    if columns.len() == 0 {
        return None;
    }
    let preferences: [&str; 7] = ["name", "username", "title", "label", "nazwa", "login", "tytul"];
    assert(preferences@.map_values(|s: &str| s@) =~= preferred_names());
    let mut p: usize = 0;
    while p < 7
        invariant
            p <= 7,
            preferences@.len() == 7,
            preferences@.map_values(|s: &str| s@) == preferred_names(),
            first_preferred(columns.deep_view(), preferred_names(), 0) == first_preferred(
                columns.deep_view(),
                preferred_names(),
                p as int,
            ),
        decreases 7 - p,
    {
        assert(preferred_names()[p as int] == preferences@[p as int]@);
        match find_matching(columns, preferences[p]) {
            Some(i) => {
                return Some(columns[i].clone());
            },
            None => {},
        }
        p += 1;
    }
    assert(columns.deep_view()[0] == columns@[0]@);
    if columns.len() >= 2 {
        assert(columns.deep_view()[1] == columns@[1]@);
        Some(columns[1].clone())
    } else {
        Some(columns[0].clone())
    }
}

/// One outgoing foreign key of a table.
#[derive(Clone, Debug, PartialEq, Eq)]
pub struct ForeignKeyInfo {
    /// The column of the owning table that holds the key.
    pub column_name: String,
    /// The table the key points into.
    pub referenced_table: String,
    /// The column of that table the key points at.
    pub referenced_column: String,
    /// The column of that table shown in place of the key.
    pub descriptive_column: String,
    /// The label of the shown value in fetched rows.
    pub join_alias: String,
}

/// The mathematical form of a [`ForeignKeyInfo`].
pub struct ForeignKeyInfoView {
    pub column_name: Seq<char>,
    pub referenced_table: Seq<char>,
    pub referenced_column: Seq<char>,
    pub descriptive_column: Seq<char>,
    pub join_alias: Seq<char>,
}

impl View for ForeignKeyInfo {
    type V = ForeignKeyInfoView;

    open spec fn view(&self) -> ForeignKeyInfoView {
        ForeignKeyInfoView {
            column_name: self.column_name@,
            referenced_table: self.referenced_table@,
            referenced_column: self.referenced_column@,
            descriptive_column: self.descriptive_column@,
            join_alias: self.join_alias@,
        }
    }
}

/// The foreign key that a constraint row and the column list of the
/// referenced table give. Where the list is missing or empty, the
/// referenced column describes itself.
pub open spec fn resolved_key(
    column_name: Seq<char>,
    referenced_table: Seq<char>,
    referenced_column: Seq<char>,
    referenced_columns: Option<Seq<Seq<char>>>,
) -> ForeignKeyInfoView {
    let descriptive = match referenced_columns {
        Some(columns) => match descriptive_column(columns) {
            Some(name) => name,
            None => referenced_column,
        },
        None => referenced_column,
    };
    ForeignKeyInfoView {
        column_name,
        referenced_table,
        referenced_column,
        descriptive_column: descriptive,
        join_alias: join_alias_of(column_name, descriptive),
    }
}

impl ForeignKeyInfo {
    /// Builds the foreign key of one constraint row.
    ///
    /// `referenced_columns` is the column list of the referenced table,
    /// or `None` where it could not be read; the referenced column then
    /// serves as the descriptive one, as it does for an empty list.
    pub fn resolve(
        column_name: String,
        referenced_table: String,
        referenced_column: String,
        referenced_columns: Option<&Vec<String>>,
    ) -> (info: ForeignKeyInfo)
        ensures
            info@ == resolved_key(
                column_name@,
                referenced_table@,
                referenced_column@,
                match referenced_columns {
                    Some(columns) => Some(columns.deep_view()),
                    None => None,
                },
            ),
    {
        let chosen = match referenced_columns {
            Some(columns) => find_descriptive_column(columns),
            None => None,
        };
        let descriptive_column = match chosen {
            Some(name) => name,
            None => referenced_column.clone(),
        };
        let mut join_alias = column_name.clone();
        join_alias.append("__");
        join_alias.append(descriptive_column.as_str());
        ForeignKeyInfo {
            column_name,
            referenced_table,
            referenced_column,
            descriptive_column,
            join_alias,
        }
    }
}

/// The foreign keys of a table by owning column, in discovery order.
pub type ForeignKeys = NameMap<ForeignKeyInfo>;

/// One candidate row of a referenced table, for a pick-list.
#[derive(Clone, Debug, PartialEq, Eq)]
pub struct ForeignKeyValue {
    /// The value of the referenced column.
    pub id: JsonValue,
    /// The value of the descriptive column.
    pub display: String,
}

/// The mathematical form of a [`ForeignKeyValue`].
pub struct ForeignKeyValueView {
    pub id: JsonModel,
    pub display: Seq<char>,
}

impl View for ForeignKeyValue {
    type V = ForeignKeyValueView;

    open spec fn view(&self) -> ForeignKeyValueView {
        ForeignKeyValueView { id: self.id@, display: self.display@ }
    }
}

/// A column found by name is one of the columns.
pub proof fn lemma_first_matching_is_a_column(
    columns: Seq<Seq<char>>,
    wanted: Seq<char>,
    start: int,
)
    requires
        0 <= start,
        first_matching(columns, wanted, start) is Some,
    ensures
        columns.contains(first_matching(columns, wanted, start)->0),
        matches_ignoring_ascii_case(first_matching(columns, wanted, start)->0, wanted),
    decreases columns.len() - start,
{
    if start < columns.len() {
        if matches_ignoring_ascii_case(columns[start], wanted) {
            assert(columns[start] == first_matching(columns, wanted, start)->0);
        } else {
            lemma_first_matching_is_a_column(columns, wanted, start + 1);
        }
    }
}

/// A column picked by preference is one of the columns.
pub proof fn lemma_first_preferred_is_a_column(
    columns: Seq<Seq<char>>,
    preferences: Seq<Seq<char>>,
    start: int,
)
    requires
        0 <= start,
        first_preferred(columns, preferences, start) is Some,
    ensures
        columns.contains(first_preferred(columns, preferences, start)->0),
    decreases preferences.len() - start,
{
    if start < preferences.len() {
        match first_matching(columns, preferences[start], 0) {
            Some(_) => {
                lemma_first_matching_is_a_column(columns, preferences[start], 0);
            },
            None => {
                lemma_first_preferred_is_a_column(columns, preferences, start + 1);
            },
        }
    }
}

/// The descriptive column of a table is one of its columns, and every
/// table with a column has one.
pub proof fn lemma_descriptive_column_is_a_column(columns: Seq<Seq<char>>)
    requires
        columns.len() > 0,
    ensures
        descriptive_column(columns) is Some,
        columns.contains(descriptive_column(columns)->0),
{
    match first_preferred(columns, preferred_names(), 0) {
        Some(_) => {
            lemma_first_preferred_is_a_column(columns, preferred_names(), 0);
        },
        None => {
            if columns.len() >= 2 {
                assert(columns[1] == positional_choice(columns));
            } else {
                assert(columns[0] == positional_choice(columns));
            }
        },
    }
}

/// Where no column bears a preferred name, the second column describes
/// the table, or the only one.
pub proof fn lemma_descriptive_column_falls_back(columns: Seq<Seq<char>>)
    requires
        columns.len() > 0,
        forall|p: int, c: int|
            0 <= p < preferred_names().len() && 0 <= c < columns.len()
                ==> !matches_ignoring_ascii_case(
                #[trigger] columns[c],
                #[trigger] preferred_names()[p],
            ),
    ensures
        descriptive_column(columns) == Some(positional_choice(columns)),
{
    assert forall|p: int| 0 <= p < preferred_names().len() implies first_matching(
        columns,
        #[trigger] preferred_names()[p],
        0,
    ) is None by {
        lemma_no_match(columns, preferred_names()[p], 0);
    }
    lemma_no_preference(columns, preferred_names(), 0);
}

/// A name that no column matches is not found.
proof fn lemma_no_match(columns: Seq<Seq<char>>, wanted: Seq<char>, start: int)
    requires
        0 <= start,
        forall|c: int|
            0 <= c < columns.len() ==> !matches_ignoring_ascii_case(#[trigger] columns[c], wanted),
    ensures
        first_matching(columns, wanted, start) is None,
    decreases columns.len() - start,
{
    if start < columns.len() {
        lemma_no_match(columns, wanted, start + 1);
    }
}

/// Preferences that find nothing pick nothing.
proof fn lemma_no_preference(columns: Seq<Seq<char>>, preferences: Seq<Seq<char>>, start: int)
    requires
        0 <= start,
        forall|p: int|
            0 <= p < preferences.len() ==> first_matching(columns, #[trigger] preferences[p], 0)
                is None,
    ensures
        first_preferred(columns, preferences, start) is None,
    decreases preferences.len() - start,
{
    if start < preferences.len() {
        lemma_no_preference(columns, preferences, start + 1);
    }
}

/// The join alias of a resolved foreign key is the owning column, two
/// underscores and the descriptive column; and the descriptive column
/// is a column of the referenced table wherever that table's columns
/// were read and are not none.
pub proof fn lemma_resolved_key_alias(
    column_name: Seq<char>,
    referenced_table: Seq<char>,
    referenced_column: Seq<char>,
    referenced_columns: Option<Seq<Seq<char>>>,
)
    ensures
        ({
            let key = resolved_key(
                column_name,
                referenced_table,
                referenced_column,
                referenced_columns,
            );
            &&& key.join_alias == key.column_name + "__"@ + key.descriptive_column
            &&& key.column_name == column_name
            &&& (referenced_columns is Some && referenced_columns->0.len() > 0
                ==> referenced_columns->0.contains(key.descriptive_column))
            &&& (referenced_columns is None ==> key.descriptive_column == referenced_column)
        }),
{
    match referenced_columns {
        Some(columns) => {
            if columns.len() > 0 {
                lemma_descriptive_column_is_a_column(columns);
            }
        },
        None => {},
    }
}

} // verus!
