use datum::catalog::{
    get_foreign_keys, read_candidate, read_candidates, read_constraint, read_constraints, read_names_at,
    read_names_named, read_text, read_text_at, read_text_named, Constraint,
};
use datum::codec::{CellData, CellValue, RawCell, RawRow};
use datum::error::DbError;
use datum::schema::{ForeignKeyInfo, ForeignKeyValue};
use datum::value::{JsonNumber, JsonValue};

const MISMATCH: &str = "cell content does not match its declared type";
const MISSING: &str = "row lacks an expected column";

fn text_cell(name: &str, value: &str) -> RawCell {
    RawCell {
        name: name.to_string(),
        declared_type: "VARCHAR".to_string(),
        data: CellData::Value(CellValue::Text(value.to_string())),
    }
}

fn int_cell(name: &str, value: i64) -> RawCell {
    RawCell {
        name: name.to_string(),
        declared_type: "INT".to_string(),
        data: CellData::Value(CellValue::Integer(value)),
    }
}

fn null_cell(name: &str) -> RawCell {
    RawCell { name: name.to_string(), declared_type: "VARCHAR".to_string(), data: CellData::Null }
}

#[test]
fn text_is_read_from_text_cells_only() {
    assert_eq!(
        read_text(&CellData::Value(CellValue::Text("users".to_string()))),
        Ok("users".to_string())
    );
    assert_eq!(read_text(&CellData::Null), Err(DbError::Decode(MISMATCH.to_string())));
    assert_eq!(
        read_text(&CellData::Value(CellValue::Integer(1))),
        Err(DbError::Decode(MISMATCH.to_string()))
    );
    assert_eq!(
        read_text(&CellData::Undecodable("bad bytes".to_string())),
        Err(DbError::Decode("bad bytes".to_string()))
    );
}

#[test]
fn text_is_found_by_index_and_by_name() {
    let row: RawRow = vec![text_cell("Field", "id"), text_cell("Type", "int"), text_cell("Field", "x")];
    assert_eq!(read_text_at(&row, 0), Ok("id".to_string()));
    assert_eq!(read_text_at(&row, 1), Ok("int".to_string()));
    assert_eq!(read_text_at(&row, 3), Err(DbError::Decode(MISSING.to_string())));
    assert_eq!(read_text_named(&row, "Type"), Ok("int".to_string()));
    // the first cell of that name is the one read
    assert_eq!(read_text_named(&row, "Field"), Ok("id".to_string()));
    assert_eq!(read_text_named(&row, "field"), Err(DbError::Decode(MISSING.to_string())));
}

#[test]
fn names_come_in_row_order() {
    let rows: Vec<RawRow> = vec![
        vec![text_cell("COLUMN_NAME", "id")],
        vec![text_cell("COLUMN_NAME", "login")],
        vec![text_cell("COLUMN_NAME", "email")],
    ];
    let expected = vec!["id".to_string(), "login".to_string(), "email".to_string()];
    assert_eq!(read_names_at(&rows, 0), Ok(expected.clone()));
    // the same rows give the same names again
    assert_eq!(read_names_at(&rows, 0), Ok(expected.clone()));
    assert_eq!(read_names_named(&rows, "COLUMN_NAME"), Ok(expected));
    assert_eq!(read_names_at(&Vec::new(), 0), Ok(vec![]));
}

#[test]
fn names_fail_on_the_first_bad_row() {
    let rows: Vec<RawRow> = vec![
        vec![text_cell("COLUMN_NAME", "id")],
        vec![RawCell {
            name: "COLUMN_NAME".to_string(),
            declared_type: "VARCHAR".to_string(),
            data: CellData::Undecodable("first".to_string()),
        }],
        vec![],
    ];
    assert_eq!(read_names_at(&rows, 0), Err(DbError::Decode("first".to_string())));
    assert_eq!(read_names_named(&rows, "COLUMN_NAME"), Err(DbError::Decode("first".to_string())));
    let rows: Vec<RawRow> = vec![vec![], vec![text_cell("COLUMN_NAME", "id")]];
    assert_eq!(read_names_at(&rows, 0), Err(DbError::Decode(MISSING.to_string())));
}

#[test]
fn constraints_are_read_from_three_cells() {
    let row: RawRow = vec![
        text_cell("COLUMN_NAME", "owner_id"),
        text_cell("REFERENCED_TABLE_NAME", "users"),
        text_cell("REFERENCED_COLUMN_NAME", "id"),
    ];
    let expected = Constraint {
        column_name: "owner_id".to_string(),
        referenced_table: "users".to_string(),
        referenced_column: "id".to_string(),
    };
    assert_eq!(read_constraint(&row), Ok(expected.clone()));
    assert_eq!(read_constraints(&vec![row.clone(), row.clone()]), Ok(vec![expected.clone(), expected]));

    let short: RawRow = vec![text_cell("COLUMN_NAME", "owner_id"), text_cell("T", "users")];
    assert_eq!(read_constraint(&short), Err(DbError::Decode(MISSING.to_string())));
    let null: RawRow =
        vec![text_cell("COLUMN_NAME", "owner_id"), null_cell("T"), text_cell("C", "id")];
    assert_eq!(read_constraint(&null), Err(DbError::Decode(MISMATCH.to_string())));
    assert_eq!(
        read_constraints(&vec![row, null, short]),
        Err(DbError::Decode(MISMATCH.to_string()))
    );
}

#[test]
fn candidates_pair_identifier_and_display() {
    let row: RawRow = vec![int_cell("id", 7), text_cell("display", "ann")];
    let expected = ForeignKeyValue {
        id: JsonValue::Number(JsonNumber::PosInt(7)),
        display: "ann".to_string(),
    };
    assert_eq!(read_candidate(&row), Ok(expected.clone()));

    let textual: RawRow = vec![text_cell("id", "PL"), text_cell("display", "Polska")];
    assert_eq!(
        read_candidates(&vec![row, textual]),
        Ok(vec![
            expected,
            ForeignKeyValue { id: JsonValue::String("PL".to_string()), display: "Polska".to_string() }
        ])
    );
}

#[test]
fn candidates_need_a_display_text() {
    assert_eq!(read_candidate(&vec![]), Err(DbError::Decode(MISSING.to_string())));
    let no_display: RawRow = vec![int_cell("id", 7)];
    assert_eq!(read_candidate(&no_display), Err(DbError::Decode(MISSING.to_string())));
    let null_display: RawRow = vec![int_cell("id", 7), null_cell("display")];
    assert_eq!(read_candidate(&null_display), Err(DbError::Decode(MISMATCH.to_string())));
    // the identifier is decoded before the display text is read
    let both_bad: RawRow = vec![
        RawCell {
            name: "id".to_string(),
            declared_type: "INT".to_string(),
            data: CellData::Undecodable("id first".to_string()),
        },
        null_cell("display"),
    ];
    assert_eq!(read_candidate(&both_bad), Err(DbError::Decode("id first".to_string())));
    // a null identifier is a null, not a failure
    let null_id: RawRow = vec![null_cell("id"), text_cell("display", "nobody")];
    assert_eq!(
        read_candidate(&null_id),
        Ok(ForeignKeyValue { id: JsonValue::Null, display: "nobody".to_string() })
    );
}

fn constraint(column: &str, table: &str, referenced: &str) -> Constraint {
    Constraint {
        column_name: column.to_string(),
        referenced_table: table.to_string(),
        referenced_column: referenced.to_string(),
    }
}

#[test]
fn foreign_keys_are_built_in_discovery_order() {
    let constraints = vec![
        constraint("owner_id", "users", "id"),
        constraint("tag_id", "tags", "tid"),
        constraint("city_id", "cities", "id"),
    ];
    let lookups = vec![
        Some(vec!["id".to_string(), "login".to_string(), "email".to_string()]),
        None,
        Some(vec!["id".to_string(), "code".to_string()]),
    ];
    let keys = get_foreign_keys(&constraints, &lookups);
    assert_eq!(keys.len(), 3);
    assert_eq!(keys.name_at(0), "owner_id");
    assert_eq!(
        keys.value_at(0),
        &ForeignKeyInfo {
            column_name: "owner_id".to_string(),
            referenced_table: "users".to_string(),
            referenced_column: "id".to_string(),
            descriptive_column: "login".to_string(),
            join_alias: "owner_id__login".to_string(),
        }
    );
    assert_eq!(keys.name_at(1), "tag_id");
    assert_eq!(keys.value_at(1).descriptive_column, "tid");
    assert_eq!(keys.value_at(1).join_alias, "tag_id__tid");
    assert_eq!(keys.name_at(2), "city_id");
    assert_eq!(keys.value_at(2).descriptive_column, "code");
    assert_eq!(keys.value_at(2).join_alias, "city_id__code");
}

#[test]
fn foreign_keys_without_lookup_describe_themselves() {
    let constraints = vec![constraint("owner_id", "users", "uid")];
    let keys = get_foreign_keys(&constraints, &Vec::new());
    assert_eq!(keys.len(), 1);
    assert_eq!(keys.value_at(0).descriptive_column, "uid");
    assert_eq!(keys.value_at(0).join_alias, "owner_id__uid");
    assert_eq!(get_foreign_keys(&Vec::new(), &Vec::new()).len(), 0);
}

#[test]
fn later_constraint_on_a_column_replaces_the_earlier() {
    let constraints =
        vec![constraint("owner_id", "users", "id"), constraint("owner_id", "staff", "sid")];
    let lookups = vec![None, Some(vec!["sid".to_string(), "name".to_string()])];
    let keys = get_foreign_keys(&constraints, &lookups);
    assert_eq!(keys.len(), 1);
    assert_eq!(keys.value_at(0).referenced_table, "staff");
    assert_eq!(keys.value_at(0).join_alias, "owner_id__name");
}
