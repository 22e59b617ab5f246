use datum::schema::{find_descriptive_column, ForeignKeyInfo};

fn names(list: &[&str]) -> Vec<String> {
    list.iter().map(|s| s.to_string()).collect()
}

#[test]
fn descriptive_column_prefers_listed_name() {
    let columns = names(&["id", "login", "email"]);
    assert_eq!(find_descriptive_column(&columns), Some("login".to_string()));
}

#[test]
fn descriptive_column_falls_back_to_second() {
    let columns = names(&["id", "code"]);
    assert_eq!(find_descriptive_column(&columns), Some("code".to_string()));
}

#[test]
fn descriptive_column_of_single_column_table() {
    let columns = names(&["id"]);
    assert_eq!(find_descriptive_column(&columns), Some("id".to_string()));
}

#[test]
fn descriptive_column_of_empty_table() {
    let columns: Vec<String> = Vec::new();
    assert_eq!(find_descriptive_column(&columns), None);
}

#[test]
fn descriptive_column_ignores_ascii_case() {
    let columns = names(&["ID", "Email", "UserName"]);
    assert_eq!(find_descriptive_column(&columns), Some("UserName".to_string()));
}

#[test]
fn descriptive_column_goes_by_preference_before_position() {
    // `name` is wanted before `title`, wherever the two stand
    let columns = names(&["id", "title", "name"]);
    assert_eq!(find_descriptive_column(&columns), Some("name".to_string()));
}

#[test]
fn descriptive_column_takes_first_of_equal_matches() {
    let columns = names(&["id", "LABEL", "label"]);
    assert_eq!(find_descriptive_column(&columns), Some("LABEL".to_string()));
}

#[test]
fn foreign_key_gets_alias_from_descriptive_column() {
    let referenced = names(&["id", "login", "email"]);
    let info = ForeignKeyInfo::resolve(
        "owner_id".to_string(),
        "users".to_string(),
        "id".to_string(),
        Some(&referenced),
    );
    assert_eq!(info.column_name, "owner_id");
    assert_eq!(info.referenced_table, "users");
    assert_eq!(info.referenced_column, "id");
    assert_eq!(info.descriptive_column, "login");
    assert_eq!(info.join_alias, "owner_id__login");
}

#[test]
fn foreign_key_falls_back_to_referenced_column() {
    let info = ForeignKeyInfo::resolve(
        "owner_id".to_string(),
        "users".to_string(),
        "uid".to_string(),
        None,
    );
    assert_eq!(info.descriptive_column, "uid");
    assert_eq!(info.join_alias, "owner_id__uid");

    let empty: Vec<String> = Vec::new();
    let info = ForeignKeyInfo::resolve(
        "owner_id".to_string(),
        "users".to_string(),
        "uid".to_string(),
        Some(&empty),
    );
    assert_eq!(info.descriptive_column, "uid");
    assert_eq!(info.join_alias, "owner_id__uid");
}
