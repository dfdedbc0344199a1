use wikidata_sqlite::schema::{create_indices, create_tables, meta_table};
use wikidata_sqlite::sql::{join, Column, TableDefinition};

#[test]
fn tables_are_meta_then_each_variant() {
    let t = create_tables();
    assert_eq!(t.len(), 8);
    assert_eq!(t[0], "CREATE TABLE meta (id INTEGER NOT NULL, label TEXT, description TEXT);");
    assert_eq!(
        t[2],
        "CREATE TABLE entity (id INTEGER NOT NULL, property_id INTEGER NOT NULL, entity_id INTEGER NOT NULL);"
    );
    assert_eq!(
        t[4],
        "CREATE TABLE quantity (id INTEGER NOT NULL, property_id INTEGER NOT NULL, amount REAL NOT NULL, lower_bound REAL, upper_bound REAL, unit_id INTEGER);"
    );
    assert_eq!(
        t[5],
        "CREATE TABLE time (id INTEGER NOT NULL, property_id INTEGER NOT NULL, time DATETIME NOT NULL, precision INTEGER NOT NULL);"
    );
    assert_eq!(t[7], "CREATE TABLE unknown (id INTEGER NOT NULL, property_id INTEGER NOT NULL);");
}

#[test]
fn one_index_per_column() {
    let i = create_indices();
    assert_eq!(i.len(), 3 + 3 + 3 + 6 + 6 + 4 + 2 + 2);
    assert_eq!(i[0], "CREATE INDEX meta_id_index ON meta (id);");
    assert_eq!(i[1], "CREATE INDEX meta_label_index ON meta (label);");
    assert_eq!(i[2], "CREATE INDEX meta_description_index ON meta (description);");
    assert_eq!(i[3], "CREATE INDEX string_id_index ON string (id);");
    assert_eq!(i[28], "CREATE INDEX unknown_property_id_index ON unknown (property_id);");
}

#[test]
fn meta_insert_statement() {
    assert_eq!(
        meta_table().insert_statement(),
        "INSERT INTO meta (id, label, description) VALUES (?1, ?2, ?3)"
    );
}

#[test]
fn join_separates_with_commas() {
    assert_eq!(join(&vec![]), "");
    assert_eq!(join(&vec!["a".to_string()]), "a");
    assert_eq!(join(&vec!["a".to_string(), "b".to_string(), "c".to_string()]), "a, b, c");
}

#[test]
fn placeholders_past_nine_have_two_digits() {
    let names = ["a", "b", "c", "d", "e", "f", "g", "h", "i", "j", "k"];
    let columns: Vec<Column> = names.iter().map(|n| Column { name: n, sql_type: "INTEGER" }).collect();
    let t = TableDefinition { name: "wide", columns };
    assert_eq!(
        t.insert_statement(),
        "INSERT INTO wide (a, b, c, d, e, f, g, h, i, j, k) VALUES (?1, ?2, ?3, ?4, ?5, ?6, ?7, ?8, ?9, ?10, ?11)"
    );
}
