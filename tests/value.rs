use wikidata_sqlite::value::{ClaimData, Param, Text, Value, ValueKind};

fn english() -> String {
    "en".to_string()
}

fn text(t: &str, lang: &str) -> Text {
    Text { text: t.to_string(), lang: lang.to_string() }
}

#[test]
fn string_kinds_are_copied_verbatim() {
    let lang = english();
    for d in [
        ClaimData::CommonsMedia("a.jpg".to_string()),
        ClaimData::String("a.jpg".to_string()),
        ClaimData::ExternalID("a.jpg".to_string()),
        ClaimData::Url("a.jpg".to_string()),
        ClaimData::MathExpr("a.jpg".to_string()),
        ClaimData::GeoShape("a.jpg".to_string()),
        ClaimData::MusicNotation("a.jpg".to_string()),
        ClaimData::TabularData("a.jpg".to_string()),
    ] {
        assert_eq!(Value::from_claim(&d, &lang), Value::String("a.jpg".to_string()));
    }
}

#[test]
fn monolingual_text_keeps_only_the_text() {
    let d = ClaimData::MonolingualText(text("Bonjour", "fr"));
    assert_eq!(Value::from_claim(&d, &english()), Value::String("Bonjour".to_string()));
}

#[test]
fn multilingual_text_without_english_is_absent() {
    let d = ClaimData::MultilingualText(vec![text("Hallo", "de"), text("Bonjour", "fr")]);
    assert_eq!(Value::from_claim(&d, &english()), Value::Absent);
    let empty = ClaimData::MultilingualText(vec![]);
    assert_eq!(Value::from_claim(&empty, &english()), Value::Absent);
}

#[test]
fn multilingual_text_with_english_is_that_text() {
    let d = ClaimData::MultilingualText(vec![
        text("Hallo", "de"),
        text("Hello", "en"),
        text("Hi", "en"),
    ]);
    assert_eq!(Value::from_claim(&d, &english()), Value::String("Hello".to_string()));
}

#[test]
fn references_are_encoded() {
    let lang = english();
    assert_eq!(Value::from_claim(&ClaimData::Item(5), &lang), Value::Entity(5));
    assert_eq!(Value::from_claim(&ClaimData::Property(5), &lang), Value::Entity(1_000_000_005));
    assert_eq!(Value::from_claim(&ClaimData::Lexeme(5), &lang), Value::Entity(2_000_000_005));
    assert_eq!(Value::from_claim(&ClaimData::Form(5, 1), &lang), Value::Entity(102_000_000_005));
    assert_eq!(Value::from_claim(&ClaimData::Sense(5, 1), &lang), Value::Entity(112_000_000_005));
}

#[test]
fn coordinates_quantity_and_time() {
    let lang = english();
    let lat = 48.85f64.to_bits();
    let lon = 2.35f64.to_bits();
    let prec = 0.01f64.to_bits();
    let d = ClaimData::GlobeCoordinate { lat, lon, precision: prec, globe: 2 };
    assert_eq!(
        Value::from_claim(&d, &lang),
        Value::Coordinates { latitude: lat, longitude: lon, precision: prec, globe_id: 2 }
    );
    let amount = 3.5f64.to_bits();
    let d = ClaimData::Quantity { amount, lower_bound: None, upper_bound: Some(amount), unit: Some(11573) };
    assert_eq!(
        Value::from_claim(&d, &lang),
        Value::Quantity { amount, lower_bound: None, upper_bound: Some(amount), unit_id: Some(11573) }
    );
    let d = ClaimData::DateTime { seconds: -86_400, nanos: 0, precision: 11 };
    assert_eq!(Value::from_claim(&d, &lang), Value::Time { seconds: -86_400, nanos: 0, precision: 11 });
}

#[test]
fn no_value_and_unknown_value() {
    let lang = english();
    assert_eq!(Value::from_claim(&ClaimData::NoValue, &lang), Value::Absent);
    assert_eq!(Value::from_claim(&ClaimData::UnknownValue, &lang), Value::Unknown);
}

#[test]
fn keys_fit_rejects_overflowing_ids() {
    assert!(ClaimData::Property(u64::MAX - 1_000_000_000).keys_fit());
    assert!(!ClaimData::Property(u64::MAX - 999_999_999).keys_fit());
    assert!(!ClaimData::Lexeme(u64::MAX).keys_fit());
    assert!(!ClaimData::Sense(u64::MAX - 2_000_000_000, 0).keys_fit());
    assert!(ClaimData::Form(u64::MAX - 2_000_000_000, 0).keys_fit());
    assert!(ClaimData::Item(u64::MAX).keys_fit());
}

#[test]
fn string_table_statement() {
    let v = Value::String(String::new());
    assert_eq!(
        v.create_table(),
        "CREATE TABLE string (id INTEGER NOT NULL, property_id INTEGER NOT NULL, string TEXT NOT NULL);"
    );
}

#[test]
fn absent_table_has_only_key_columns() {
    assert_eq!(
        Value::Absent.create_table(),
        "CREATE TABLE none (id INTEGER NOT NULL, property_id INTEGER NOT NULL);"
    );
    assert_eq!(
        Value::Unknown.create_table(),
        "CREATE TABLE unknown (id INTEGER NOT NULL, property_id INTEGER NOT NULL);"
    );
}

#[test]
fn entity_indices() {
    assert_eq!(
        Value::Entity(0).create_indices(),
        vec![
            "CREATE INDEX entity_id_index ON entity (id);".to_string(),
            "CREATE INDEX entity_property_id_index ON entity (property_id);".to_string(),
            "CREATE INDEX entity_entity_id_index ON entity (entity_id);".to_string(),
        ]
    );
}

#[test]
fn quantity_row() {
    let amount = 3.5f64.to_bits();
    let v = Value::Quantity { amount, lower_bound: Some(amount), upper_bound: None, unit_id: Some(9) };
    let ins = v.store(17, 1_000_000_002);
    assert_eq!(
        ins.sql,
        "INSERT INTO quantity (id, property_id, amount, lower_bound, upper_bound, unit_id) VALUES (?1, ?2, ?3, ?4, ?5, ?6)"
    );
    assert_eq!(
        ins.params,
        vec![
            Param::Integer(17),
            Param::Integer(1_000_000_002),
            Param::Real(amount),
            Param::Real(amount),
            Param::Null,
            Param::Integer(9),
        ]
    );
}

#[test]
fn time_and_unknown_rows() {
    let ins = Value::Time { seconds: 100, nanos: 5, precision: 9 }.store(1, 2);
    assert_eq!(ins.sql, "INSERT INTO time (id, property_id, time, precision) VALUES (?1, ?2, ?3, ?4)");
    assert_eq!(
        ins.params,
        vec![Param::Integer(1), Param::Integer(2), Param::Timestamp { seconds: 100, nanos: 5 }, Param::Integer(9)]
    );
    let ins = Value::Unknown.store(1, 2);
    assert_eq!(ins.sql, "INSERT INTO unknown (id, property_id) VALUES (?1, ?2)");
    assert_eq!(ins.params, vec![Param::Integer(1), Param::Integer(2)]);
}

#[test]
fn coordinates_table_definition() {
    let d = Value::Coordinates { latitude: 0, longitude: 0, precision: 0, globe_id: 0 }.table_definition();
    assert_eq!(d.name, "coordinates");
    let names: Vec<&str> = d.columns.iter().map(|c| c.name).collect();
    assert_eq!(names, vec!["id", "property_id", "latitude", "longitude", "precision", "globe_id"]);
    let types: Vec<&str> = d.columns.iter().map(|c| c.sql_type).collect();
    assert_eq!(
        types,
        vec!["INTEGER NOT NULL", "INTEGER NOT NULL", "REAL NOT NULL", "REAL NOT NULL", "REAL NOT NULL", "INTEGER NOT NULL"]
    );
}

#[test]
fn value_types_cover_every_variant_once() {
    let kinds: Vec<&str> = Value::value_types()
        .iter()
        .map(|v| match v {
            Value::String(_) => "string",
            Value::Entity(_) => "entity",
            Value::Coordinates { .. } => "coordinates",
            Value::Quantity { .. } => "quantity",
            Value::Time { .. } => "time",
            Value::Absent => "none",
            Value::Unknown => "unknown",
        })
        .collect();
    assert_eq!(kinds, vec!["string", "entity", "coordinates", "quantity", "time", "none", "unknown"]);
    let _ = ValueKind::String;
}
