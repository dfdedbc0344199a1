use wikidata_sqlite::record::{store_entity, Claim, EntityId, Rank, Record};
use wikidata_sqlite::value::{ClaimData, Param, Text};

fn english() -> String {
    "en".to_string()
}

fn text(t: &str, lang: &str) -> Text {
    Text { text: t.to_string(), lang: lang.to_string() }
}

fn claim(property: u64, rank: Rank, data: ClaimData) -> Claim {
    Claim { property, rank, data }
}

#[test]
fn metadata_row_keeps_id_label_and_description() {
    let r = Record {
        id: EntityId::Item(42),
        labels: vec![text("Antwort", "de"), text("answer", "en")],
        descriptions: vec![text("the number", "en")],
        claims: vec![],
    };
    let rows = store_entity(&r, &english());
    assert_eq!(rows.len(), 1);
    assert_eq!(rows[0].sql, "INSERT INTO meta (id, label, description) VALUES (?1, ?2, ?3)");
    assert_eq!(
        rows[0].params,
        vec![Param::Integer(42), Param::Text("answer".to_string()), Param::Text("the number".to_string())]
    );
}

#[test]
fn missing_label_and_description_are_null() {
    let r = Record {
        id: EntityId::Property(31),
        labels: vec![text("Ist ein", "de")],
        descriptions: vec![],
        claims: vec![],
    };
    let rows = store_entity(&r, &english());
    assert_eq!(rows[0].params, vec![Param::Integer(1_000_000_031), Param::Null, Param::Null]);
}

#[test]
fn empty_label_stays_empty_text() {
    let r = Record {
        id: EntityId::Lexeme(3),
        labels: vec![text("", "en")],
        descriptions: vec![],
        claims: vec![],
    };
    let rows = store_entity(&r, &english());
    assert_eq!(rows[0].params, vec![Param::Integer(2_000_000_003), Param::Text(String::new()), Param::Null]);
}

#[test]
fn deprecated_claims_are_dropped_and_siblings_kept() {
    let r = Record {
        id: EntityId::Item(1),
        labels: vec![],
        descriptions: vec![],
        claims: vec![
            claim(31, Rank::Normal, ClaimData::Item(5)),
            claim(569, Rank::Deprecated, ClaimData::String("wrong".to_string())),
            claim(17, Rank::Preferred, ClaimData::String("right".to_string())),
            claim(18, Rank::Deprecated, ClaimData::NoValue),
        ],
    };
    let rows = store_entity(&r, &english());
    assert_eq!(rows.len(), 3);
    assert_eq!(rows[1].sql, "INSERT INTO entity (id, property_id, entity_id) VALUES (?1, ?2, ?3)");
    assert_eq!(rows[1].params, vec![Param::Integer(1), Param::Integer(1_000_000_031), Param::Integer(5)]);
    assert_eq!(rows[2].sql, "INSERT INTO string (id, property_id, string) VALUES (?1, ?2, ?3)");
    assert_eq!(
        rows[2].params,
        vec![Param::Integer(1), Param::Integer(1_000_000_017), Param::Text("right".to_string())]
    );
    for row in &rows {
        assert!(!row.params.contains(&Param::Text("wrong".to_string())));
        assert!(!row.sql.contains("none"));
    }
}

#[test]
fn record_key_and_range_check() {
    let mut r = Record { id: EntityId::Lexeme(9), labels: vec![], descriptions: vec![], claims: vec![] };
    assert!(r.keys_fit());
    assert_eq!(r.key(), 2_000_000_009);
    r.claims.push(claim(u64::MAX, Rank::Normal, ClaimData::NoValue));
    assert!(!r.keys_fit());
    let r = Record { id: EntityId::Property(u64::MAX), labels: vec![], descriptions: vec![], claims: vec![] };
    assert!(!r.keys_fit());
}
