//! The closed set of claim values, each with its own table, and the mapping
//! from claim payloads onto them.
//!
//! Floating-point quantities are carried as their IEEE-754 binary64 bit
//! patterns; instants as seconds and nanoseconds since the Unix epoch (UTC).

use vstd::prelude::*;

use crate::id::{
    f_id, form_fits, form_key, item_key, l_id, lexeme_fits, lexeme_key, p_id, property_fits,
    property_key, q_id, s_id, sense_fits, sense_key, LEXEME_OFFSET, PROPERTY_OFFSET, SENSE_OFFSET,
    SUB_INDEX_STRIDE,
};
use crate::sql::{columns_view, insert_sql, Column, TableDefinition};

verus! {

/// A text together with its language tag.
#[derive(Clone, Debug, PartialEq)]
pub struct Text {
    pub text: String,
    pub lang: String,
}

/// A claim payload as the dump describes it.
#[derive(Clone, Debug, PartialEq)]
pub enum ClaimData {
    CommonsMedia(String),
    GlobeCoordinate { lat: u64, lon: u64, precision: u64, globe: u64 },
    Item(u64),
    Property(u64),
    String(String),
    MonolingualText(Text),
    MultilingualText(Vec<Text>),
    ExternalID(String),
    Quantity { amount: u64, lower_bound: Option<u64>, upper_bound: Option<u64>, unit: Option<u64> },
    DateTime { seconds: i64, nanos: u32, precision: u8 },
    Url(String),
    MathExpr(String),
    GeoShape(String),
    MusicNotation(String),
    TabularData(String),
    Lexeme(u64),
    Form(u64, u16),
    Sense(u64, u16),
    NoValue,
    UnknownValue,
}

/// A stored claim value.
#[derive(Clone, Debug, PartialEq)]
pub enum Value {
    String(String),
    Entity(u64),
    Coordinates { latitude: u64, longitude: u64, precision: u64, globe_id: u64 },
    Quantity {
        amount: u64,
        lower_bound: Option<u64>,
        upper_bound: Option<u64>,
        unit_id: Option<u64>,
    },
    Time { seconds: i64, nanos: u32, precision: u8 },
    /// Explicitly no value.
    Absent,
    /// Explicitly an unknown value.
    Unknown,
}

/// Which of the variants of [`Value`] a value is.
#[derive(Clone, Copy, Debug, PartialEq, Eq, Structural)]
pub enum ValueKind {
    String,
    Entity,
    Coordinates,
    Quantity,
    Time,
    Absent,
    Unknown,
}

/// The variants of [`Value`], in the order in which their tables are created.
pub open spec fn value_kinds() -> Seq<ValueKind> {
    seq![
        ValueKind::String,
        ValueKind::Entity,
        ValueKind::Coordinates,
        ValueKind::Quantity,
        ValueKind::Time,
        ValueKind::Absent,
        ValueKind::Unknown,
    ]
}

/// A parameter bound to a statement.
#[derive(Clone, Debug, PartialEq)]
pub enum Param {
    Integer(u64),
    /// A real number, as its IEEE-754 binary64 bit pattern.
    Real(u64),
    Text(String),
    Timestamp { seconds: i64, nanos: u32 },
    Null,
}

/// A statement together with the parameters bound to it.
#[derive(Clone, Debug, PartialEq)]
pub struct Insert {
    pub sql: String,
    pub params: Vec<Param>,
}

/// The first text of `texts` whose language is `lang`.
pub open spec fn text_in(texts: Seq<Text>, lang: Seq<char>) -> Option<String>
    decreases texts.len(),
{
    if texts.len() == 0 {
        None
    } else if texts[0].lang@ == lang {
        Some(texts[0].text)
    } else {
        text_in(texts.drop_first(), lang)
    }
}

/// The first text of `texts` whose language is `lang`.
pub fn find_text(texts: &Vec<Text>, lang: &String) -> (r: Option<String>)
    ensures
        r == text_in(texts@, lang@),
{
    let mut i: usize = 0;
    assert(texts@.subrange(0, texts@.len() as int) =~= texts@);
    while i < texts.len()
        invariant
            i <= texts.len(),
            text_in(texts@, lang@) == text_in(texts@.subrange(i as int, texts@.len() as int), lang@),
        decreases texts.len() - i,
    {
        let ghost rest = texts@.subrange(i as int, texts@.len() as int);
        if texts[i].lang == *lang {
            return Some(texts[i].text.clone());
        }
        assert(rest.drop_first() =~= texts@.subrange(i as int + 1, texts@.len() as int));
        i = i + 1;
    }
    None
}

/// A multilingual text with no entry in language `lang` is stored as
/// `Absent`; one with such an entry is stored as the text of the first of
/// them, whatever the other languages hold.
pub proof fn lemma_multilingual_text(texts: Vec<Text>, lang: Seq<char>)
    ensures
        (forall|i: int| 0 <= i < texts@.len() ==> #[trigger] texts@[i].lang@ != lang) ==> value_of(
            ClaimData::MultilingualText(texts),
            lang,
        ) == Value::Absent,
        forall|i: int|
            0 <= i < texts@.len() && #[trigger] texts@[i].lang@ == lang && (forall|j: int|
                0 <= j < i ==> texts@[j].lang@ != lang) ==> value_of(
                ClaimData::MultilingualText(texts),
                lang,
            ) == Value::String(texts@[i].text),
{
    lemma_text_in(texts@, lang);
}

proof fn lemma_text_in(texts: Seq<Text>, lang: Seq<char>)
    ensures
        (forall|i: int| 0 <= i < texts.len() ==> #[trigger] texts[i].lang@ != lang) ==> text_in(
            texts,
            lang,
        ) is None,
        forall|i: int|
            0 <= i < texts.len() && #[trigger] texts[i].lang@ == lang && (forall|j: int|
                0 <= j < i ==> texts[j].lang@ != lang) ==> text_in(texts, lang) == Some(
                texts[i].text,
            ),
    decreases texts.len(),
{
    if texts.len() > 0 {
        let rest = texts.drop_first();
        lemma_text_in(rest, lang);
        if forall|i: int| 0 <= i < texts.len() ==> #[trigger] texts[i].lang@ != lang {
            assert forall|i: int| 0 <= i < rest.len() implies #[trigger] rest[i].lang@ != lang by {
                assert(rest[i] == texts[i + 1]);
            }
        }
        assert forall|i: int|
            0 <= i < texts.len() && #[trigger] texts[i].lang@ == lang && (forall|j: int|
                0 <= j < i ==> texts[j].lang@ != lang) implies text_in(texts, lang) == Some(
            texts[i].text,
        ) by {
            if i > 0 {
                assert(texts[0].lang@ != lang);
                assert(rest[i - 1] == texts[i]);
                assert forall|j: int| 0 <= j < i - 1 implies rest[j].lang@ != lang by {
                    assert(rest[j] == texts[j + 1]);
                }
            }
        }
    }
}

pub open spec fn real_or_null(x: Option<u64>) -> Param {
    match x {
        Some(v) => Param::Real(v),
        None => Param::Null,
    }
}

pub open spec fn integer_or_null(x: Option<u64>) -> Param {
    match x {
        Some(v) => Param::Integer(v),
        None => Param::Null,
    }
}

pub open spec fn text_or_null(x: Option<String>) -> Param {
    match x {
        Some(v) => Param::Text(v),
        None => Param::Null,
    }
}

fn real_param(x: Option<u64>) -> (r: Param)
    ensures
        r == real_or_null(x),
{
    match x {
        Some(v) => Param::Real(v),
        None => Param::Null,
    }
}

fn integer_param(x: Option<u64>) -> (r: Param)
    ensures
        r == integer_or_null(x),
{
    match x {
        Some(v) => Param::Integer(v),
        None => Param::Null,
    }
}

/// Whether every key that `d` refers to fits in 64 bits.
pub open spec fn claim_keys_fit(d: ClaimData) -> bool {
    match d {
        ClaimData::Property(p) => property_fits(p),
        ClaimData::Lexeme(l) => lexeme_fits(l),
        ClaimData::Form(l, i) => form_fits(l, i),
        ClaimData::Sense(l, i) => sense_fits(l, i),
        _ => true,
    }
}

/// The value that the payload `d` is stored as, where `lang` is the
/// language whose text stands for a multilingual text.
pub open spec fn value_of(d: ClaimData, lang: Seq<char>) -> Value {
    match d {
        ClaimData::CommonsMedia(s) => Value::String(s),
        ClaimData::GlobeCoordinate { lat, lon, precision, globe } => Value::Coordinates {
            latitude: lat,
            longitude: lon,
            precision,
            globe_id: item_key(globe as int) as u64,
        },
        ClaimData::Item(q) => Value::Entity(item_key(q as int) as u64),
        ClaimData::Property(p) => Value::Entity(property_key(p as int) as u64),
        ClaimData::String(s) => Value::String(s),
        ClaimData::MonolingualText(t) => Value::String(t.text),
        ClaimData::MultilingualText(ts) => match text_in(ts@, lang) {
            Some(t) => Value::String(t),
            None => Value::Absent,
        },
        ClaimData::ExternalID(s) => Value::String(s),
        ClaimData::Quantity { amount, lower_bound, upper_bound, unit } => Value::Quantity {
            amount,
            lower_bound,
            upper_bound,
            unit_id: match unit {
                Some(u) => Some(item_key(u as int) as u64),
                None => None,
            },
        },
        ClaimData::DateTime { seconds, nanos, precision } => Value::Time { seconds, nanos, precision },
        ClaimData::Url(s) => Value::String(s),
        ClaimData::MathExpr(s) => Value::String(s),
        ClaimData::GeoShape(s) => Value::String(s),
        ClaimData::MusicNotation(s) => Value::String(s),
        ClaimData::TabularData(s) => Value::String(s),
        ClaimData::Lexeme(l) => Value::Entity(lexeme_key(l as int) as u64),
        ClaimData::Form(l, i) => Value::Entity(form_key(l as int, i as int) as u64),
        ClaimData::Sense(l, i) => Value::Entity(sense_key(l as int, i as int) as u64),
        ClaimData::NoValue => Value::Absent,
        ClaimData::UnknownValue => Value::Unknown,
    }
}

impl ClaimData {
    /// Whether every key that this payload refers to fits in 64 bits.
    pub fn keys_fit(&self) -> (r: bool)
        ensures
            r == claim_keys_fit(*self),
    {
        match self {
            ClaimData::Property(p) => *p <= u64::MAX - PROPERTY_OFFSET,
            ClaimData::Lexeme(l) => *l <= u64::MAX - LEXEME_OFFSET,
            ClaimData::Form(l, i) => {
                proof {
                    assert(*i as int * SUB_INDEX_STRIDE <= u16::MAX as int * SUB_INDEX_STRIDE)
                        by (nonlinear_arith);
                }
                *l <= u64::MAX - LEXEME_OFFSET - *i as u64 * SUB_INDEX_STRIDE
            },
            ClaimData::Sense(l, i) => {
                proof {
                    assert(*i as int * SUB_INDEX_STRIDE <= u16::MAX as int * SUB_INDEX_STRIDE)
                        by (nonlinear_arith);
                }
                *l <= u64::MAX - LEXEME_OFFSET - SENSE_OFFSET - *i as u64 * SUB_INDEX_STRIDE
            },
            _ => true,
        }
    }
}

pub open spec fn table_name_of(k: ValueKind) -> Seq<char> {
    match k {
        ValueKind::String => "string"@,
        ValueKind::Entity => "entity"@,
        ValueKind::Coordinates => "coordinates"@,
        ValueKind::Quantity => "quantity"@,
        ValueKind::Time => "time"@,
        ValueKind::Absent => "none"@,
        ValueKind::Unknown => "unknown"@,
    }
}

/// The columns that follow the subject and property ids.
pub open spec fn value_columns_of(k: ValueKind) -> Seq<(Seq<char>, Seq<char>)> {
    match k {
        ValueKind::String => seq![("string"@, "TEXT NOT NULL"@)],
        ValueKind::Entity => seq![("entity_id"@, "INTEGER NOT NULL"@)],
        ValueKind::Coordinates => seq![
            ("latitude"@, "REAL NOT NULL"@),
            ("longitude"@, "REAL NOT NULL"@),
            ("precision"@, "REAL NOT NULL"@),
            ("globe_id"@, "INTEGER NOT NULL"@),
        ],
        ValueKind::Quantity => seq![
            ("amount"@, "REAL NOT NULL"@),
            ("lower_bound"@, "REAL"@),
            ("upper_bound"@, "REAL"@),
            ("unit_id"@, "INTEGER"@),
        ],
        ValueKind::Time => seq![
            ("time"@, "DATETIME NOT NULL"@),
            ("precision"@, "INTEGER NOT NULL"@),
        ],
        ValueKind::Absent => seq![],
        ValueKind::Unknown => seq![],
    }
}

pub open spec fn table_columns_of(k: ValueKind) -> Seq<(Seq<char>, Seq<char>)> {
    key_columns() + value_columns_of(k)
}

pub open spec fn key_columns() -> Seq<(Seq<char>, Seq<char>)> {
    seq![("id"@, "INTEGER NOT NULL"@), ("property_id"@, "INTEGER NOT NULL"@)]
}

fn column(name: &'static str, sql_type: &'static str) -> (r: Column)
    ensures
        r.name == name,
        r.sql_type == sql_type,
{
    Column { name, sql_type }
}

impl Value {
    pub open spec fn kind(&self) -> ValueKind {
        match *self {
            Value::String(_) => ValueKind::String,
            Value::Entity(_) => ValueKind::Entity,
            Value::Coordinates { .. } => ValueKind::Coordinates,
            Value::Quantity { .. } => ValueKind::Quantity,
            Value::Time { .. } => ValueKind::Time,
            Value::Absent => ValueKind::Absent,
            Value::Unknown => ValueKind::Unknown,
        }
    }

    pub open spec fn table_name(&self) -> Seq<char> {
        table_name_of(self.kind())
    }

    pub open spec fn value_columns(&self) -> Seq<(Seq<char>, Seq<char>)> {
        value_columns_of(self.kind())
    }

    pub open spec fn table_columns(&self) -> Seq<(Seq<char>, Seq<char>)> {
        key_columns() + self.value_columns()
    }

    /// The parameters of the row that stores this value for property
    /// `property_id` of subject `id`, in column order.
    pub open spec fn params(&self, id: u64, property_id: u64) -> Seq<Param> {
        seq![Param::Integer(id), Param::Integer(property_id)] + match *self {
            Value::String(s) => seq![Param::Text(s)],
            Value::Entity(e) => seq![Param::Integer(e)],
            Value::Coordinates { latitude, longitude, precision, globe_id } => seq![
                Param::Real(latitude),
                Param::Real(longitude),
                Param::Real(precision),
                Param::Integer(globe_id),
            ],
            Value::Quantity { amount, lower_bound, upper_bound, unit_id } => seq![
                Param::Real(amount),
                real_or_null(lower_bound),
                real_or_null(upper_bound),
                integer_or_null(unit_id),
            ],
            Value::Time { seconds, nanos, precision } => seq![
                Param::Timestamp { seconds, nanos },
                Param::Integer(precision as u64),
            ],
            Value::Absent => seq![],
            Value::Unknown => seq![],
        }
    }

    pub fn table_definition(&self) -> (r: TableDefinition)
        ensures
            r.name@ == self.table_name(),
            columns_view(r.columns@) == self.table_columns(),
    {
        let mut columns: Vec<Column> = Vec::new();
        columns.push(column("id", "INTEGER NOT NULL"));
        columns.push(column("property_id", "INTEGER NOT NULL"));
        let name = match self {
            Value::String(_) => {
                columns.push(column("string", "TEXT NOT NULL"));
                "string"
            },
            Value::Entity(_) => {
                columns.push(column("entity_id", "INTEGER NOT NULL"));
                "entity"
            },
            Value::Coordinates { .. } => {
                columns.push(column("latitude", "REAL NOT NULL"));
                columns.push(column("longitude", "REAL NOT NULL"));
                columns.push(column("precision", "REAL NOT NULL"));
                columns.push(column("globe_id", "INTEGER NOT NULL"));
                "coordinates"
            },
            Value::Quantity { .. } => {
                columns.push(column("amount", "REAL NOT NULL"));
                columns.push(column("lower_bound", "REAL"));
                columns.push(column("upper_bound", "REAL"));
                columns.push(column("unit_id", "INTEGER"));
                "quantity"
            },
            Value::Time { .. } => {
                columns.push(column("time", "DATETIME NOT NULL"));
                columns.push(column("precision", "INTEGER NOT NULL"));
                "time"
            },
            Value::Absent => "none",
            Value::Unknown => "unknown",
        };
        assert(columns_view(columns@) =~= self.table_columns());
        TableDefinition { name, columns }
    }

    /// One value of each variant, in the order in which their tables are
    /// created.
    pub fn value_types() -> (r: Vec<Value>)
        ensures
            r@.len() == value_kinds().len(),
            forall|k: int| 0 <= k < r@.len() ==> #[trigger] r@[k].kind() == value_kinds()[k],
    {
        let mut r: Vec<Value> = Vec::new();
        r.push(Value::String(String::new()));
        r.push(Value::Entity(0));
        r.push(Value::Coordinates { latitude: 0, longitude: 0, precision: 0, globe_id: 0 });
        r.push(
            Value::Quantity { amount: 0, lower_bound: None, upper_bound: None, unit_id: None },
        );
        r.push(Value::Time { seconds: 0, nanos: 0, precision: 0 });
        r.push(Value::Absent);
        r.push(Value::Unknown);
        r
    }

    /// The statement that creates this value's table.
    pub fn create_table(&self) -> (r: String)
        ensures
            r@ == crate::sql::create_table_sql(self.table_name(), self.table_columns()),
    {
        self.table_definition().create_table()
    }

    /// One statement per column of this value's table, each creating an
    /// index on that column.
    pub fn create_indices(&self) -> (r: Vec<String>)
        ensures
            r@.len() == self.table_columns().len(),
            forall|j: int|
                0 <= j < r@.len() ==> #[trigger] r@[j]@ == crate::sql::index_sql(
                    self.table_name(),
                    self.table_columns()[j].0,
                ),
    {
        let def = self.table_definition();
        let r = def.create_indices();
        proof {
            assert forall|j: int| 0 <= j < r@.len() implies #[trigger] r@[j]@
                == crate::sql::index_sql(self.table_name(), self.table_columns()[j].0) by {
                assert(columns_view(def.columns@)[j] == crate::sql::column_view(def.columns@[j]));
            }
        }
        r
    }

    /// The row that stores this value for property `property_id` of subject
    /// `id`.
    pub fn store(&self, id: u64, property_id: u64) -> (r: Insert)
        ensures
            r.sql@ == insert_sql(self.table_name(), self.table_columns()),
            r.params@ == self.params(id, property_id),
    {
        let sql = self.table_definition().insert_statement();
        let mut params: Vec<Param> = Vec::new();
        params.push(Param::Integer(id));
        params.push(Param::Integer(property_id));
        match self {
            Value::String(s) => params.push(Param::Text(s.clone())),
            Value::Entity(e) => params.push(Param::Integer(*e)),
            Value::Coordinates { latitude, longitude, precision, globe_id } => {
                params.push(Param::Real(*latitude));
                params.push(Param::Real(*longitude));
                params.push(Param::Real(*precision));
                params.push(Param::Integer(*globe_id));
            },
            Value::Quantity { amount, lower_bound, upper_bound, unit_id } => {
                params.push(Param::Real(*amount));
                params.push(real_param(*lower_bound));
                params.push(real_param(*upper_bound));
                params.push(integer_param(*unit_id));
            },
            Value::Time { seconds, nanos, precision } => {
                params.push(Param::Timestamp { seconds: *seconds, nanos: *nanos });
                params.push(Param::Integer(*precision as u64));
            },
            Value::Absent => {},
            Value::Unknown => {},
        }
        assert(params@ =~= self.params(id, property_id));
        Insert { sql, params }
    }

    /// The value that the payload `d` is stored as; a multilingual text is
    /// stored as its text in language `lang`, or as `Absent` where it has none.
    pub fn from_claim(d: &ClaimData, lang: &String) -> (r: Value)
        requires
            claim_keys_fit(*d),
        ensures
            r == value_of(*d, lang@),
    {
        match d {
            ClaimData::CommonsMedia(s) => Value::String(s.clone()),
            ClaimData::GlobeCoordinate { lat, lon, precision, globe } => Value::Coordinates {
                latitude: *lat,
                longitude: *lon,
                precision: *precision,
                globe_id: q_id(*globe),
            },
            ClaimData::Item(q) => Value::Entity(q_id(*q)),
            ClaimData::Property(p) => Value::Entity(p_id(*p)),
            ClaimData::String(s) => Value::String(s.clone()),
            ClaimData::MonolingualText(t) => Value::String(t.text.clone()),
            ClaimData::MultilingualText(ts) => match find_text(ts, lang) {
                Some(t) => Value::String(t),
                None => Value::Absent,
            },
            ClaimData::ExternalID(s) => Value::String(s.clone()),
            ClaimData::Quantity { amount, lower_bound, upper_bound, unit } => Value::Quantity {
                amount: *amount,
                lower_bound: *lower_bound,
                upper_bound: *upper_bound,
                unit_id: match unit {
                    Some(u) => Some(q_id(*u)),
                    None => None,
                },
            },
            ClaimData::DateTime { seconds, nanos, precision } => Value::Time {
                seconds: *seconds,
                nanos: *nanos,
                precision: *precision,
            },
            ClaimData::Url(s) => Value::String(s.clone()),
            ClaimData::MathExpr(s) => Value::String(s.clone()),
            ClaimData::GeoShape(s) => Value::String(s.clone()),
            ClaimData::MusicNotation(s) => Value::String(s.clone()),
            ClaimData::TabularData(s) => Value::String(s.clone()),
            ClaimData::Lexeme(l) => Value::Entity(l_id(*l)),
            ClaimData::Form(l, i) => Value::Entity(f_id(*l, *i)),
            ClaimData::Sense(l, i) => Value::Entity(s_id(*l, *i)),
            ClaimData::NoValue => Value::Absent,
            ClaimData::UnknownValue => Value::Unknown,
        }
    }
}

} // verus!
