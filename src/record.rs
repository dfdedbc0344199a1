//! Entity records and the rows that store them.

use vstd::prelude::*;

use crate::id::{
    item_key, l_id, lexeme_fits, lexeme_key, p_id, property_fits, property_key, q_id, LEXEME_OFFSET,
    PROPERTY_OFFSET,
};
use crate::schema::{meta_columns, meta_name, meta_table};
use crate::sql::insert_sql;
use crate::value::{
    claim_keys_fit, find_text, text_in, text_or_null, value_of, ClaimData, Insert, Param, Text,
    Value,
};

verus! {

/// The identifier of a record, by namespace.
#[derive(Clone, Debug, PartialEq)]
pub enum EntityId {
    Item(u64),
    Property(u64),
    Lexeme(u64),
}

/// The rank of a claim; only deprecated claims are treated apart.
#[derive(Clone, Copy, Debug, PartialEq, Eq, Structural)]
pub enum Rank {
    Deprecated,
    Normal,
    Preferred,
}

/// A statement about a record: a property, a rank and a value.
#[derive(Clone, Debug, PartialEq)]
pub struct Claim {
    pub property: u64,
    pub rank: Rank,
    pub data: ClaimData,
}

/// One entity of the dump: its id, its labels and descriptions by
/// language, and its claims in order.
#[derive(Clone, Debug, PartialEq)]
pub struct Record {
    pub id: EntityId,
    pub labels: Vec<Text>,
    pub descriptions: Vec<Text>,
    pub claims: Vec<Claim>,
}

pub open spec fn entity_key(id: EntityId) -> int {
    match id {
        EntityId::Item(q) => item_key(q as int),
        EntityId::Property(p) => property_key(p as int),
        EntityId::Lexeme(l) => lexeme_key(l as int),
    }
}

pub open spec fn entity_fits(id: EntityId) -> bool {
    match id {
        EntityId::Item(_) => true,
        EntityId::Property(p) => property_fits(p),
        EntityId::Lexeme(l) => lexeme_fits(l),
    }
}

pub open spec fn claim_fits(c: Claim) -> bool {
    property_fits(c.property) && claim_keys_fit(c.data)
}

/// Whether every key that the record refers to fits in 64 bits.
pub open spec fn record_keys_fit(r: Record) -> bool {
    &&& entity_fits(r.id)
    &&& forall|i: int| 0 <= i < r.claims@.len() ==> #[trigger] claim_fits(r.claims@[i])
}

/// The claims that are stored: all but the deprecated ones, in order.
pub open spec fn kept_claims(cs: Seq<Claim>) -> Seq<Claim>
    decreases cs.len(),
{
    if cs.len() == 0 {
        Seq::empty()
    } else if cs.last().rank == Rank::Deprecated {
        kept_claims(cs.drop_last())
    } else {
        kept_claims(cs.drop_last()).push(cs.last())
    }
}

/// The parameters of the metadata row of `r`: its key, and its label and
/// description in language `lang`, each null where there is none.
pub open spec fn meta_params(r: Record, lang: Seq<char>) -> Seq<Param> {
    seq![
        Param::Integer(entity_key(r.id) as u64),
        text_or_null(text_in(r.labels@, lang)),
        text_or_null(text_in(r.descriptions@, lang)),
    ]
}

/// Whether `ins` is the row that stores claim `c` of the record with key
/// `id`.
pub open spec fn is_value_row(ins: Insert, c: Claim, id: u64, lang: Seq<char>) -> bool {
    let v = value_of(c.data, lang);
    &&& ins.sql@ == insert_sql(v.table_name(), v.table_columns())
    &&& ins.params@ == v.params(id, property_key(c.property as int) as u64)
}

fn text_param(x: Option<String>) -> (r: Param)
    ensures
        r == text_or_null(x),
{
    match x {
        Some(v) => Param::Text(v),
        None => Param::Null,
    }
}

impl Record {
    /// Whether every key that the record refers to fits in 64 bits.
    pub fn keys_fit(&self) -> (r: bool)
        ensures
            r == record_keys_fit(*self),
    {
        let id_fits = match self.id {
            EntityId::Item(_) => true,
            EntityId::Property(p) => p <= u64::MAX - PROPERTY_OFFSET,
            EntityId::Lexeme(l) => l <= u64::MAX - LEXEME_OFFSET,
        };
        if !id_fits {
            return false;
        }
        let mut i: usize = 0;
        while i < self.claims.len()
            invariant
                i <= self.claims.len(),
                forall|j: int| 0 <= j < i ==> #[trigger] claim_fits(self.claims@[j]),
            decreases self.claims.len() - i,
        {
            let c = &self.claims[i];
            if !(c.property <= u64::MAX - PROPERTY_OFFSET && c.data.keys_fit()) {
                assert(!claim_fits(self.claims@[i as int]));
                return false;
            }
            i = i + 1;
        }
        true
    }

    /// The record's key in the unified key space.
    pub fn key(&self) -> (r: u64)
        requires
            entity_fits(self.id),
        ensures
            r == entity_key(self.id),
    {
        match self.id {
            EntityId::Item(q) => q_id(q),
            EntityId::Property(p) => p_id(p),
            EntityId::Lexeme(l) => l_id(l),
        }
    }
}

/// The rows that store `record`: first its metadata row, then one row per
/// claim that is not deprecated, in the order of the claims.
pub fn store_entity(record: &Record, lang: &String) -> (r: Vec<Insert>)
    requires
        record_keys_fit(*record),
    ensures
        r@.len() == 1 + kept_claims(record.claims@).len(),
        r@[0].sql@ == insert_sql(meta_name(), meta_columns()),
        r@[0].params@ == meta_params(*record, lang@),
        forall|i: int|
            0 <= i < kept_claims(record.claims@).len() ==> #[trigger] is_value_row(
                r@[i + 1],
                kept_claims(record.claims@)[i],
                entity_key(record.id) as u64,
                lang@,
            ),
{
    let id = record.key();
    let mut params: Vec<Param> = Vec::new();
    params.push(Param::Integer(id));
    params.push(text_param(find_text(&record.labels, lang)));
    params.push(text_param(find_text(&record.descriptions, lang)));
    assert(params@ =~= meta_params(*record, lang@));
    let mut r: Vec<Insert> = Vec::new();
    r.push(Insert { sql: meta_table().insert_statement(), params });
    let mut i: usize = 0;
    while i < record.claims.len()
        invariant
            i <= record.claims.len(),
            record_keys_fit(*record),
            id == entity_key(record.id),
            r@.len() == 1 + kept_claims(record.claims@.subrange(0, i as int)).len(),
            r@[0].sql@ == insert_sql(meta_name(), meta_columns()),
            r@[0].params@ == meta_params(*record, lang@),
            forall|j: int|
                0 <= j < kept_claims(record.claims@.subrange(0, i as int)).len()
                    ==> #[trigger] is_value_row(
                    r@[j + 1],
                    kept_claims(record.claims@.subrange(0, i as int))[j],
                    id,
                    lang@,
                ),
        decreases record.claims.len() - i,
    {
        let ghost before = record.claims@.subrange(0, i as int);
        assert(record.claims@.subrange(0, i as int + 1).drop_last() =~= before);
        let c = &record.claims[i];
        assert(claim_fits(record.claims@[i as int]));
        if c.rank != Rank::Deprecated {
            let v = Value::from_claim(&c.data, lang);
            r.push(v.store(id, p_id(c.property)));
        }
        i = i + 1;
    }
    assert(record.claims@.subrange(0, record.claims@.len() as int) =~= record.claims@);
    r
}

/// Every claim that is stored is not deprecated, and every claim that is
/// not deprecated is stored.
pub proof fn lemma_kept_claims(cs: Seq<Claim>)
    ensures
        forall|c: Claim| #[trigger] kept_claims(cs).contains(c) ==> c.rank != Rank::Deprecated,
        forall|i: int|
            0 <= i < cs.len() && cs[i].rank != Rank::Deprecated ==> kept_claims(cs).contains(
                #[trigger] cs[i],
            ),
    decreases cs.len(),
{
    if cs.len() > 0 {
        let init = cs.drop_last();
        lemma_kept_claims(init);
        let k = kept_claims(init);
        if cs.last().rank != Rank::Deprecated {
            assert(kept_claims(cs) == k.push(cs.last()));
            assert(kept_claims(cs)[k.len() as int] == cs.last());
            assert forall|c: Claim| #[trigger] kept_claims(cs).contains(c) implies c.rank
                != Rank::Deprecated by {
                let j = choose|j: int| 0 <= j < kept_claims(cs).len() && kept_claims(cs)[j] == c;
                if j < k.len() {
                    assert(k.contains(c));
                }
            }
            assert forall|i: int| 0 <= i < cs.len() && cs[i].rank != Rank::Deprecated implies kept_claims(
                cs,
            ).contains(#[trigger] cs[i]) by {
                if i < cs.len() - 1 {
                    assert(cs[i] == init[i]);
                    let j = choose|j: int| 0 <= j < k.len() && k[j] == init[i];
                    assert(kept_claims(cs)[j] == cs[i]);
                }
            }
        } else {
            assert forall|i: int| 0 <= i < cs.len() && cs[i].rank != Rank::Deprecated implies kept_claims(
                cs,
            ).contains(#[trigger] cs[i]) by {
                assert(cs[i] == init[i]);
            }
        }
    }
}

} // verus!
