//! Unified 64-bit key space for items, properties, lexemes, forms and senses.

use vstd::prelude::*;

verus! {

/// Offset of the property namespace.
pub const PROPERTY_OFFSET: u64 = 1_000_000_000;

/// Offset of the lexeme namespace.
pub const LEXEME_OFFSET: u64 = 2_000_000_000;

/// Distance between consecutive form or sense indices of one lexeme.
pub const SUB_INDEX_STRIDE: u64 = 100_000_000_000;

/// Extra offset that separates senses from forms of the same index.
pub const SENSE_OFFSET: u64 = 10_000_000_000;

pub open spec fn item_key(id: int) -> int {
    id
}

pub open spec fn property_key(id: int) -> int {
    id + PROPERTY_OFFSET
}

pub open spec fn lexeme_key(id: int) -> int {
    id + LEXEME_OFFSET
}

pub open spec fn form_key(lexeme: int, index: int) -> int {
    lexeme_key(lexeme) + index * SUB_INDEX_STRIDE
}

pub open spec fn sense_key(lexeme: int, index: int) -> int {
    lexeme_key(lexeme) + index * SUB_INDEX_STRIDE + SENSE_OFFSET
}

/// Whether the key of the property fits in 64 bits (that of an item always
/// does).
pub open spec fn property_fits(id: u64) -> bool {
    property_key(id as int) <= u64::MAX
}

pub open spec fn lexeme_fits(id: u64) -> bool {
    lexeme_key(id as int) <= u64::MAX
}

pub open spec fn form_fits(lexeme: u64, index: u16) -> bool {
    form_key(lexeme as int, index as int) <= u64::MAX
}

pub open spec fn sense_fits(lexeme: u64, index: u16) -> bool {
    sense_key(lexeme as int, index as int) <= u64::MAX
}

/// Key of the item with raw id `id`.
pub fn q_id(id: u64) -> (r: u64)
    ensures
        r == item_key(id as int),
{
    id
}

/// Key of the property with raw id `id`.
pub fn p_id(id: u64) -> (r: u64)
    requires
        property_fits(id),
    ensures
        r == property_key(id as int),
{
    id + PROPERTY_OFFSET
}

/// Key of the lexeme with raw id `id`.
pub fn l_id(id: u64) -> (r: u64)
    requires
        lexeme_fits(id),
    ensures
        r == lexeme_key(id as int),
{
    id + LEXEME_OFFSET
}

/// Key of form number `index` of lexeme `lexeme`.
pub fn f_id(lexeme: u64, index: u16) -> (r: u64)
    requires
        form_fits(lexeme, index),
    ensures
        r == form_key(lexeme as int, index as int),
{
    proof {
        assert(0 <= index as int * SUB_INDEX_STRIDE) by (nonlinear_arith);
    }
    l_id(lexeme) + index as u64 * SUB_INDEX_STRIDE
}

/// Key of sense number `index` of lexeme `lexeme`.
pub fn s_id(lexeme: u64, index: u16) -> (r: u64)
    requires
        sense_fits(lexeme, index),
    ensures
        r == sense_key(lexeme as int, index as int),
{
    proof {
        assert(0 <= index as int * SUB_INDEX_STRIDE) by (nonlinear_arith);
    }
    l_id(lexeme) + index as u64 * SUB_INDEX_STRIDE + SENSE_OFFSET
}

/// Items, properties and lexemes land in disjoint ranges: raw ids below
/// one billion give item keys in `[0, 1e9)`, property keys in
/// `[1e9, 2e9)`, and every lexeme key is at least `2e9`.
pub proof fn lemma_namespaces_disjoint(item: u64, property: u64, lexeme: u64)
    requires
        item < PROPERTY_OFFSET,
        property < PROPERTY_OFFSET,
    ensures
        0 <= item_key(item as int) < PROPERTY_OFFSET,
        PROPERTY_OFFSET <= property_key(property as int) < LEXEME_OFFSET,
        LEXEME_OFFSET <= lexeme_key(lexeme as int),
        item_key(item as int) != property_key(property as int),
        property_key(property as int) != lexeme_key(lexeme as int),
        item_key(item as int) != lexeme_key(lexeme as int),
{
}

/// No form of a lexeme shares its key with any sense of the same lexeme,
/// whatever the two indices.
pub proof fn lemma_form_sense_distinct(lexeme: int, form: nat, sense: nat)
    ensures
        form_key(lexeme, form as int) != sense_key(lexeme, sense as int),
{
    if form > sense {
        assert((form - sense) * SUB_INDEX_STRIDE >= SUB_INDEX_STRIDE) by (nonlinear_arith)
            requires form - sense >= 1;
    } else {
        assert((sense - form) * SUB_INDEX_STRIDE >= 0) by (nonlinear_arith)
            requires sense - form >= 0;
    }
    assert(form * SUB_INDEX_STRIDE - sense * SUB_INDEX_STRIDE == (form - sense) * SUB_INDEX_STRIDE)
        by (nonlinear_arith);
}

/// Forms and senses of lexemes with raw ids below `1e10` are told apart by
/// their keys: equal keys mean the same lexeme, the same kind and the same
/// index.
pub proof fn lemma_sub_keys_injective(l1: nat, i1: nat, l2: nat, i2: nat)
    requires
        l1 < SENSE_OFFSET,
        l2 < SENSE_OFFSET,
    ensures
        form_key(l1 as int, i1 as int) == form_key(l2 as int, i2 as int) ==> l1 == l2 && i1 == i2,
        sense_key(l1 as int, i1 as int) == sense_key(l2 as int, i2 as int) ==> l1 == l2 && i1 == i2,
        form_key(l1 as int, i1 as int) != sense_key(l2 as int, i2 as int),
{
    assert(form_key(l1 as int, i1 as int) == form_key(l2 as int, i2 as int) ==> l1 == l2 && i1 == i2) by (nonlinear_arith)
        requires l1 < SENSE_OFFSET, l2 < SENSE_OFFSET, l1 >= 0, l2 >= 0, i1 >= 0, i2 >= 0;
    assert(sense_key(l1 as int, i1 as int) == sense_key(l2 as int, i2 as int) ==> l1 == l2 && i1 == i2) by (nonlinear_arith)
        requires l1 < SENSE_OFFSET, l2 < SENSE_OFFSET, l1 >= 0, l2 >= 0, i1 >= 0, i2 >= 0;
    assert(form_key(l1 as int, i1 as int) != sense_key(l2 as int, i2 as int)) by (nonlinear_arith)
        requires l1 < SENSE_OFFSET, l2 < SENSE_OFFSET, l1 >= 0, l2 >= 0, i1 >= 0, i2 >= 0;
}

} // verus!
