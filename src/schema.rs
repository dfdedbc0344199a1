//! The statements that create the store's tables before loading and its
//! indices after loading.

use vstd::prelude::*;

use crate::sql::{
    columns_view, create_table_sql, index_sql, strings_view, Column, TableDefinition,
};
use crate::value::{table_columns_of, table_name_of, value_kinds, Value};

verus! {

pub open spec fn meta_name() -> Seq<char> {
    "meta"@
}

pub open spec fn meta_columns() -> Seq<(Seq<char>, Seq<char>)> {
    seq![("id"@, "INTEGER NOT NULL"@), ("label"@, "TEXT"@), ("description"@, "TEXT"@)]
}

/// The metadata table: one row per record with its key, label and
/// description.
pub fn meta_table() -> (r: TableDefinition)
    ensures
        r.name@ == meta_name(),
        columns_view(r.columns@) == meta_columns(),
{
    let mut columns: Vec<Column> = Vec::new();
    columns.push(Column { name: "id", sql_type: "INTEGER NOT NULL" });
    columns.push(Column { name: "label", sql_type: "TEXT" });
    columns.push(Column { name: "description", sql_type: "TEXT" });
    assert(columns_view(columns@) =~= meta_columns());
    TableDefinition { name: "meta", columns }
}

/// One index statement per column of the table, in column order.
pub open spec fn index_statements(table: Seq<char>, cols: Seq<(Seq<char>, Seq<char>)>) -> Seq<
    Seq<char>,
> {
    cols.map_values(|c: (Seq<char>, Seq<char>)| index_sql(table, c.0))
}

/// The index statements of the first `n` value tables.
pub open spec fn value_index_statements(n: nat) -> Seq<Seq<char>>
    decreases n,
{
    if n == 0 {
        Seq::empty()
    } else {
        let k = value_kinds()[n - 1];
        value_index_statements((n - 1) as nat) + index_statements(
            table_name_of(k),
            table_columns_of(k),
        )
    }
}

/// Statements that create the metadata table and then one table per value
/// variant.
pub fn create_tables() -> (r: Vec<String>)
    ensures
        r@.len() == 1 + value_kinds().len(),
        r@[0]@ == create_table_sql(meta_name(), meta_columns()),
        forall|k: int|
            0 <= k < value_kinds().len() ==> #[trigger] r@[k + 1]@ == create_table_sql(
                table_name_of(value_kinds()[k]),
                table_columns_of(value_kinds()[k]),
            ),
{
    let mut r: Vec<String> = Vec::new();
    r.push(meta_table().create_table());
    let types = Value::value_types();
    let mut i: usize = 0;
    while i < types.len()
        invariant
            types@.len() == value_kinds().len(),
            forall|k: int| 0 <= k < types@.len() ==> #[trigger] types@[k].kind() == value_kinds()[k],
            i <= types.len(),
            r@.len() == 1 + i,
            r@[0]@ == create_table_sql(meta_name(), meta_columns()),
            forall|k: int|
                0 <= k < i ==> #[trigger] r@[k + 1]@ == create_table_sql(
                    table_name_of(value_kinds()[k]),
                    table_columns_of(value_kinds()[k]),
                ),
        decreases types.len() - i,
    {
        r.push(types[i].create_table());
        i = i + 1;
    }
    r
}

/// Statements that create an index on every column of the metadata table
/// and then on every column of each value table.
pub fn create_indices() -> (r: Vec<String>)
    ensures
        strings_view(r@) == index_statements(meta_name(), meta_columns())
            + value_index_statements(value_kinds().len()),
{
    let meta = meta_table();
    let mut r = meta.create_indices();
    assert(strings_view(r@) =~= index_statements(meta_name(), meta_columns()) + value_index_statements(0));
    let types = Value::value_types();
    let mut i: usize = 0;
    while i < types.len()
        invariant
            types@.len() == value_kinds().len(),
            forall|k: int| 0 <= k < types@.len() ==> #[trigger] types@[k].kind() == value_kinds()[k],
            i <= types.len(),
            strings_view(r@) == index_statements(meta_name(), meta_columns())
                + value_index_statements(i as nat),
        decreases types.len() - i,
    {
        let mut more = types[i].create_indices();
        let ghost k = value_kinds()[i as int];
        assert(strings_view(more@) =~= index_statements(table_name_of(k), table_columns_of(k)));
        let ghost before = r@;
        r.append(&mut more);
        assert(strings_view(r@) =~= strings_view(before) + index_statements(
            table_name_of(k),
            table_columns_of(k),
        ));
        i = i + 1;
    }
    r
}

} // verus!
