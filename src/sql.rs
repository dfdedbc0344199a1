//! Table definitions and the SQL text derived from them.

use vstd::prelude::*;

verus! {

/// Relies on `String::push_str`: appends the characters of `t` to `s`.
#[verifier::external_body]
fn append(s: &mut String, t: &str)
    ensures
        final(s)@ == old(s)@ + t@,
{
    s.push_str(t)
}

/// Relies on `String::push`: appends the character `c` to `s`.
#[verifier::external_body]
fn append_char(s: &mut String, c: char)
    ensures
        final(s)@ == old(s)@.push(c),
{
    s.push(c)
}

/// One column of a table: its name and its SQL type with constraints.
#[derive(Clone, Copy)]
pub struct Column {
    pub name: &'static str,
    pub sql_type: &'static str,
}

/// A table: its name and its ordered columns.
pub struct TableDefinition {
    pub name: &'static str,
    pub columns: Vec<Column>,
}

pub open spec fn column_view(c: Column) -> (Seq<char>, Seq<char>) {
    (c.name@, c.sql_type@)
}

pub open spec fn columns_view(cs: Seq<Column>) -> Seq<(Seq<char>, Seq<char>)> {
    cs.map_values(|c: Column| column_view(c))
}

/// The items separated by ", ".
pub open spec fn joined(items: Seq<Seq<char>>) -> Seq<char>
    decreases items.len(),
{
    if items.len() == 0 {
        Seq::empty()
    } else if items.len() == 1 {
        items[0]
    } else {
        joined(items.drop_last()) + ", "@ + items.last()
    }
}

pub open spec fn digit(d: nat) -> char {
    "0123456789"@[d as int]
}

/// Decimal notation of `n`, without leading zeros.
pub open spec fn decimal(n: nat) -> Seq<char>
    decreases n,
{
    if n < 10 {
        seq![digit(n)]
    } else {
        decimal(n / 10).push(digit(n % 10))
    }
}

pub open spec fn column_sql(c: (Seq<char>, Seq<char>)) -> Seq<char> {
    c.0 + " "@ + c.1
}

pub open spec fn create_table_sql(name: Seq<char>, cols: Seq<(Seq<char>, Seq<char>)>) -> Seq<char> {
    "CREATE TABLE "@ + name + " ("@ + joined(cols.map_values(|c: (Seq<char>, Seq<char>)| column_sql(c)))
        + ");"@
}

pub open spec fn index_sql(table: Seq<char>, column: Seq<char>) -> Seq<char> {
    "CREATE INDEX "@ + table + "_"@ + column + "_index ON "@ + table + " ("@ + column + ");"@
}

/// Placeholder `?n` for the parameter at position `i` (numbered from one).
pub open spec fn placeholder(i: nat) -> Seq<char> {
    "?"@ + decimal(i + 1)
}

pub open spec fn insert_sql(name: Seq<char>, cols: Seq<(Seq<char>, Seq<char>)>) -> Seq<char> {
    "INSERT INTO "@ + name + " ("@ + joined(cols.map_values(|c: (Seq<char>, Seq<char>)| c.0))
        + ") VALUES ("@ + joined(Seq::new(cols.len(), |i: int| placeholder(i as nat))) + ")"@
}

/// The characters of each string.
pub open spec fn strings_view(items: Seq<String>) -> Seq<Seq<char>> {
    items.map_values(|s: String| s@)
}

/// The items separated by ", ".
pub fn join(items: &Vec<String>) -> (r: String)
    ensures
        r@ == joined(strings_view(items@)),
{
    let mut r = String::new();
    let mut i: usize = 0;
    while i < items.len()
        invariant
            i <= items.len(),
            r@ == joined(strings_view(items@.subrange(0, i as int))),
        decreases items.len() - i,
    {
        let ghost prefix = strings_view(items@.subrange(0, i as int + 1));
        assert(prefix.drop_last() =~= strings_view(items@.subrange(0, i as int)));
        if i > 0 {
            append(&mut r, ", ");
        }
        append(&mut r, items[i].as_str());
        proof {
            if i == 0 {
                assert(r@ =~= prefix[0]);
            } else {
                assert(r@ =~= joined(prefix.drop_last()) + ", "@ + prefix.last());
            }
        }
        i = i + 1;
    }
    assert(items@.subrange(0, items.len() as int) =~= items@);
    r
}

fn append_decimal(s: &mut String, n: usize)
    ensures
        final(s)@ == old(s)@ + decimal(n as nat),
    decreases n,
{
    let digits = "0123456789";
    proof {
        reveal_strlit("0123456789");
    }
    if n < 10 {
        append_char(s, digits.get_char(n));
        assert(decimal(n as nat) =~= seq![digit(n as nat)]);
    } else {
        append_decimal(s, n / 10);
        append_char(s, digits.get_char(n % 10));
        assert(old(s)@ + decimal(n as nat) =~= old(s)@ + decimal((n / 10) as nat) + seq![digit((n % 10) as nat)]);
    }
}

impl TableDefinition {
    pub open spec fn columns_spec(&self) -> Seq<(Seq<char>, Seq<char>)> {
        columns_view(self.columns@)
    }

    /// `CREATE TABLE name (column type, ...);`
    pub fn create_table(&self) -> (r: String)
        ensures
            r@ == create_table_sql(self.name@, self.columns_spec()),
    {
        let mut defs: Vec<String> = Vec::new();
        let mut i: usize = 0;
        while i < self.columns.len()
            invariant
                i <= self.columns.len(),
                defs@.len() == i,
                forall|j: int| 0 <= j < i ==> #[trigger] defs@[j]@ == column_sql(column_view(self.columns@[j])),
            decreases self.columns.len() - i,
        {
            let c = self.columns[i];
            let mut d = String::new();
            append(&mut d, c.name);
            append(&mut d, " ");
            append(&mut d, c.sql_type);
            defs.push(d);
            i = i + 1;
        }
        let list = join(&defs);
        assert(strings_view(defs@) =~= self.columns_spec().map_values(
            |c: (Seq<char>, Seq<char>)| column_sql(c),
        ));
        let mut r = String::new();
        append(&mut r, "CREATE TABLE ");
        append(&mut r, self.name);
        append(&mut r, " (");
        append(&mut r, list.as_str());
        append(&mut r, ");");
        r
    }

    /// `CREATE INDEX table_column_index ON table (column);` for each column,
    /// in column order.
    pub fn create_indices(&self) -> (r: Vec<String>)
        ensures
            r@.len() == self.columns@.len(),
            forall|j: int|
                0 <= j < r@.len() ==> #[trigger] r@[j]@ == index_sql(self.name@, self.columns@[j].name@),
    {
        let mut r: Vec<String> = Vec::new();
        let mut i: usize = 0;
        while i < self.columns.len()
            invariant
                i <= self.columns.len(),
                r@.len() == i,
                forall|j: int|
                    0 <= j < i ==> #[trigger] r@[j]@ == index_sql(self.name@, self.columns@[j].name@),
            decreases self.columns.len() - i,
        {
            let column = self.columns[i].name;
            let mut s = String::new();
            append(&mut s, "CREATE INDEX ");
            append(&mut s, self.name);
            append(&mut s, "_");
            append(&mut s, column);
            append(&mut s, "_index ON ");
            append(&mut s, self.name);
            append(&mut s, " (");
            append(&mut s, column);
            append(&mut s, ");");
            r.push(s);
            i = i + 1;
        }
        r
    }

    /// `INSERT INTO table (column, ...) VALUES (?1, ...)`
    pub fn insert_statement(&self) -> (r: String)
        ensures
            r@ == insert_sql(self.name@, self.columns_spec()),
    {
        let mut names: Vec<String> = Vec::new();
        let mut marks: Vec<String> = Vec::new();
        let mut i: usize = 0;
        while i < self.columns.len()
            invariant
                i <= self.columns.len(),
                names@.len() == i,
                marks@.len() == i,
                forall|j: int| 0 <= j < i ==> #[trigger] names@[j]@ == self.columns@[j].name@,
                forall|j: int| 0 <= j < i ==> #[trigger] marks@[j]@ == placeholder(j as nat),
            decreases self.columns.len() - i,
        {
            let mut n = String::new();
            append(&mut n, self.columns[i].name);
            names.push(n);
            let mut m = String::new();
            append(&mut m, "?");
            append_decimal(&mut m, i + 1);
            marks.push(m);
            i = i + 1;
        }
        let name_list = join(&names);
        let mark_list = join(&marks);
        assert(strings_view(names@) =~= self.columns_spec().map_values(
            |c: (Seq<char>, Seq<char>)| c.0,
        ));
        assert(strings_view(marks@) =~= Seq::new(
            self.columns_spec().len(),
            |i: int| placeholder(i as nat),
        ));
        let mut r = String::new();
        append(&mut r, "INSERT INTO ");
        append(&mut r, self.name);
        append(&mut r, " (");
        append(&mut r, name_list.as_str());
        append(&mut r, ") VALUES (");
        append(&mut r, mark_list.as_str());
        append(&mut r, ")");
        r
    }
}

} // verus!
