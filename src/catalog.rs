//! The shared shape of query results and catalog listings.

use vstd::prelude::*;
use vstd::string::StringExecFns;
use crate::value::{names_of, Record, Value};

verus! {

/// A database on the server.
#[derive(Debug, Clone)]
pub struct Database {
    pub name: String,
}

/// A schema inside a database.
#[derive(Debug, Clone)]
pub struct Schema {
    pub name: String,
}

/// A table inside a schema (or, where the engine has no schemas, a database).
#[derive(Debug, Clone)]
pub struct Table {
    pub name: String,
}

/// A column of a table with the engine's name for its type.
#[derive(Debug, Clone)]
pub struct Column {
    pub name: String,
    pub data_type: String,
}

/// What a result set denotes: its column names in wire order and one mapping
/// per row.
pub struct ResultSetView {
    pub columns: Seq<Seq<char>>,
    pub rows: Seq<Map<Seq<char>, Value>>,
}

/// The rows and column list produced by one executed statement.
pub struct ResultSet {
    pub columns: Vec<String>,
    pub rows: Vec<Record>,
}

/// Every record of a sequence is well formed.
pub open spec fn records_wf(rows: Seq<Record>) -> bool {
    forall|i: int| 0 <= i < rows.len() ==> #[trigger] rows[i].wf()
}

/// The mappings that a sequence of records denotes.
pub open spec fn records_view(rows: Seq<Record>) -> Seq<Map<Seq<char>, Value>> {
    rows.map_values(|r: Record| r.view())
}

impl ResultSet {
    pub open spec fn wf(&self) -> bool {
        records_wf(self.rows@)
    }

    pub open spec fn view(&self) -> ResultSetView {
        ResultSetView {
            columns: names_of(self.columns@),
            rows: records_view(self.rows@),
        }
    }

    /// The number of rows.
    pub fn row_count(&self) -> (r: usize)
        ensures
            r == self.rows@.len(),
    {
        self.rows.len()
    }
}

/// Every result set of a sequence is well formed.
pub open spec fn sets_wf(sets: Seq<ResultSet>) -> bool {
    forall|i: int| 0 <= i < sets.len() ==> #[trigger] sets[i].wf()
}

/// What a sequence of result sets denotes.
pub open spec fn sets_view(sets: Seq<ResultSet>) -> Seq<ResultSetView> {
    sets.map_values(|s: ResultSet| s.view())
}

/// The result of one call to execute a query: one result set per statement
/// result that the engine reports, and the engine's diagnostic messages.
pub struct QueryResponse {
    pub results: Vec<ResultSet>,
    pub messages: Vec<String>,
}

impl QueryResponse {
    pub open spec fn wf(&self) -> bool {
        sets_wf(self.results@)
    }
}


/// The text stored under `key` in a row, if it is a string.
pub open spec fn text_at(m: Map<Seq<char>, Value>, key: Seq<char>) -> Option<Seq<char>> {
    if m.contains_key(key) && m[key] is Str {
        Some(m[key]->Str_0@)
    } else {
        None
    }
}

/// The texts stored under `key` in each row, in row order, skipping rows
/// where it is absent or not a string.
pub open spec fn texts_at(rows: Seq<Map<Seq<char>, Value>>, key: Seq<char>) -> Seq<Seq<char>>
    decreases rows.len(),
{
    if rows.len() == 0 {
        seq![]
    } else {
        let rest = texts_at(rows.drop_last(), key);
        match text_at(rows.last(), key) {
            Some(t) => rest.push(t),
            None => rest,
        }
    }
}

/// The present entries of a list, in order.
pub open spec fn present(cells: Seq<Option<String>>) -> Seq<Seq<char>>
    decreases cells.len(),
{
    if cells.len() == 0 {
        seq![]
    } else {
        let rest = present(cells.drop_last());
        match cells.last() {
            Some(t) => rest.push(t@),
            None => rest,
        }
    }
}

pub open spec fn database_names(v: Seq<Database>) -> Seq<Seq<char>> {
    v.map_values(|d: Database| d.name@)
}

pub open spec fn schema_names(v: Seq<Schema>) -> Seq<Seq<char>> {
    v.map_values(|d: Schema| d.name@)
}

pub open spec fn table_names(v: Seq<Table>) -> Seq<Seq<char>> {
    v.map_values(|d: Table| d.name@)
}

/// The string stored under `key` in a record, if any.
pub fn text_in(rec: &Record, key: &str) -> (r: Option<String>)
    requires
        rec.wf(),
    ensures
        r is Some <==> text_at(rec.view(), key@) is Some,
        r is Some ==> r->Some_0@ == text_at(rec.view(), key@)->Some_0,
{
    match rec.get(key) {
        Some(Value::Str(s)) => Some(s.clone()),
        _ => None,
    }
}

/// The strings under `key` in the rows of a result set, in row order.
pub fn texts_in(set: &ResultSet, key: &str) -> (r: Vec<String>)
    requires
        set.wf(),
    ensures
        names_of(r@) == texts_at(set@.rows, key@),
{
    let mut out: Vec<String> = Vec::new();
    let mut i: usize = 0;
    while i < set.rows.len()
        invariant
            set.wf(),
            i <= set.rows@.len(),
            names_of(out@) == texts_at(set@.rows.subrange(0, i as int), key@),
        decreases set.rows@.len() - i,
    {
        let ghost before = out@;
        let t = text_in(&set.rows[i], key);
        match t {
            Some(s) => out.push(s),
            None => {},
        }
        proof {
            let pre = set@.rows.subrange(0, i + 1);
            assert(pre.drop_last() =~= set@.rows.subrange(0, i as int));
            assert(pre.last() == set.rows@[i as int].view());
            assert(names_of(out@) =~= texts_at(pre, key@));
        }
        i += 1;
    }
    proof {
        assert(set@.rows.subrange(0, i as int) =~= set@.rows);
    }
    out
}

/// The present entries of a list of optional names, in order.
pub fn present_names(cells: Vec<Option<String>>) -> (r: Vec<String>)
    ensures
        names_of(r@) == present(cells@),
{
    let ghost cs = cells@;
    let total = cells.len();
    let mut rest = cells;
    let mut out: Vec<String> = Vec::new();
    let mut i: usize = 0;
    while rest.len() > 0
        invariant
            i + rest@.len() == cs.len(),
            cs.len() == total,
            cs == cells@,
            rest@ == cs.subrange(i as int, cs.len() as int),
            names_of(out@) == present(cs.subrange(0, i as int)),
        decreases rest@.len(),
    {
        let c = rest.remove(0);
        match c {
            Some(s) => out.push(s),
            None => {},
        }
        proof {
            assert(rest@ =~= cs.subrange(i + 1, cs.len() as int));
            let pre = cs.subrange(0, i + 1);
            assert(pre.drop_last() =~= cs.subrange(0, i as int));
            assert(names_of(out@) =~= present(pre));
        }
        i += 1;
    }
    proof {
        assert(cs.subrange(0, i as int) =~= cs);
    }
    out
}

/// The databases of the given names, in order.
pub fn databases_from(names: Vec<String>) -> (r: Vec<Database>)
    ensures
        database_names(r@) == names_of(names@),
{
    let ghost ns = names@;
    let mut rest = names;
    let mut out: Vec<Database> = Vec::new();
    let total = rest.len();
    let mut i: usize = 0;
    while rest.len() > 0
        invariant
            i + rest@.len() == ns.len(),
            ns.len() == total,
            rest@ == ns.subrange(i as int, ns.len() as int),
            out@.len() == i,
            database_names(out@) == names_of(ns.subrange(0, i as int)),
        decreases rest@.len(),
    {
        let name = rest.remove(0);
        proof {
            assert(name == ns[i as int]);
        }
        let ghost prev = out@;
        out.push(Database { name });
        proof {
            assert(rest@ =~= ns.subrange(i + 1, ns.len() as int));
            assert forall|k: int| 0 <= k < i + 1 implies #[trigger] database_names(out@)[k] == names_of(
                ns.subrange(0, i + 1),
            )[k] by {
                if k < i {
                    assert(database_names(prev)[k] == names_of(ns.subrange(0, i as int))[k]);
                }
            }
            assert(database_names(out@) =~= names_of(ns.subrange(0, i + 1)));
        }
        i += 1;
    }
    proof {
        assert(ns.subrange(0, i as int) =~= ns);
    }
    out
}

/// The schemas of the given names, in order.
pub fn schemas_from(names: Vec<String>) -> (r: Vec<Schema>)
    ensures
        schema_names(r@) == names_of(names@),
{
    let ghost ns = names@;
    let mut rest = names;
    let mut out: Vec<Schema> = Vec::new();
    let total = rest.len();
    let mut i: usize = 0;
    while rest.len() > 0
        invariant
            i + rest@.len() == ns.len(),
            ns.len() == total,
            rest@ == ns.subrange(i as int, ns.len() as int),
            out@.len() == i,
            schema_names(out@) == names_of(ns.subrange(0, i as int)),
        decreases rest@.len(),
    {
        let name = rest.remove(0);
        proof {
            assert(name == ns[i as int]);
        }
        let ghost prev = out@;
        out.push(Schema { name });
        proof {
            assert(rest@ =~= ns.subrange(i + 1, ns.len() as int));
            assert forall|k: int| 0 <= k < i + 1 implies #[trigger] schema_names(out@)[k] == names_of(
                ns.subrange(0, i + 1),
            )[k] by {
                if k < i {
                    assert(schema_names(prev)[k] == names_of(ns.subrange(0, i as int))[k]);
                }
            }
            assert(schema_names(out@) =~= names_of(ns.subrange(0, i + 1)));
        }
        i += 1;
    }
    proof {
        assert(ns.subrange(0, i as int) =~= ns);
    }
    out
}

/// The tables of the given names, in order.
pub fn tables_from(names: Vec<String>) -> (r: Vec<Table>)
    ensures
        table_names(r@) == names_of(names@),
{
    let ghost ns = names@;
    let mut rest = names;
    let mut out: Vec<Table> = Vec::new();
    let total = rest.len();
    let mut i: usize = 0;
    while rest.len() > 0
        invariant
            i + rest@.len() == ns.len(),
            ns.len() == total,
            rest@ == ns.subrange(i as int, ns.len() as int),
            out@.len() == i,
            table_names(out@) == names_of(ns.subrange(0, i as int)),
        decreases rest@.len(),
    {
        let name = rest.remove(0);
        proof {
            assert(name == ns[i as int]);
        }
        let ghost prev = out@;
        out.push(Table { name });
        proof {
            assert(rest@ =~= ns.subrange(i + 1, ns.len() as int));
            assert forall|k: int| 0 <= k < i + 1 implies #[trigger] table_names(out@)[k] == names_of(
                ns.subrange(0, i + 1),
            )[k] by {
                if k < i {
                    assert(table_names(prev)[k] == names_of(ns.subrange(0, i as int))[k]);
                }
            }
            assert(table_names(out@) =~= names_of(ns.subrange(0, i + 1)));
        }
        i += 1;
    }
    proof {
        assert(ns.subrange(0, i as int) =~= ns);
    }
    out
}


/// The text under `key` in a row, or the empty text.
pub open spec fn text_or_empty(m: Map<Seq<char>, Value>, key: Seq<char>) -> Seq<char> {
    match text_at(m, key) {
        Some(t) => t,
        None => Seq::empty(),
    }
}

/// The first column name of a result set, or the empty text.
pub open spec fn first_column(v: ResultSetView) -> Seq<char> {
    if v.columns.len() > 0 {
        v.columns[0]
    } else {
        Seq::empty()
    }
}

/// The second column name of a result set, or the empty text.
pub open spec fn second_column(v: ResultSetView) -> Seq<char> {
    if v.columns.len() > 1 {
        v.columns[1]
    } else {
        Seq::empty()
    }
}

pub open spec fn column_pairs(v: Seq<Column>) -> Seq<(Seq<char>, Seq<char>)> {
    v.map_values(|c: Column| (c.name@, c.data_type@))
}

/// The string under `key` in a record, or the empty string.
pub fn text_in_or_empty(rec: &Record, key: &str) -> (r: String)
    requires
        rec.wf(),
    ensures
        r@ == text_or_empty(rec.view(), key@),
{
    match text_in(rec, key) {
        Some(s) => s,
        None => String::new(),
    }
}

/// The first column name of a result set, or the empty string.
pub fn first_column_of(set: &ResultSet) -> (r: String)
    ensures
        r@ == first_column(set@),
{
    if set.columns.len() > 0 {
        set.columns[0].clone()
    } else {
        String::new()
    }
}

/// The second column name of a result set, or the empty string.
pub fn second_column_of(set: &ResultSet) -> (r: String)
    ensures
        r@ == second_column(set@),
{
    if set.columns.len() > 1 {
        set.columns[1].clone()
    } else {
        String::new()
    }
}

/// Per row, the texts of the first two columns (or the empty text), as a
/// name and a type.
pub open spec fn row_columns(v: ResultSetView) -> Seq<(Seq<char>, Seq<char>)> {
    v.rows.map_values(|m: Map<Seq<char>, Value>| (text_or_empty(m, first_column(v)), text_or_empty(m, second_column(v))))
}

/// The name and type given by each row of a column listing.
pub fn columns_listed(set: &ResultSet) -> (r: Vec<Column>)
    requires
        set.wf(),
    ensures
        column_pairs(r@) == row_columns(set@),
{
    let k0 = first_column_of(set);
    let k1 = second_column_of(set);
    let mut out: Vec<Column> = Vec::new();
    let mut i: usize = 0;
    while i < set.rows.len()
        invariant
            set.wf(),
            k0@ == first_column(set@),
            k1@ == second_column(set@),
            i <= set.rows@.len(),
            out@.len() == i,
            forall|k: int| 0 <= k < i ==> #[trigger] column_pairs(out@)[k] == row_columns(set@)[k],
        decreases set.rows@.len() - i,
    {
        let name = text_in_or_empty(&set.rows[i], k0.as_str());
        let data_type = text_in_or_empty(&set.rows[i], k1.as_str());
        let ghost prev = out@;
        out.push(Column { name, data_type });
        proof {
            assert forall|k: int| 0 <= k < i + 1 implies #[trigger] column_pairs(out@)[k] == row_columns(set@)[k] by {
                if k < i {
                    assert(column_pairs(prev)[k] == row_columns(set@)[k]);
                } else {
                    assert(set@.rows[k] == set.rows@[k].view());
                }
            }
        }
        i += 1;
    }
    proof {
        assert(column_pairs(out@) =~= row_columns(set@));
    }
    out
}


/// The databases named by the present entries of a listing, in order.
pub fn databases_present(cells: Vec<Option<String>>) -> (r: Vec<Database>)
    ensures
        database_names(r@) == present(cells@),
{
    databases_from(present_names(cells))
}

/// The schemas named by the present entries of a listing, in order.
pub fn schemas_present(cells: Vec<Option<String>>) -> (r: Vec<Schema>)
    ensures
        schema_names(r@) == present(cells@),
{
    schemas_from(present_names(cells))
}

/// The tables named by the present entries of a listing, in order.
pub fn tables_present(cells: Vec<Option<String>>) -> (r: Vec<Table>)
    ensures
        table_names(r@) == present(cells@),
{
    tables_from(present_names(cells))
}

/// The rows of a column listing where both the name and the type are present.
pub open spec fn complete_pairs(rows: Seq<(Option<String>, Option<String>)>) -> Seq<(Seq<char>, Seq<char>)>
    decreases rows.len(),
{
    if rows.len() == 0 {
        seq![]
    } else {
        let rest = complete_pairs(rows.drop_last());
        match rows.last() {
            (Some(n), Some(t)) => rest.push((n@, t@)),
            _ => rest,
        }
    }
}

/// The columns of a listing of (name, type) rows, skipping rows where
/// either is missing.
pub fn columns_present(rows: Vec<(Option<String>, Option<String>)>) -> (r: Vec<Column>)
    ensures
        column_pairs(r@) == complete_pairs(rows@),
{
    let ghost rs = rows@;
    let total = rows.len();
    let mut rest = rows;
    let mut out: Vec<Column> = Vec::new();
    let mut i: usize = 0;
    while rest.len() > 0
        invariant
            i + rest@.len() == rs.len(),
            rs.len() == total,
            rest@ == rs.subrange(i as int, rs.len() as int),
            column_pairs(out@) == complete_pairs(rs.subrange(0, i as int)),
        decreases rest@.len(),
    {
        let row = rest.remove(0);
        let ghost prev = out@;
        proof {
            assert(row == rs[i as int]);
            assert(rest@ =~= rs.subrange(i + 1, rs.len() as int));
            assert(rs.subrange(0, i + 1).drop_last() =~= rs.subrange(0, i as int));
        }
        match row {
            (Some(name), Some(data_type)) => {
                out.push(Column { name, data_type });
                proof {
                    assert(column_pairs(out@) =~= column_pairs(prev).push((rs[i as int].0->Some_0@, rs[i as int].1->Some_0@)));
                }
            },
            _ => {},
        }
        proof {
            assert(column_pairs(out@) =~= complete_pairs(rs.subrange(0, i + 1)));
        }
        i += 1;
    }
    proof {
        assert(rs.subrange(0, i as int) =~= rs);
    }
    out
}

} // verus!
