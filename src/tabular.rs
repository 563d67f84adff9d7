//! The tabular-stream engine (SQL Server): cell decoding and the delimiting
//! of result sets in a response stream, and the catalog statements.

use vstd::prelude::*;
use vstd::string::StringExecFns;
use crate::catalog::{QueryResponse, ResultSet};
use crate::error::Error;
use crate::value::{float_value, names_of, row_map, Record, Value};

verus! {

/// One cell of a tabular-stream row, by wire type. Floating-point cells hold a
/// binary64 bit pattern: a single-precision cell widened, and a decimal cell
/// converted to double.
pub enum TdsCell {
    Bit(Option<bool>),
    U8(Option<u8>),
    I16(Option<i16>),
    I32(Option<i32>),
    I64(Option<i64>),
    F32(Option<u64>),
    F64(Option<u64>),
    Numeric(Option<u64>),
    /// A text cell, or the text form of a wire type that has no closer JSON form.
    Text(Option<String>),
}

/// The value a cell decodes to; SQL NULL becomes `Null`.
pub open spec fn tds_cell_value(c: TdsCell) -> Value {
    match c {
        TdsCell::Bit(Some(b)) => Value::Bool(b),
        TdsCell::U8(Some(i)) => Value::Int(i as i64),
        TdsCell::I16(Some(i)) => Value::Int(i as i64),
        TdsCell::I32(Some(i)) => Value::Int(i as i64),
        TdsCell::I64(Some(i)) => Value::Int(i),
        TdsCell::F32(Some(f)) => float_value(f),
        TdsCell::F64(Some(f)) => float_value(f),
        TdsCell::Numeric(Some(f)) => float_value(f),
        TdsCell::Text(Some(s)) => Value::Str(s),
        _ => Value::Null,
    }
}

/// The values of a row of cells, in order.
pub open spec fn tds_row_values(cells: Seq<TdsCell>) -> Seq<Value> {
    cells.map_values(|c: TdsCell| tds_cell_value(c))
}

/// Decodes one cell.
pub fn decode_tds_cell(c: TdsCell) -> (r: Value)
    ensures
        r == tds_cell_value(c),
{
    match c {
        TdsCell::Bit(Some(b)) => Value::Bool(b),
        TdsCell::U8(Some(i)) => Value::Int(i as i64),
        TdsCell::I16(Some(i)) => Value::Int(i as i64),
        TdsCell::I32(Some(i)) => Value::Int(i as i64),
        TdsCell::I64(Some(i)) => Value::Int(i),
        TdsCell::F32(Some(f)) => Value::from_f64_bits(f),
        TdsCell::F64(Some(f)) => Value::from_f64_bits(f),
        TdsCell::Numeric(Some(f)) => Value::from_f64_bits(f),
        TdsCell::Text(Some(s)) => Value::Str(s),
        _ => Value::Null,
    }
}

/// Decodes the cells of one row, in order.
pub fn decode_tds_row(cells: Vec<TdsCell>) -> (r: Vec<Value>)
    ensures
        r@ == tds_row_values(cells@),
{
    let ghost cs = cells@;
    let total = cells.len();
    let mut rest = cells;
    let mut out: Vec<Value> = Vec::new();
    let mut i: usize = 0;
    while rest.len() > 0
        invariant
            i + rest@.len() == cs.len(),
            cs.len() == total,
            rest@ == cs.subrange(i as int, cs.len() as int),
            out@ == tds_row_values(cs.subrange(0, i as int)),
        decreases rest@.len(),
    {
        let c = rest.remove(0);
        out.push(decode_tds_cell(c));
        proof {
            assert(rest@ =~= cs.subrange(i + 1, cs.len() as int));
            assert(out@ =~= tds_row_values(cs.subrange(0, i + 1)));
        }
        i += 1;
    }
    proof {
        assert(cs.subrange(0, i as int) =~= cs);
    }
    out
}

/// One item of a tabular response stream.
pub enum TdsItem {
    /// The column names of the result set that starts here.
    Metadata(Vec<String>),
    /// A row of the current result set.
    Row(Vec<TdsCell>),
}

/// The result sets a stream announces: per metadata item its columns and
/// the rows that follow it up to the next metadata item.
pub open spec fn tds_groups(items: Seq<TdsItem>) -> Seq<(Seq<String>, Seq<Vec<TdsCell>>)>
    decreases items.len(),
{
    if items.len() == 0 {
        seq![]
    } else {
        let g = tds_groups(items.drop_last());
        match items.last() {
            TdsItem::Metadata(cols) => g.push((cols@, seq![])),
            TdsItem::Row(cells) => if g.len() == 0 {
                g
            } else {
                g.update(g.len() - 1, (g.last().0, g.last().1.push(cells)))
            },
        }
    }
}

/// Every row follows some metadata and has one cell per announced column.
pub open spec fn tds_well_formed(items: Seq<TdsItem>) -> bool
    decreases items.len(),
{
    if items.len() == 0 {
        true
    } else {
        tds_well_formed(items.drop_last()) && match items.last() {
            TdsItem::Metadata(_) => true,
            TdsItem::Row(cells) => {
                let g = tds_groups(items.drop_last());
                g.len() > 0 && cells@.len() == g.last().0.len()
            },
        }
    }
}

/// `rs` is the result set of the given columns and rows.
pub open spec fn tds_set_matches(columns: Seq<String>, rows: Seq<Vec<TdsCell>>, rs: ResultSet) -> bool {
    &&& rs.wf()
    &&& rs.columns@ == columns
    &&& rs.rows@.len() == rows.len()
    &&& forall|j: int| 0 <= j < rows.len() ==> (#[trigger] rs.rows@[j]).view() == row_map(
        names_of(columns),
        tds_row_values(rows[j]@),
    )
}

/// Delimits the result sets of a response stream: a metadata item closes the
/// open result set and opens a new one, and the end of the stream closes the
/// last. A row before any metadata, or of another width than its metadata,
/// is an internal error.
pub fn assemble_tds(items: Vec<TdsItem>) -> (r: Result<QueryResponse, Error>)
    ensures
        r is Ok <==> tds_well_formed(items@),
        r is Ok ==> {
            let g = tds_groups(items@);
            &&& r->Ok_0.results@.len() == g.len()
            &&& r->Ok_0.messages@.len() == 0
            &&& r->Ok_0.wf()
            &&& forall|k: int| 0 <= k < g.len() ==> tds_set_matches(
                (#[trigger] g[k]).0,
                g[k].1,
                r->Ok_0.results@[k],
            )
        },
        r is Err ==> r->Err_0 is DriverInternal,
{
    let ghost input = items@;
    let total = items.len();
    let mut rest = items;
    let mut done: Vec<ResultSet> = Vec::new();
    let mut current: Option<ResultSet> = None;
    let mut i: usize = 0;
    while rest.len() > 0
        invariant
            i + rest@.len() == input.len(),
            input.len() == total,
            input == items@,
            rest@ == input.subrange(i as int, input.len() as int),
            tds_well_formed(input.subrange(0, i as int)),
            ({
                let g = tds_groups(input.subrange(0, i as int));
                &&& (current is None <==> g.len() == 0)
                &&& current is None ==> done@.len() == 0
                &&& current is Some ==> done@.len() + 1 == g.len() && tds_set_matches(
                    g.last().0,
                    g.last().1,
                    current->Some_0,
                )
                &&& forall|k: int| 0 <= k < done@.len() ==> tds_set_matches(
                    (#[trigger] g[k]).0,
                    g[k].1,
                    done@[k],
                )
            }),
        decreases rest@.len(),
    {
        let item = rest.remove(0);
        let ghost pre = input.subrange(0, i as int);
        let ghost next = input.subrange(0, i + 1);
        proof {
            assert(item == input[i as int]);
            assert(rest@ =~= input.subrange(i + 1, input.len() as int));
            assert(next.drop_last() =~= pre);
        }
        let ghost g0 = tds_groups(pre);
        let ghost done0 = done@;
        match item {
            TdsItem::Metadata(cols) => {
                match current.take() {
                    Some(rs) => {
                        done.push(rs);
                    },
                    None => {},
                }
                current = Some(ResultSet { columns: cols, rows: Vec::new() });
                proof {
                    let g1 = tds_groups(next);
                    assert(g1 == g0.push((cols@, Seq::<Vec<TdsCell>>::empty())));
                    assert forall|k: int| 0 <= k < done@.len() implies tds_set_matches(
                        (#[trigger] g1[k]).0,
                        g1[k].1,
                        done@[k],
                    ) by {
                        assert(g1[k] == g0[k]);
                        if k < done0.len() {
                            assert(done@[k] == done0[k]);
                        }
                    }
                    let cur = current->Some_0;
                    assert(cur.rows@.len() == 0);
                    assert(cur.wf());
                }
            },
            TdsItem::Row(cells) => {
                if current.is_none() {
                    proof {
                        assert(!tds_well_formed(next));
                        lemma_tds_prefix_ill_formed(input, i as int + 1);
                    }
                    return Err(Error::DriverInternal(String::from_str("a row arrived before its metadata")));
                }
                let mut rs = current.take().unwrap();
                if cells.len() != rs.columns.len() {
                    proof {
                        assert(!tds_well_formed(next));
                        lemma_tds_prefix_ill_formed(input, i as int + 1);
                    }
                    return Err(Error::DriverInternal(String::from_str("row width differs from its metadata")));
                }
                let ghost cv = cells@;
                let ghost rows0 = rs.rows@;
                let vals = decode_tds_row(cells);
                let rec = Record::from_row(&rs.columns, vals);
                rs.rows.push(rec);
                proof {
                    let g1 = tds_groups(next);
                    let last = g0.last();
                    assert(g1 == g0.update(g0.len() - 1, (last.0, last.1.push(input[i as int]->Row_0))));
                    assert(input[i as int]->Row_0@ == cv);
                    assert forall|j: int| 0 <= j < rs.rows@.len() implies #[trigger] rs.rows@[j].wf() by {
                        if j < rows0.len() {
                            assert(rs.rows@[j] == rows0[j]);
                        }
                    }
                    assert forall|j: int| 0 <= j < g1.last().1.len() implies (#[trigger] rs.rows@[j]).view()
                        == row_map(names_of(g1.last().0), tds_row_values(g1.last().1[j]@)) by {
                        if j < rows0.len() {
                            assert(rs.rows@[j] == rows0[j]);
                            assert(g1.last().1[j] == last.1[j]);
                        }
                    }
                    assert forall|k: int| 0 <= k < done@.len() implies tds_set_matches(
                        (#[trigger] g1[k]).0,
                        g1[k].1,
                        done@[k],
                    ) by {
                        assert(g1[k] == g0[k]);
                    }
                }
                current = Some(rs);
            },
        }
        i += 1;
    }
    proof {
        assert(input.subrange(0, i as int) =~= input);
    }
    let ghost g = tds_groups(input);
    let ghost done0 = done@;
    match current {
        Some(rs) => {
            done.push(rs);
        },
        None => {},
    }
    proof {
        assert forall|k: int| 0 <= k < done@.len() implies tds_set_matches(
            (#[trigger] g[k]).0,
            g[k].1,
            done@[k],
        ) by {
            if k < done0.len() {
                assert(done@[k] == done0[k]);
            }
        }
        assert forall|k: int| 0 <= k < done@.len() implies #[trigger] done@[k].wf() by {
            assert(tds_set_matches(g[k].0, g[k].1, done@[k]));
        }
    }
    Ok(QueryResponse { results: done, messages: Vec::new() })
}

/// The number of metadata items of a stream.
pub open spec fn metadata_count(items: Seq<TdsItem>) -> nat
    decreases items.len(),
{
    if items.len() == 0 {
        0
    } else {
        metadata_count(items.drop_last()) + if items.last() is Metadata {
            1nat
        } else {
            0nat
        }
    }
}

/// A stream announces one result set per metadata item, so a single
/// statement, which announces at most one, yields at most one result set.
pub proof fn tds_one_set_per_metadata(items: Seq<TdsItem>)
    ensures
        tds_groups(items).len() == metadata_count(items),
    decreases items.len(),
{
    if items.len() > 0 {
        tds_one_set_per_metadata(items.drop_last());
    }
}

/// A single statement announces at most one result set, so its response
/// holds at most one.
pub proof fn tds_single_statement_at_most_one_set(items: Seq<TdsItem>)
    requires
        metadata_count(items) <= 1,
    ensures
        tds_groups(items).len() <= 1,
{
    tds_one_set_per_metadata(items);
}

/// A text cell comes back from its row's record as the identical string,
/// under its column's name (when no later column has the same name).
pub proof fn tds_text_round_trip(columns: Seq<String>, cells: Seq<TdsCell>, k: int)
    requires
        columns.len() == cells.len(),
        0 <= k < cells.len(),
        cells[k] is Text,
        cells[k]->Text_0 is Some,
        forall|j: int| k < j < columns.len() ==> columns[j]@ != columns[k]@,
    ensures
        row_map(names_of(columns), tds_row_values(cells))[columns[k]@] == Value::Str(cells[k]->Text_0->Some_0),
{
    let names = names_of(columns);
    assert forall|j: int| k < j < names.len() implies names[j] != names[k] by {}
    crate::value::row_map_binds_last(names, tds_row_values(cells), k);
}

/// A stream whose prefix is ill formed is ill formed.
proof fn lemma_tds_prefix_ill_formed(items: Seq<TdsItem>, n: int)
    requires
        0 <= n <= items.len(),
        !tds_well_formed(items.subrange(0, n)),
    ensures
        !tds_well_formed(items),
    decreases items.len() - n,
{
    if n < items.len() {
        let next = items.subrange(0, n + 1);
        assert(next.drop_last() =~= items.subrange(0, n));
        lemma_tds_prefix_ill_formed(items, n + 1);
    } else {
        assert(items.subrange(0, n) =~= items);
    }
}

} // verus!
