//! The extended-query engine (PostgreSQL): decoding by wire type OID, the
//! single result set of a query, and the catalog statements.

use vstd::prelude::*;
use vstd::string::StringExecFns;
use crate::catalog::{QueryResponse, ResultSet};
use crate::error::Error;
use crate::value::{float_value, names_of, row_map, Record, Value};

verus! {

/// Wire type OIDs of the types this engine decodes.
pub const OID_BOOL: u32 = 16;
pub const OID_NAME: u32 = 19;
pub const OID_INT8: u32 = 20;
pub const OID_INT2: u32 = 21;
pub const OID_INT4: u32 = 23;
pub const OID_TEXT: u32 = 25;
pub const OID_FLOAT4: u32 = 700;
pub const OID_FLOAT8: u32 = 701;
pub const OID_VARCHAR: u32 = 1043;

/// How a column is read, by its wire type.
#[derive(Debug, Clone, Copy, PartialEq, Eq, Structural)]
pub enum PgKind {
    Bool,
    Int2,
    Int4,
    Int8,
    Float4,
    Float8,
    Text,
    Unsupported,
}

/// The reading of each wire type OID.
pub open spec fn pg_kind_spec(oid: u32) -> PgKind {
    if oid == OID_BOOL {
        PgKind::Bool
    } else if oid == OID_INT2 {
        PgKind::Int2
    } else if oid == OID_INT4 {
        PgKind::Int4
    } else if oid == OID_INT8 {
        PgKind::Int8
    } else if oid == OID_FLOAT4 {
        PgKind::Float4
    } else if oid == OID_FLOAT8 {
        PgKind::Float8
    } else if oid == OID_TEXT || oid == OID_VARCHAR || oid == OID_NAME {
        PgKind::Text
    } else {
        PgKind::Unsupported
    }
}

/// How a column of the given wire type is read.
pub fn pg_kind(oid: u32) -> (r: PgKind)
    ensures
        r == pg_kind_spec(oid),
{
    if oid == OID_BOOL {
        PgKind::Bool
    } else if oid == OID_INT2 {
        PgKind::Int2
    } else if oid == OID_INT4 {
        PgKind::Int4
    } else if oid == OID_INT8 {
        PgKind::Int8
    } else if oid == OID_FLOAT4 {
        PgKind::Float4
    } else if oid == OID_FLOAT8 {
        PgKind::Float8
    } else if oid == OID_TEXT || oid == OID_VARCHAR || oid == OID_NAME {
        PgKind::Text
    } else {
        PgKind::Unsupported
    }
}

/// One cell of an extended-query row, read as its column's kind directs.
/// Floating-point cells hold a binary64 bit pattern (single precision widened).
pub enum PgCell {
    Bool(Option<bool>),
    Int2(Option<i16>),
    Int4(Option<i32>),
    Int8(Option<i64>),
    Float(Option<u64>),
    Text(Option<String>),
    /// A cell of a type this engine does not decode: the type's name.
    Unsupported(String),
}

/// The placeholder text for a cell of an unsupported type.
pub open spec fn unsupported_text(wire_name: Seq<char>) -> Seq<char> {
    "Unsupported type: "@ + wire_name
}

/// The value a cell decodes to; SQL NULL becomes `Null`, and an unsupported
/// type becomes a placeholder that names it.
pub open spec fn pg_cell_matches(c: PgCell, v: Value) -> bool {
    match c {
        PgCell::Bool(Some(b)) => v == Value::Bool(b),
        PgCell::Int2(Some(i)) => v == Value::Int(i as i64),
        PgCell::Int4(Some(i)) => v == Value::Int(i as i64),
        PgCell::Int8(Some(i)) => v == Value::Int(i),
        PgCell::Float(Some(f)) => v == float_value(f),
        PgCell::Text(Some(s)) => v == Value::Str(s),
        PgCell::Unsupported(name) => v is Str && v->Str_0@ == unsupported_text(name@),
        _ => v == Value::Null,
    }
}

/// Decodes one cell.
pub fn decode_pg_cell(c: PgCell) -> (r: Value)
    ensures
        pg_cell_matches(c, r),
{
    match c {
        PgCell::Bool(Some(b)) => Value::Bool(b),
        PgCell::Int2(Some(i)) => Value::Int(i as i64),
        PgCell::Int4(Some(i)) => Value::Int(i as i64),
        PgCell::Int8(Some(i)) => Value::Int(i),
        PgCell::Float(Some(f)) => Value::from_f64_bits(f),
        PgCell::Text(Some(s)) => Value::Str(s),
        PgCell::Unsupported(name) => {
            let mut text = String::from_str("Unsupported type: ");
            text.append(name.as_str());
            Value::Str(text)
        },
        _ => Value::Null,
    }
}

/// Each value is what the cell in the same place decodes to.
pub open spec fn pg_row_matches(cells: Seq<PgCell>, vals: Seq<Value>) -> bool {
    &&& cells.len() == vals.len()
    &&& forall|k: int| 0 <= k < cells.len() ==> #[trigger] pg_cell_matches(cells[k], vals[k])
}

/// Every row has one cell per column.
pub open spec fn pg_rows_fit(width: nat, rows: Seq<Vec<PgCell>>) -> bool {
    forall|j: int| 0 <= j < rows.len() ==> (#[trigger] rows[j])@.len() == width
}

/// `rs` is the result set of the given columns and rows.
pub open spec fn pg_set_matches(columns: Seq<String>, rows: Seq<Vec<PgCell>>, rs: ResultSet) -> bool {
    &&& rs.wf()
    &&& rs@.columns == names_of(columns)
    &&& rs@.rows.len() == rows.len()
    &&& forall|j: int| 0 <= j < rows.len() ==> exists|vals: Seq<Value>|
        pg_row_matches(#[trigger] rows[j]@, vals) && rs@.rows[j] == row_map(names_of(columns), vals)
}

/// Decodes the cells of one row, in order.
pub fn decode_pg_row(cells: Vec<PgCell>) -> (r: Vec<Value>)
    ensures
        pg_row_matches(cells@, r@),
{
    let ghost cs = cells@;
    let total = cells.len();
    let mut rest = cells;
    let mut out: Vec<Value> = Vec::new();
    let mut i: usize = 0;
    while rest.len() > 0
        invariant
            i + rest@.len() == cs.len(),
            cs.len() == total,
            rest@ == cs.subrange(i as int, cs.len() as int),
            pg_row_matches(cs.subrange(0, i as int), out@),
        decreases rest@.len(),
    {
        let c = rest.remove(0);
        let v = decode_pg_cell(c);
        out.push(v);
        proof {
            assert(rest@ =~= cs.subrange(i + 1, cs.len() as int));
            let pre = cs.subrange(0, i + 1);
            assert forall|k: int| 0 <= k < pre.len() implies #[trigger] pg_cell_matches(pre[k], out@[k]) by {
                if k < i {
                    assert(pre[k] == cs.subrange(0, i as int)[k]);
                }
            }
        }
        i += 1;
    }
    proof {
        assert(cs.subrange(0, i as int) =~= cs);
    }
    out
}

/// The response to one query: this engine returns a single row set per call,
/// so the response holds one result set when rows came back and none when no
/// row did. A row whose width differs from the column list is an internal error.
pub fn assemble_pg(columns: Vec<String>, rows: Vec<Vec<PgCell>>) -> (r: Result<QueryResponse, Error>)
    ensures
        r is Ok <==> pg_rows_fit(columns@.len(), rows@),
        r is Ok ==> {
            &&& r->Ok_0.messages@.len() == 0
            &&& r->Ok_0.wf()
            &&& (rows@.len() == 0 ==> r->Ok_0.results@.len() == 0)
            &&& (rows@.len() > 0 ==> r->Ok_0.results@.len() == 1 && pg_set_matches(
                columns@,
                rows@,
                r->Ok_0.results@[0],
            ))
        },
        r is Err ==> r->Err_0 is DriverInternal,
{
    if rows.len() == 0 {
        return Ok(QueryResponse { results: Vec::new(), messages: Vec::new() });
    }
    let ghost rs = rows@;
    let total = rows.len();
    let mut rest = rows;
    let mut out: Vec<Record> = Vec::new();
    let mut i: usize = 0;
    while rest.len() > 0
        invariant
            i + rest@.len() == rs.len(),
            rs.len() == total,
            rs == rows@,
            rest@ == rs.subrange(i as int, rs.len() as int),
            pg_rows_fit(columns@.len(), rs.subrange(0, i as int)),
            pg_set_matches(columns@, rs.subrange(0, i as int), ResultSet { columns: columns, rows: out }),
        decreases rest@.len(),
    {
        let cells = rest.remove(0);
        proof {
            assert(cells == rs[i as int]);
        }
        if cells.len() != columns.len() {
            proof {
                assert(rs[i as int]@.len() != columns@.len());
                assert(!pg_rows_fit(columns@.len(), rs));
            }
            return Err(Error::DriverInternal(String::from_str("row width differs from its column list")));
        }
        let ghost cv = cells@;
        let ghost old_out = out@;
        let vals = decode_pg_row(cells);
        let ghost vv = vals@;
        let rec = Record::from_row(&columns, vals);
        out.push(rec);
        proof {
            assert(rest@ =~= rs.subrange(i + 1, rs.len() as int));
            let pre = rs.subrange(0, i + 1);
            let prev = rs.subrange(0, i as int);
            let set = ResultSet { columns: columns, rows: out };
            assert forall|j: int| 0 <= j < pre.len() implies (#[trigger] pre[j])@.len() == columns@.len() by {
                if j < i {
                    assert(pre[j] == prev[j]);
                }
            }
            assert forall|j: int| 0 <= j < out@.len() implies #[trigger] out@[j].wf() by {}
            assert(set@.rows =~= crate::catalog::records_view(out@));
            assert forall|j: int| 0 <= j < pre.len() implies exists|vals: Seq<Value>|
                pg_row_matches(#[trigger] pre[j]@, vals) && set@.rows[j] == row_map(names_of(columns@), vals) by {
                if j < i {
                    assert(pre[j] == prev[j]);
                    assert(old_out.len() == i);
                    let w = choose|vals: Seq<Value>| pg_row_matches(prev[j]@, vals)
                        && crate::catalog::records_view(old_out)[j] == row_map(names_of(columns@), vals);
                    assert(out@[j] == old_out[j]);
                    assert(set@.rows[j] == out@[j].view());
                    assert(pg_row_matches(pre[j]@, w) && set@.rows[j] == row_map(names_of(columns@), w));
                } else {
                    assert(pre[j]@ == cv);
                    assert(set@.rows[j] == out@[j].view());
                    assert(pg_row_matches(pre[j]@, vv) && set@.rows[j] == row_map(names_of(columns@), vv));
                }
            }
        }
        i += 1;
    }
    proof {
        assert(rs.subrange(0, i as int) =~= rs);
    }
    let mut results: Vec<ResultSet> = Vec::new();
    results.push(ResultSet { columns, rows: out });
    Ok(QueryResponse { results, messages: Vec::new() })
}

/// The statement listing the databases that are not templates.
pub const PG_LIST_DATABASES: &'static str = "SELECT datname FROM pg_database WHERE datistemplate = false;";

/// The statement listing the schemas, without the system and temporary ones.
pub const PG_LIST_SCHEMAS: &'static str = "SELECT nspname FROM pg_catalog.pg_namespace WHERE nspname NOT IN ('pg_toast', 'pg_catalog', 'information_schema') AND left(nspname, 8) <> 'pg_temp_';";

/// The statement listing the tables of the schema bound to `$1`.
pub const PG_LIST_TABLES: &'static str = "SELECT tablename FROM pg_tables WHERE schemaname = $1;";

/// The statement listing the columns of the table bound to `$2` in the schema bound to `$1`.
pub const PG_LIST_COLUMNS: &'static str = "SELECT column_name, data_type FROM information_schema.columns WHERE table_schema = $1 AND table_name = $2;";

} // verus!
