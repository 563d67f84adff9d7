//! The resource-protocol engine (MySQL): cell decoding, result assembly,
//! catalog statements and connection-error classification.
//!
//! This engine has no schema layer: tables and columns are listed by
//! database name directly.

use vstd::prelude::*;
use vstd::string::StringExecFns;
use crate::text::{
    backtick_quoted, decimal, parse_signed_text, parse_unsigned_text, push_char, signed_text_value,
    unsigned_text_value, push_decimal, push_zero_padded, quote_identifier,
    utf8_lossy, lossy_utf8, zero_padded,
};
use crate::catalog::{
    column_pairs, columns_listed, database_names, databases_from, first_column, first_column_of,
    row_columns, sets_view, sets_wf, table_names, tables_from, texts_at, texts_in,
    Column, Database, QueryResponse, ResultSet, ResultSetView, Table,
};
use crate::error::{ConnectCause, Error};
use crate::session::ConnectFailure;
use crate::value::{float_value, names_of, row_map, row_map_binds_last, Record, Value};
use vstd::utf8::{decode_utf8, valid_utf8};

verus! {

/// One cell as the resource protocol delivers it. Floating-point cells hold a
/// binary64 bit pattern (a single-precision cell widened to double).
pub enum MyCell {
    Null,
    Bytes(Vec<u8>),
    Int(i64),
    UInt(u64),
    Float(u64),
    Double(u64),
    /// Year, month, day, hour, minute, second, microsecond.
    Date(u16, u8, u8, u8, u8, u8, u32),
    /// Negative flag, days, hours, minutes, seconds, microseconds.
    Time(bool, u32, u8, u8, u8, u32),
    /// A signed integer column's value as the text protocol sends it.
    SignedText(Vec<u8>),
    /// An unsigned integer column's value as the text protocol sends it.
    UnsignedText(Vec<u8>),
}

/// `YYYY-MM-DD HH:MM:SS.ffffff`.
pub open spec fn date_text(y: u16, mo: u8, d: u8, h: u8, mi: u8, s: u8, us: u32) -> Seq<char> {
    zero_padded(y as nat, 4) + seq!['-'] + zero_padded(mo as nat, 2) + seq!['-']
        + zero_padded(d as nat, 2) + seq![' '] + zero_padded(h as nat, 2) + seq![':']
        + zero_padded(mi as nat, 2) + seq![':'] + zero_padded(s as nat, 2) + seq!['.']
        + zero_padded(us as nat, 6)
}

/// `[-]D HH:MM:SS.ffffff`, the days unpadded.
pub open spec fn time_text(neg: bool, d: u32, h: u8, mi: u8, s: u8, us: u32) -> Seq<char> {
    (if neg { seq!['-'] } else { Seq::<char>::empty() }) + decimal(d as nat) + seq![' ']
        + zero_padded(h as nat, 2) + seq![':'] + zero_padded(mi as nat, 2) + seq![':']
        + zero_padded(s as nat, 2) + seq!['.'] + zero_padded(us as nat, 6)
}

/// The value a cell decodes to, up to the text of byte strings, dates and
/// times, which `cell_text` gives.
pub open spec fn my_cell_matches(c: MyCell, v: Value) -> bool {
    match c {
        MyCell::Null => v == Value::Null,
        MyCell::Int(i) => v == Value::Int(i),
        MyCell::UInt(u) => v == Value::UInt(u),
        MyCell::Float(f) => v == float_value(f),
        MyCell::Double(f) => v == float_value(f),
        MyCell::Bytes(b) => v is Str && v->Str_0@ == lossy_utf8(b@) && (valid_utf8(b@) ==> v->Str_0@
            == decode_utf8(b@)),
        MyCell::Date(y, mo, d, h, mi, s, us) => v is Str && v->Str_0@ == date_text(y, mo, d, h, mi, s, us),
        MyCell::Time(neg, d, h, mi, s, us) => v is Str && v->Str_0@ == time_text(neg, d, h, mi, s, us),
        MyCell::SignedText(b) => match signed_text_value(b@) {
            Some(n) => v == Value::Int(n),
            None => v is Str && v->Str_0@ == lossy_utf8(b@),
        },
        MyCell::UnsignedText(b) => match unsigned_text_value(b@) {
            Some(n) => v == Value::UInt(n),
            None => v is Str && v->Str_0@ == lossy_utf8(b@),
        },
    }
}

/// Renders a date cell.
pub fn render_date(y: u16, mo: u8, d: u8, h: u8, mi: u8, s: u8, us: u32) -> (r: String)
    ensures
        r@ == date_text(y, mo, d, h, mi, s, us),
{
    let mut out = String::new();
    push_zero_padded(&mut out, y as u64, 4);
    push_char(&mut out, '-');
    push_zero_padded(&mut out, mo as u64, 2);
    push_char(&mut out, '-');
    push_zero_padded(&mut out, d as u64, 2);
    push_char(&mut out, ' ');
    push_zero_padded(&mut out, h as u64, 2);
    push_char(&mut out, ':');
    push_zero_padded(&mut out, mi as u64, 2);
    push_char(&mut out, ':');
    push_zero_padded(&mut out, s as u64, 2);
    push_char(&mut out, '.');
    push_zero_padded(&mut out, us as u64, 6);
    proof {
        assert(out@ =~= date_text(y, mo, d, h, mi, s, us));
    }
    out
}

/// Renders a time cell.
pub fn render_time(neg: bool, d: u32, h: u8, mi: u8, s: u8, us: u32) -> (r: String)
    ensures
        r@ == time_text(neg, d, h, mi, s, us),
{
    let mut out = String::new();
    if neg {
        push_char(&mut out, '-');
    }
    push_decimal(&mut out, d as u64);
    push_char(&mut out, ' ');
    push_zero_padded(&mut out, h as u64, 2);
    push_char(&mut out, ':');
    push_zero_padded(&mut out, mi as u64, 2);
    push_char(&mut out, ':');
    push_zero_padded(&mut out, s as u64, 2);
    push_char(&mut out, '.');
    push_zero_padded(&mut out, us as u64, 6);
    proof {
        assert(out@ =~= time_text(neg, d, h, mi, s, us));
    }
    out
}

/// Decodes one cell.
pub fn decode_my_cell(c: MyCell) -> (r: Value)
    ensures
        my_cell_matches(c, r),
{
    match c {
        MyCell::Null => Value::Null,
        MyCell::Int(i) => Value::Int(i),
        MyCell::UInt(u) => Value::UInt(u),
        MyCell::Float(f) => Value::from_f64_bits(f),
        MyCell::Double(f) => Value::from_f64_bits(f),
        MyCell::Bytes(b) => Value::Str(utf8_lossy(&b)),
        MyCell::Date(y, mo, d, h, mi, s, us) => Value::Str(render_date(y, mo, d, h, mi, s, us)),
        MyCell::Time(neg, d, h, mi, s, us) => Value::Str(render_time(neg, d, h, mi, s, us)),
        MyCell::SignedText(b) => match parse_signed_text(&b) {
            Some(n) => Value::Int(n),
            None => Value::Str(utf8_lossy(&b)),
        },
        MyCell::UnsignedText(b) => match parse_unsigned_text(&b) {
            Some(n) => Value::UInt(n),
            None => Value::Str(utf8_lossy(&b)),
        },
    }
}


/// Each value is what the cell in the same place decodes to.
pub open spec fn my_row_matches(cells: Seq<MyCell>, vals: Seq<Value>) -> bool {
    &&& cells.len() == vals.len()
    &&& forall|k: int| 0 <= k < cells.len() ==> #[trigger] my_cell_matches(cells[k], vals[k])
}

/// Every row has one cell per column.
pub open spec fn my_rows_fit(width: nat, rows: Seq<Vec<MyCell>>) -> bool {
    forall|j: int| 0 <= j < rows.len() ==> (#[trigger] rows[j])@.len() == width
}

/// `rs` is the result set of the given columns and rows: the same columns,
/// and per row the record of its decoded cells.
pub open spec fn my_set_matches(columns: Seq<String>, rows: Seq<Vec<MyCell>>, rs: ResultSet) -> bool {
    &&& rs.wf()
    &&& rs@.columns == names_of(columns)
    &&& rs@.rows.len() == rows.len()
    &&& forall|j: int| 0 <= j < rows.len() ==> exists|vals: Seq<Value>|
        my_row_matches(#[trigger] rows[j]@, vals) && rs@.rows[j] == row_map(names_of(columns), vals)
}

/// A byte-string cell holding UTF-8 text comes back from its row's record as
/// that text, under its column's name (when no later column has the same name).
pub proof fn resource_text_round_trip(columns: Seq<String>, cells: Seq<MyCell>, vals: Seq<Value>, k: int)
    requires
        columns.len() == cells.len(),
        my_row_matches(cells, vals),
        0 <= k < cells.len(),
        cells[k] is Bytes,
        valid_utf8(cells[k]->Bytes_0@),
        forall|j: int| k < j < columns.len() ==> columns[j]@ != columns[k]@,
    ensures
        row_map(names_of(columns), vals)[columns[k]@] is Str,
        row_map(names_of(columns), vals)[columns[k]@]->Str_0@ == decode_utf8(cells[k]->Bytes_0@),
{
    let names = names_of(columns);
    assert forall|j: int| k < j < names.len() implies names[j] != names[k] by {}
    assert(my_cell_matches(cells[k], vals[k]));
    row_map_binds_last(names, vals, k);
}

/// Decodes the cells of one row, in order.
pub fn decode_my_row(cells: Vec<MyCell>) -> (r: Vec<Value>)
    ensures
        my_row_matches(cells@, r@),
{
    let ghost cs = cells@;
    let total = cells.len();
    let mut rest = cells;
    let mut out: Vec<Value> = Vec::new();
    let mut i: usize = 0;
    while rest.len() > 0
        invariant
            i + rest@.len() == cs.len(),
            cs.len() == total,
            rest@ == cs.subrange(i as int, cs.len() as int),
            my_row_matches(cs.subrange(0, i as int), out@),
        decreases rest@.len(),
    {
        let c = rest.remove(0);
        let v = decode_my_cell(c);
        out.push(v);
        proof {
            assert(rest@ =~= cs.subrange(i + 1, cs.len() as int));
            let pre = cs.subrange(0, i + 1);
            assert forall|k: int| 0 <= k < pre.len() implies #[trigger] my_cell_matches(pre[k], out@[k]) by {
                if k < i {
                    assert(pre[k] == cs.subrange(0, i as int)[k]);
                }
            }
        }
        i += 1;
    }
    proof {
        assert(cs.subrange(0, i as int) =~= cs);
    }
    out
}

/// The result set of one drained statement result. A row whose width differs
/// from the column list is an internal error.
pub fn resource_result_set(columns: Vec<String>, rows: Vec<Vec<MyCell>>) -> (r: Result<ResultSet, Error>)
    ensures
        r is Ok <==> my_rows_fit(columns@.len(), rows@),
        r is Ok ==> my_set_matches(columns@, rows@, r->Ok_0),
        r is Err ==> r->Err_0 is DriverInternal,
{
    let ghost rs = rows@;
    let total = rows.len();
    let mut rest = rows;
    let mut out: Vec<Record> = Vec::new();
    let mut i: usize = 0;
    while rest.len() > 0
        invariant
            i + rest@.len() == rs.len(),
            rs.len() == total,
            rs == rows@,
            rest@ == rs.subrange(i as int, rs.len() as int),
            my_rows_fit(columns@.len(), rs.subrange(0, i as int)),
            my_set_matches(columns@, rs.subrange(0, i as int), ResultSet { columns: columns, rows: out }),
        decreases rest@.len(),
    {
        let cells = rest.remove(0);
        proof {
            assert(cells == rs[i as int]);
        }
        if cells.len() != columns.len() {
            proof {
                assert(rs[i as int]@.len() != columns@.len());
                assert(!my_rows_fit(columns@.len(), rs));
            }
            return Err(Error::DriverInternal(String::from_str("row width differs from its column list")));
        }
        let ghost cv = cells@;
        let ghost old_out = out@;
        let vals = decode_my_row(cells);
        let ghost vv = vals@;
        let rec = Record::from_row(&columns, vals);
        out.push(rec);
        proof {
            assert(rest@ =~= rs.subrange(i + 1, rs.len() as int));
            let pre = rs.subrange(0, i + 1);
            let prev = rs.subrange(0, i as int);
            let set = ResultSet { columns: columns, rows: out };
            assert forall|j: int| 0 <= j < pre.len() implies (#[trigger] pre[j])@.len() == columns@.len() by {
                if j < i {
                    assert(pre[j] == prev[j]);
                }
            }
            assert forall|j: int| 0 <= j < out@.len() implies #[trigger] out@[j].wf() by {}
            assert(set@.rows =~= crate::catalog::records_view(out@));
            assert forall|j: int| 0 <= j < pre.len() implies exists|vals: Seq<Value>|
                my_row_matches(#[trigger] pre[j]@, vals) && set@.rows[j] == row_map(names_of(columns@), vals) by {
                if j < i {
                    assert(pre[j] == prev[j]);
                    assert(old_out.len() == i);
                    let w = choose|vals: Seq<Value>| my_row_matches(prev[j]@, vals)
                        && crate::catalog::records_view(old_out)[j] == row_map(names_of(columns@), vals);
                    assert(out@[j] == old_out[j]);
                    assert(set@.rows[j] == out@[j].view());
                    assert(my_row_matches(pre[j]@, w) && set@.rows[j] == row_map(names_of(columns@), w));
                } else {
                    assert(pre[j]@ == cv);
                    assert(set@.rows[j] == out@[j].view());
                    assert(my_row_matches(pre[j]@, vv) && set@.rows[j] == row_map(names_of(columns@), vv));
                }
            }
        }
        i += 1;
    }
    proof {
        assert(rs.subrange(0, i as int) =~= rs);
    }
    Ok(ResultSet { columns, rows: out })
}


/// The response to a query whose statement results were drained in order:
/// exactly one result set per drained result, including results without rows.
pub fn assemble_resource(results: Vec<(Vec<String>, Vec<Vec<MyCell>>)>) -> (r: Result<QueryResponse, Error>)
    ensures
        r is Ok <==> forall|i: int| 0 <= i < results@.len() ==> my_rows_fit(
            (#[trigger] results@[i]).0@.len(),
            results@[i].1@,
        ),
        r is Ok ==> {
            &&& r->Ok_0.results@.len() == results@.len()
            &&& r->Ok_0.messages@.len() == 0
            &&& forall|i: int| 0 <= i < results@.len() ==> my_set_matches(
                (#[trigger] results@[i]).0@,
                results@[i].1@,
                r->Ok_0.results@[i],
            )
        },
        r is Err ==> r->Err_0 is DriverInternal,
{
    let ghost input = results@;
    let total = results.len();
    let mut rest = results;
    let mut sets: Vec<ResultSet> = Vec::new();
    let mut i: usize = 0;
    while rest.len() > 0
        invariant
            i + rest@.len() == input.len(),
            input.len() == total,
            input == results@,
            rest@ == input.subrange(i as int, input.len() as int),
            sets@.len() == i,
            forall|k: int| 0 <= k < i ==> my_rows_fit((#[trigger] input[k]).0@.len(), input[k].1@),
            forall|k: int| 0 <= k < i ==> my_set_matches((#[trigger] input[k]).0@, input[k].1@, sets@[k]),
        decreases rest@.len(),
    {
        let (columns, rows) = rest.remove(0);
        proof {
            assert(input[i as int] == (columns, rows));
            assert(rest@ =~= input.subrange(i + 1, input.len() as int));
        }
        match resource_result_set(columns, rows) {
            Ok(set) => {
                sets.push(set);
            },
            Err(e) => {
                return Err(e);
            },
        }
        i += 1;
    }
    proof {
        assert forall|k: int| 0 <= k < sets@.len() implies #[trigger] sets@[k].wf() by {
            assert(my_set_matches(input[k].0@, input[k].1@, sets@[k]));
        }
    }
    Ok(QueryResponse { results: sets, messages: Vec::new() })
}

/// The statement listing the tables of a database.
pub open spec fn show_tables_text(database: Seq<char>) -> Seq<char> {
    "SHOW TABLES FROM "@ + backtick_quoted(database)
}

/// The statement listing the columns of a table of a database.
pub open spec fn show_columns_text(database: Seq<char>, table: Seq<char>) -> Seq<char> {
    "SHOW COLUMNS FROM "@ + backtick_quoted(table) + " FROM "@ + backtick_quoted(database)
}

/// The statement listing the tables of `database`, the name quoted as an identifier.
pub fn show_tables_statement(database: &str) -> (r: String)
    ensures
        r@ == show_tables_text(database@),
{
    let mut out = String::from_str("SHOW TABLES FROM ");
    let q = quote_identifier(database);
    out.append(q.as_str());
    out
}

/// The statement listing the columns of `table` in `database`, both names
/// quoted as identifiers.
pub fn show_columns_statement(database: &str, table: &str) -> (r: String)
    ensures
        r@ == show_columns_text(database@, table@),
{
    let mut out = String::from_str("SHOW COLUMNS FROM ");
    let t = quote_identifier(table);
    out.append(t.as_str());
    out.append(" FROM ");
    let d = quote_identifier(database);
    out.append(d.as_str());
    out
}


/// The statement listing the databases.
pub const SHOW_DATABASES: &'static str = "SHOW DATABASES";

/// The texts under `key` across result sets, in order.
pub open spec fn texts_across(sets: Seq<ResultSetView>, key: Seq<char>) -> Seq<Seq<char>>
    decreases sets.len(),
{
    if sets.len() == 0 {
        seq![]
    } else {
        texts_across(sets.drop_last(), key) + texts_at(sets.last().rows, key)
    }
}

/// The texts under each set's first column across result sets, in order.
pub open spec fn first_texts_across(sets: Seq<ResultSetView>) -> Seq<Seq<char>>
    decreases sets.len(),
{
    if sets.len() == 0 {
        seq![]
    } else {
        first_texts_across(sets.drop_last()) + texts_at(sets.last().rows, first_column(sets.last()))
    }
}

/// The name and type of each row across result sets, in order.
pub open spec fn columns_across(sets: Seq<ResultSetView>) -> Seq<(Seq<char>, Seq<char>)>
    decreases sets.len(),
{
    if sets.len() == 0 {
        seq![]
    } else {
        columns_across(sets.drop_last()) + row_columns(sets.last())
    }
}

/// The databases of a `SHOW DATABASES` response: the strings of its
/// `Database` column, in order.
pub fn databases_of(resp: &QueryResponse) -> (r: Vec<Database>)
    requires
        resp.wf(),
    ensures
        database_names(r@) == texts_across(sets_view(resp.results@), "Database"@),
{
    let mut names: Vec<String> = Vec::new();
    let mut i: usize = 0;
    while i < resp.results.len()
        invariant
            resp.wf(),
            i <= resp.results@.len(),
            names_of(names@) == texts_across(sets_view(resp.results@).subrange(0, i as int), "Database"@),
        decreases resp.results@.len() - i,
    {
        let mut found = texts_in(&resp.results[i], "Database");
        let ghost prev = names@;
        let ghost add = found@;
        names.append(&mut found);
        proof {
            let sv = sets_view(resp.results@);
            assert(sv.subrange(0, i + 1).drop_last() =~= sv.subrange(0, i as int));
            assert(names@ == prev + add);
            assert(names_of(names@) =~= names_of(prev) + names_of(add));
        }
        i += 1;
    }
    proof {
        assert(sets_view(resp.results@).subrange(0, i as int) =~= sets_view(resp.results@));
    }
    databases_from(names)
}

/// The tables of a `SHOW TABLES` response: the strings of each result set's
/// first column, in order.
pub fn tables_of(resp: &QueryResponse) -> (r: Vec<Table>)
    requires
        resp.wf(),
    ensures
        table_names(r@) == first_texts_across(sets_view(resp.results@)),
{
    let mut names: Vec<String> = Vec::new();
    let mut i: usize = 0;
    while i < resp.results.len()
        invariant
            resp.wf(),
            i <= resp.results@.len(),
            names_of(names@) == first_texts_across(sets_view(resp.results@).subrange(0, i as int)),
        decreases resp.results@.len() - i,
    {
        let key = first_column_of(&resp.results[i]);
        let mut found = texts_in(&resp.results[i], key.as_str());
        let ghost prev = names@;
        let ghost add = found@;
        names.append(&mut found);
        proof {
            let sv = sets_view(resp.results@);
            assert(sv.subrange(0, i + 1).drop_last() =~= sv.subrange(0, i as int));
            assert(names@ == prev + add);
            assert(names_of(names@) =~= names_of(prev) + names_of(add));
        }
        i += 1;
    }
    proof {
        assert(sets_view(resp.results@).subrange(0, i as int) =~= sets_view(resp.results@));
    }
    tables_from(names)
}

/// The columns of a `SHOW COLUMNS` response: per row, the strings of the
/// first two columns (the field name and its type), or empty strings.
pub fn columns_of(resp: &QueryResponse) -> (r: Vec<Column>)
    requires
        resp.wf(),
    ensures
        column_pairs(r@) == columns_across(sets_view(resp.results@)),
{
    let mut out: Vec<Column> = Vec::new();
    let mut i: usize = 0;
    while i < resp.results.len()
        invariant
            resp.wf(),
            i <= resp.results@.len(),
            column_pairs(out@) == columns_across(sets_view(resp.results@).subrange(0, i as int)),
        decreases resp.results@.len() - i,
    {
        let mut found = columns_listed(&resp.results[i]);
        let ghost prev = out@;
        let ghost add = found@;
        out.append(&mut found);
        proof {
            let sv = sets_view(resp.results@);
            assert(sv.subrange(0, i + 1).drop_last() =~= sv.subrange(0, i as int));
            assert(out@ == prev + add);
            assert(column_pairs(out@) =~= column_pairs(prev) + column_pairs(add));
        }
        i += 1;
    }
    proof {
        assert(sets_view(resp.results@).subrange(0, i as int) =~= sets_view(resp.results@));
    }
    out
}


/// A failure to connect, as the resource-protocol client reports it.
pub enum MyConnectError {
    /// The server asked for an authentication plugin the client lacks; the
    /// plugin's name.
    UnknownAuthPlugin(String),
    /// Encryption could not be negotiated.
    Tls(String),
    /// The transport failed.
    Io(String),
    /// The descriptor was refused.
    Url(String),
    /// The server refused the session (for instance, access denied).
    Server(String),
    /// Anything else.
    Other(String),
}

/// The actionable explanation of a missing authentication plugin.
pub open spec fn plugin_advice(name: Seq<char>) -> Seq<char> {
    "The client does not support the '"@ + name
        + "' authentication plugin. Change the user's authentication method to 'caching_sha2_password' or 'mysql_native_password' on the server."@
}

/// How each connection failure is reported.
pub open spec fn my_connect_failure_matches(e: MyConnectError, f: ConnectFailure) -> bool {
    match e {
        MyConnectError::UnknownAuthPlugin(name) => f.cause == ConnectCause::Authentication
            && f.detail@ == plugin_advice(name@),
        MyConnectError::Tls(d) => f.cause == ConnectCause::Encryption && f.detail == d,
        MyConnectError::Io(d) => f.cause == ConnectCause::Network && f.detail == d,
        MyConnectError::Url(d) => f.cause == ConnectCause::Descriptor && f.detail == d,
        MyConnectError::Server(d) => f.cause == ConnectCause::Authentication && f.detail == d,
        MyConnectError::Other(d) => f.cause == ConnectCause::Network && f.detail == d,
    }
}

/// Classifies a failure to connect. A missing authentication plugin becomes
/// an explanation of what to change on the server rather than the raw
/// protocol error.
pub fn classify_connect_error(e: MyConnectError) -> (r: ConnectFailure)
    ensures
        my_connect_failure_matches(e, r),
{
    match e {
        MyConnectError::UnknownAuthPlugin(name) => {
            let mut detail = String::from_str("The client does not support the '");
            detail.append(name.as_str());
            detail.append(
                "' authentication plugin. Change the user's authentication method to 'caching_sha2_password' or 'mysql_native_password' on the server.",
            );
            ConnectFailure { cause: ConnectCause::Authentication, detail }
        },
        MyConnectError::Tls(d) => ConnectFailure { cause: ConnectCause::Encryption, detail: d },
        MyConnectError::Io(d) => ConnectFailure { cause: ConnectCause::Network, detail: d },
        MyConnectError::Url(d) => ConnectFailure { cause: ConnectCause::Descriptor, detail: d },
        MyConnectError::Server(d) => ConnectFailure { cause: ConnectCause::Authentication, detail: d },
        MyConnectError::Other(d) => ConnectFailure { cause: ConnectCause::Network, detail: d },
    }
}

} // verus!
