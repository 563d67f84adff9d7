//! Dispatch by engine kind: what a connection attempt parses, and which
//! statement (with which bound parameters) answers each catalog request.

use vstd::prelude::*;
use vstd::string::StringExecFns;
use crate::descriptor::{
    ado_config_accepted, ado_lookup, encryption_policy, extended_config, mysql_url_accepted,
    pg_config_accepted, resource_options, tds_target, trust_conflict, ResourceTarget, TdsTarget,
};
use crate::value::names_of;
use crate::error::ConnectCause;
use crate::extended::{PG_LIST_COLUMNS, PG_LIST_DATABASES, PG_LIST_SCHEMAS, PG_LIST_TABLES};
use crate::resource::{show_columns_statement, show_columns_text, show_tables_statement, show_tables_text, SHOW_DATABASES};
use crate::session::ConnectFailure;
use crate::storage::DbType;

verus! {

/// The statement listing the user databases (system databases have ids 1 to 4).
pub const TDS_LIST_DATABASES: &'static str = "SELECT name FROM sys.databases WHERE database_id > 4 ORDER BY name";

/// The statement listing the schemas.
pub const TDS_LIST_SCHEMAS: &'static str = "SELECT name FROM sys.schemas ORDER BY name";

/// The statement listing the tables of the schema bound to `@p1`.
pub const TDS_LIST_TABLES: &'static str = "SELECT TABLE_NAME FROM INFORMATION_SCHEMA.TABLES WHERE TABLE_SCHEMA = @p1 ORDER BY TABLE_NAME";

/// The statement listing the columns of the table bound to `@p2` in the schema bound to `@p1`.
pub const TDS_LIST_COLUMNS: &'static str = "SELECT COLUMN_NAME, DATA_TYPE FROM INFORMATION_SCHEMA.COLUMNS WHERE TABLE_SCHEMA = @p1 AND TABLE_NAME = @p2 ORDER BY ORDINAL_POSITION";

/// What a connection attempt opens, by engine kind.
pub enum ConnectPlan {
    Tds(TdsTarget),
    Resource(ResourceTarget),
    Extended(tokio_postgres::Config),
}

/// Whether the engine of `kind` accepts a descriptor.
pub open spec fn descriptor_accepted(kind: DbType, d: Seq<char>) -> bool {
    match kind {
        DbType::Mssql => !trust_conflict(d) && ado_config_accepted(d),
        DbType::Mysql => mysql_url_accepted(d),
        DbType::Postgres => pg_config_accepted(d),
    }
}

/// Parses a descriptor with the engine that `kind` names. The plan's variant is
/// the one of `kind`; an unparsable descriptor is a connect failure of cause
/// `Descriptor`.
pub fn prepare_connect(kind: DbType, descriptor: &str) -> (r: Result<ConnectPlan, ConnectFailure>)
    ensures
        r is Ok <==> descriptor_accepted(kind, descriptor@),
        r is Err ==> r->Err_0.cause == ConnectCause::Descriptor,
        r is Ok ==> match kind {
            DbType::Mssql => r->Ok_0 is Tds && r->Ok_0->Tds_0.encryption == encryption_policy(
                ado_lookup(descriptor@, "encrypt"@),
            ),
            DbType::Mysql => r->Ok_0 is Resource,
            DbType::Postgres => r->Ok_0 is Extended,
        },
{
    match kind {
        DbType::Mssql => match tds_target(descriptor) {
            Ok(t) => Ok(ConnectPlan::Tds(t)),
            Err(f) => Err(f),
        },
        DbType::Mysql => match resource_options(descriptor) {
            Ok(o) => Ok(ConnectPlan::Resource(o)),
            Err(f) => Err(f),
        },
        DbType::Postgres => match extended_config(descriptor) {
            Ok(c) => Ok(ConnectPlan::Extended(c)),
            Err(f) => Err(f),
        },
    }
}

/// A catalog request.
pub enum CatalogRequest {
    Databases,
    /// The schemas of a database; engines scope schemas server-wide or have
    /// none, so the database only keeps the call uniform.
    Schemas(String),
    /// The tables of a container: a schema, or a database where the engine
    /// has no schemas.
    Tables(String),
    /// The columns of a table of a container.
    Columns(String, String),
}

/// A statement and the texts bound to its positional parameters, in order.
pub struct Statement {
    pub text: String,
    pub params: Vec<String>,
}

/// The statement and parameters that answer a request on an engine, or
/// `None` when the answer is empty without asking (schemas of an engine
/// without schemas).
pub open spec fn catalog_spec(kind: DbType, req: CatalogRequest) -> Option<(Seq<char>, Seq<Seq<char>>)> {
    match (kind, req) {
        (DbType::Mssql, CatalogRequest::Databases) => Some((TDS_LIST_DATABASES@, seq![])),
        (DbType::Mssql, CatalogRequest::Schemas(_)) => Some((TDS_LIST_SCHEMAS@, seq![])),
        (DbType::Mssql, CatalogRequest::Tables(s)) => Some((TDS_LIST_TABLES@, seq![s@])),
        (DbType::Mssql, CatalogRequest::Columns(s, t)) => Some((TDS_LIST_COLUMNS@, seq![s@, t@])),
        (DbType::Mysql, CatalogRequest::Databases) => Some((SHOW_DATABASES@, seq![])),
        (DbType::Mysql, CatalogRequest::Schemas(_)) => None,
        (DbType::Mysql, CatalogRequest::Tables(d)) => Some((show_tables_text(d@), seq![])),
        (DbType::Mysql, CatalogRequest::Columns(d, t)) => Some((show_columns_text(d@, t@), seq![])),
        (DbType::Postgres, CatalogRequest::Databases) => Some((PG_LIST_DATABASES@, seq![])),
        (DbType::Postgres, CatalogRequest::Schemas(_)) => Some((PG_LIST_SCHEMAS@, seq![])),
        (DbType::Postgres, CatalogRequest::Tables(s)) => Some((PG_LIST_TABLES@, seq![s@])),
        (DbType::Postgres, CatalogRequest::Columns(s, t)) => Some((PG_LIST_COLUMNS@, seq![s@, t@])),
    }
}

fn statement(text: &str, params: Vec<String>) -> (r: Statement)
    ensures
        r.text@ == text@,
        r.params == params,
{
    Statement { text: String::from_str(text), params }
}

fn one(a: String) -> (r: Vec<String>)
    ensures
        names_of(r@) == seq![a@],
{
    let mut v: Vec<String> = Vec::new();
    v.push(a);
    proof {
        assert(names_of(v@) =~= seq![a@]);
    }
    v
}

fn two(a: String, b: String) -> (r: Vec<String>)
    ensures
        names_of(r@) == seq![a@, b@],
{
    let mut v: Vec<String> = Vec::new();
    v.push(a);
    v.push(b);
    proof {
        assert(names_of(v@) =~= seq![a@, b@]);
    }
    v
}

/// The statement that answers a catalog request on an engine. Names that
/// travel as parameters are bound, never spliced into the text; where the
/// engine cannot bind them (the resource protocol's `SHOW` statements) they
/// are quoted as identifiers.
pub fn catalog_statement(kind: DbType, req: CatalogRequest) -> (r: Option<Statement>)
    ensures
        r is Some <==> catalog_spec(kind, req) is Some,
        r is Some ==> r->Some_0.text@ == catalog_spec(kind, req)->Some_0.0 && names_of(r->Some_0.params@)
            == catalog_spec(kind, req)->Some_0.1,
{
    match (kind, req) {
        (DbType::Mssql, CatalogRequest::Databases) => Some(statement(TDS_LIST_DATABASES, Vec::new())),
        (DbType::Mssql, CatalogRequest::Schemas(_)) => Some(statement(TDS_LIST_SCHEMAS, Vec::new())),
        (DbType::Mssql, CatalogRequest::Tables(s)) => Some(statement(TDS_LIST_TABLES, one(s))),
        (DbType::Mssql, CatalogRequest::Columns(s, t)) => Some(statement(TDS_LIST_COLUMNS, two(s, t))),
        (DbType::Mysql, CatalogRequest::Databases) => Some(statement(SHOW_DATABASES, Vec::new())),
        (DbType::Mysql, CatalogRequest::Schemas(_)) => None,
        (DbType::Mysql, CatalogRequest::Tables(d)) => {
            let text = show_tables_statement(d.as_str());
            Some(Statement { text, params: Vec::new() })
        },
        (DbType::Mysql, CatalogRequest::Columns(d, t)) => {
            let text = show_columns_statement(d.as_str(), t.as_str());
            Some(Statement { text, params: Vec::new() })
        },
        (DbType::Postgres, CatalogRequest::Databases) => Some(statement(PG_LIST_DATABASES, Vec::new())),
        (DbType::Postgres, CatalogRequest::Schemas(_)) => Some(statement(PG_LIST_SCHEMAS, Vec::new())),
        (DbType::Postgres, CatalogRequest::Tables(s)) => Some(statement(PG_LIST_TABLES, one(s))),
        (DbType::Postgres, CatalogRequest::Columns(s, t)) => Some(statement(PG_LIST_COLUMNS, two(s, t))),
    }
}

/// The container whose tables are listed: the schema when one is named,
/// else the database.
pub fn tables_container(database: String, schema: Option<String>) -> (r: String)
    ensures
        schema is Some ==> r == schema->Some_0,
        schema is None ==> r == database,
{
    match schema {
        Some(s) => s,
        None => database,
    }
}

} // verus!
