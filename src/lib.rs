//! Backend of a desktop SQL explorer: a driver layer over three database
//! wire protocols that normalises query results and catalog metadata.
//!
//! Everything here is computation over values handed in by the transport
//! layer: descriptor parsing, parameter binding, row decoding, result-set
//! delimiting, catalog statements, the session slot and saved profiles.
//! Network I/O and the protocol clients' streams live outside.

pub mod catalog;
pub mod descriptor;
pub mod dispatch;
pub mod error;
pub mod extended;
pub mod params;
pub mod resource;
pub mod session;
pub mod storage;
pub mod tabular;
pub mod text;
pub mod value;

pub use catalog::{
    columns_present, databases_present, schemas_present, tables_present, Column, Database,
    QueryResponse, ResultSet, ResultSetView, Schema, Table,
};
pub use descriptor::{
    resource_ssl_policy, tds_encryption_policy, ResourceTarget, SslMode, TdsEncryption, TdsTarget,
};
pub use dispatch::{catalog_statement, prepare_connect, CatalogRequest, ConnectPlan, Statement};
pub use error::{ConnectCause, Error, UserCategory};
pub use params::{bind_params, BoundParam, QueryParam};
pub use session::{connect_failure, ConnSlot, ConnectFailure, FailureOrigin, Session, SlotState};
pub use storage::{default_db_type, AuthType, DbType, SavedConnection};
pub use value::{Record, Value};
