use sql_explorer::descriptor::eq_ignoring_ascii_case;
use sql_explorer::dispatch::{tables_container, TDS_LIST_COLUMNS, TDS_LIST_TABLES};
use sql_explorer::extended::PG_LIST_TABLES;
use sql_explorer::resource::{
    assemble_resource, columns_of, databases_of, show_columns_statement, show_tables_statement,
    tables_of, MyCell,
};
use sql_explorer::storage::{
    connections_file_name, password_action, remove_connection, removal_result, upsert_connection,
    PasswordAction, SecretRemoval,
};
use sql_explorer::{
    catalog_statement, columns_present, databases_present, default_db_type, prepare_connect,
    resource_ssl_policy, tables_present, tds_encryption_policy, AuthType, SslMode, CatalogRequest, ConnectCause, ConnectPlan,
    DbType, SavedConnection, TdsEncryption,
};

fn names(v: &[&str]) -> Vec<String> {
    v.iter().map(|s| s.to_string()).collect()
}

fn profile(name: &str, server: &str) -> SavedConnection {
    SavedConnection {
        name: name.to_string(),
        db_type: DbType::Mssql,
        server: server.to_string(),
        database: "master".to_string(),
        auth_type: AuthType::Sql,
        user: Some("sa".to_string()),
    }
}

#[test]
fn resource_database_listing() {
    let resp = assemble_resource(vec![(
        names(&["Database"]),
        vec![
            vec![MyCell::Bytes(b"information_schema".to_vec())],
            vec![MyCell::Bytes(b"mysql".to_vec())],
            vec![MyCell::Null],
        ],
    )])
    .unwrap();
    let dbs = databases_of(&resp);
    let got: Vec<String> = dbs.into_iter().map(|d| d.name).collect();
    assert_eq!(got, names(&["information_schema", "mysql"]));
}

#[test]
fn resource_table_listing_uses_first_column() {
    let resp = assemble_resource(vec![(
        names(&["Tables_in_test_db_for_tables"]),
        vec![vec![MyCell::Bytes(b"table_one".to_vec())], vec![MyCell::Bytes(b"table_two".to_vec())]],
    )])
    .unwrap();
    let got: Vec<String> = tables_of(&resp).into_iter().map(|t| t.name).collect();
    assert_eq!(got, names(&["table_one", "table_two"]));
}

#[test]
fn resource_column_listing_reads_name_and_type() {
    let resp = assemble_resource(vec![(
        names(&["Field", "Type", "Null"]),
        vec![
            vec![MyCell::Bytes(b"id".to_vec()), MyCell::Bytes(b"int".to_vec()), MyCell::Bytes(b"NO".to_vec())],
            vec![
                MyCell::Bytes(b"name".to_vec()),
                MyCell::Bytes(b"varchar(255)".to_vec()),
                MyCell::Bytes(b"YES".to_vec()),
            ],
        ],
    )])
    .unwrap();
    let cols = columns_of(&resp);
    assert_eq!(cols.len(), 2);
    assert_eq!(cols[0].name, "id");
    assert_eq!(cols[0].data_type, "int");
    assert_eq!(cols[1].name, "name");
    assert_eq!(cols[1].data_type, "varchar(255)");
}

#[test]
fn resource_statements_quote_names() {
    assert_eq!(show_tables_statement("shop"), "SHOW TABLES FROM `shop`");
    assert_eq!(show_columns_statement("shop", "or`ders"), "SHOW COLUMNS FROM `or``ders` FROM `shop`");
}

#[test]
fn catalog_statements_by_engine() {
    assert!(catalog_statement(DbType::Mysql, CatalogRequest::Schemas("db".to_string())).is_none());
    let t = catalog_statement(DbType::Mssql, CatalogRequest::Tables("dbo".to_string())).unwrap();
    assert_eq!(t.text, TDS_LIST_TABLES);
    assert_eq!(t.params, names(&["dbo"]));
    let c = catalog_statement(DbType::Mssql, CatalogRequest::Columns("dbo".to_string(), "t".to_string())).unwrap();
    assert_eq!(c.text, TDS_LIST_COLUMNS);
    assert_eq!(c.params, names(&["dbo", "t"]));
    let p = catalog_statement(DbType::Postgres, CatalogRequest::Tables("public".to_string())).unwrap();
    assert_eq!(p.text, PG_LIST_TABLES);
    assert_eq!(p.params, names(&["public"]));
    let m = catalog_statement(DbType::Mysql, CatalogRequest::Tables("db".to_string())).unwrap();
    assert_eq!(m.text, "SHOW TABLES FROM `db`");
    assert!(m.params.is_empty());
    let d = catalog_statement(DbType::Mysql, CatalogRequest::Databases).unwrap();
    assert_eq!(d.text, "SHOW DATABASES");
}

#[test]
fn tables_container_prefers_schema() {
    assert_eq!(tables_container("test_db".to_string(), Some("dbo".to_string())), "dbo");
    assert_eq!(tables_container("test_db".to_string(), None), "test_db");
}

#[test]
fn present_names_are_kept_in_order() {
    let dbs = databases_present(vec![Some("a".to_string()), None, Some("b".to_string())]);
    let got: Vec<String> = dbs.into_iter().map(|d| d.name).collect();
    assert_eq!(got, names(&["a", "b"]));
    assert!(tables_present(vec![None, None]).is_empty());
    let cols = columns_present(vec![
        (Some("id".to_string()), Some("int".to_string())),
        (Some("x".to_string()), None),
        (None, Some("text".to_string())),
    ]);
    assert_eq!(cols.len(), 1);
    assert_eq!(cols[0].name, "id");
    assert_eq!(cols[0].data_type, "int");
}

#[test]
fn encryption_required_unless_disabled() {
    assert_eq!(tds_encryption_policy(None), TdsEncryption::Required);
    assert_eq!(tds_encryption_policy(Some("true")), TdsEncryption::Required);
    assert_eq!(tds_encryption_policy(Some("False")), TdsEncryption::NotSupported);
    assert_eq!(tds_encryption_policy(Some("NO")), TdsEncryption::NotSupported);
    assert_eq!(tds_encryption_policy(Some("DANGER_PLAINTEXT")), TdsEncryption::NotSupported);
    assert_eq!(tds_encryption_policy(Some("danger_plaintext")), TdsEncryption::Required);
    assert!(eq_ignoring_ascii_case("FaLsE", "false"));
    assert!(!eq_ignoring_ascii_case("fals", "false"));
}

#[test]
fn tabular_descriptor_applies_policy() {
    match prepare_connect(DbType::Mssql, "server=tcp:localhost,1433;user=sa;password=x;encrypt=false") {
        Ok(ConnectPlan::Tds(t)) => assert_eq!(t.encryption, TdsEncryption::NotSupported),
        _ => panic!("expected a tabular plan"),
    }
    match prepare_connect(DbType::Mssql, "server=tcp:localhost,1433;user=sa;password=x") {
        Ok(ConnectPlan::Tds(t)) => assert_eq!(t.encryption, TdsEncryption::Required),
        _ => panic!("expected a tabular plan"),
    }
}

#[test]
fn invalid_descriptors_are_connect_failures() {
    let r = prepare_connect(DbType::Mysql, "not a url");
    assert!(matches!(r, Err(ref f) if f.cause == ConnectCause::Descriptor));
    let p = prepare_connect(DbType::Postgres, "host=localhost port=notaport");
    assert!(matches!(p, Err(ref f) if f.cause == ConnectCause::Descriptor));
    let t = prepare_connect(DbType::Mssql, "server=tcp:localhost,1433;encrypt=maybe");
    assert!(matches!(t, Err(ref f) if f.cause == ConnectCause::Descriptor));
}

#[test]
fn valid_descriptors_pick_their_engine() {
    assert!(matches!(prepare_connect(DbType::Mysql, "mysql://user:pw@localhost:3306/db"), Ok(ConnectPlan::Resource(_))));
    assert!(matches!(
        prepare_connect(DbType::Postgres, "host=localhost user=postgres dbname=app"),
        Ok(ConnectPlan::Extended(_))
    ));
}

#[test]
fn saving_a_profile_replaces_its_namesake() {
    let list = vec![profile("a", "h1"), profile("b", "h2")];
    let out = upsert_connection(list, profile("a", "h3"));
    assert_eq!(out.len(), 2);
    assert_eq!(out[0].name, "b");
    assert_eq!(out[1].name, "a");
    assert_eq!(out[1].server, "h3");
}

#[test]
fn deleting_a_profile_keeps_the_others() {
    let list = vec![profile("a", "h1"), profile("b", "h2"), profile("a", "h4")];
    let out = remove_connection(list, "a");
    assert_eq!(out.len(), 1);
    assert_eq!(out[0].name, "b");
    assert!(remove_connection(Vec::new(), "a").is_empty());
}

#[test]
fn profile_file_names() {
    assert_eq!(connections_file_name(None), "connections.json");
    assert_eq!(connections_file_name(Some("_test_sgc")), "connections_test_sgc.json");
}

#[test]
fn password_decisions() {
    assert!(matches!(password_action(AuthType::Sql, Some("pw".to_string())), PasswordAction::Store(ref p) if p == "pw"));
    assert!(matches!(password_action(AuthType::Sql, None), PasswordAction::Delete));
    assert!(matches!(password_action(AuthType::Integrated, None), PasswordAction::Keep));
    assert!(removal_result(SecretRemoval::NoEntry).is_ok());
    assert!(removal_result(SecretRemoval::Removed).is_ok());
    assert!(removal_result(SecretRemoval::Failed("locked".to_string())).is_err());
}

#[test]
fn default_engine_kind() {
    assert_eq!(default_db_type(), DbType::Mssql);
}

#[test]
fn conflicting_certificate_trust_is_refused() {
    let r = prepare_connect(DbType::Mssql, "server=tcp:h,1433;TrustServerCertificate=true;TrustServerCertificateCA=ca.pem");
    assert!(matches!(r, Err(ref f) if f.cause == ConnectCause::Descriptor));
    let y = prepare_connect(DbType::Mssql, "server=tcp:h,1433;TrustServerCertificate=YES;TrustServerCertificateCA=ca.pem");
    assert!(matches!(y, Err(ref f) if f.cause == ConnectCause::Descriptor));
    assert!(sql_explorer::descriptor::has_trust_conflict("TrustServerCertificate=true;TrustServerCertificateCA=ca.pem"));
    assert!(!sql_explorer::descriptor::has_trust_conflict("TrustServerCertificate=false;TrustServerCertificateCA=ca.pem"));
    assert!(!sql_explorer::descriptor::has_trust_conflict("TrustServerCertificate=true"));
    assert!(matches!(
        prepare_connect(DbType::Mssql, "server=tcp:h,1433;TrustServerCertificate=true"),
        Ok(ConnectPlan::Tds(_))
    ));
}

#[test]
fn resource_encryption_policy() {
    assert_eq!(resource_ssl_policy(None), SslMode::Required);
    assert_eq!(resource_ssl_policy(Some("false")), SslMode::Disabled);
    assert_eq!(resource_ssl_policy(Some("true")), SslMode::Required);
    match prepare_connect(DbType::Mysql, "mysql://u:p@localhost:3306/db") {
        Ok(ConnectPlan::Resource(t)) => {
            assert_eq!(t.ssl, SslMode::Required);
            assert!(t.opts.ssl_opts().is_some());
        }
        _ => panic!("expected a resource plan"),
    }
    match prepare_connect(DbType::Mysql, "mysql://u:p@localhost:3306/db?require_ssl=false") {
        Ok(ConnectPlan::Resource(t)) => {
            assert_eq!(t.ssl, SslMode::Disabled);
            assert!(t.opts.ssl_opts().is_none());
        }
        _ => panic!("expected a resource plan"),
    }
    let pairs = vec![("a".to_string(), "1".to_string()), ("a".to_string(), "2".to_string())];
    assert_eq!(sql_explorer::descriptor::last_value(&pairs, "a"), Some("2".to_string()));
    assert_eq!(sql_explorer::descriptor::last_value(&pairs, "b"), None);
}

#[test]
fn schema_listing_filters_temp_schemas_by_prefix() {
    assert!(sql_explorer::extended::PG_LIST_SCHEMAS.contains("left(nspname, 8) <> 'pg_temp_'"));
    assert!(!sql_explorer::extended::PG_LIST_SCHEMAS.contains("LIKE"));
}
