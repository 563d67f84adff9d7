use sql_explorer::params::bind_value;
use sql_explorer::{connect_failure, FailureOrigin};
use sql_explorer::resource::{classify_connect_error, MyConnectError};
use sql_explorer::{
    bind_params, BoundParam, ConnSlot, ConnectCause, ConnectFailure, Error, QueryParam, Session,
    SlotState, UserCategory, Value,
};

fn failure() -> ConnectFailure {
    ConnectFailure { cause: ConnectCause::Network, detail: "refused".to_string() }
}

#[test]
fn commands_test_execute_query_without_connection() {
    let mut s: Session<u32> = Session::new();
    assert!(matches!(s.driver(), Err(Error::NotConnected)));
}

#[test]
fn test_list_databases_without_connection() {
    let mut s: Session<String> = Session::new();
    let r = s.driver();
    assert!(r.is_err());
    assert!(matches!(r, Err(Error::NotConnected)));
}

#[test]
fn test_list_schemas_without_connection() {
    let mut s: Session<Vec<u8>> = Session::new();
    assert!(matches!(s.driver(), Err(Error::NotConnected)));
    assert!(!s.is_connected());
}

#[test]
fn test_list_tables_without_connection() {
    let mut s: Session<u8> = Session::new();
    assert!(matches!(s.driver(), Err(Error::NotConnected)));
}

#[test]
fn test_list_columns_without_connection() {
    let mut s: Session<i64> = Session::new();
    assert!(matches!(s.driver(), Err(Error::NotConnected)));
}

#[test]
fn main_test_execute_query_without_connection() {
    let mut s: Session<u32> = Session::new();
    let e = s.driver().unwrap_err();
    assert_eq!(e.user_message(), "Database not connected");
}

#[test]
fn failed_connect_keeps_previous_driver() {
    let mut s: Session<u32> = Session::new();
    assert!(s.install(Ok(7)).is_ok());
    let r = s.install(Err(failure()));
    assert!(matches!(r, Err(Error::ConnectFailure(ConnectCause::Network, _))));
    assert_eq!(*s.driver().unwrap(), 7);
    assert!(s.install(Ok(9)).is_ok());
    assert_eq!(*s.driver().unwrap(), 9);
}

#[test]
fn failed_first_connect_stays_disconnected() {
    let mut s: Session<u32> = Session::new();
    assert!(s.install(Err(failure())).is_err());
    assert!(matches!(s.driver(), Err(Error::NotConnected)));
}

#[test]
fn driver_borrow_writes_through() {
    let mut s: Session<u32> = Session::new();
    s.install(Ok(1)).unwrap();
    *s.driver().unwrap() += 1;
    assert_eq!(s.active, Some(2));
}

#[test]
fn slot_checkout_and_checkin() {
    let mut slot = ConnSlot::new(5u32);
    assert_eq!(slot.state(), SlotState::Idle);
    let c = slot.check_out().unwrap();
    assert_eq!(c, 5);
    assert_eq!(slot.state(), SlotState::InUse);
    assert!(matches!(slot.check_out(), Err(Error::NotConnected)));
    let r: Result<&str, Error> = slot.check_in(Ok((c, "done")));
    assert_eq!(r.unwrap(), "done");
    assert_eq!(slot.state(), SlotState::Idle);
    let c2 = slot.check_out().unwrap();
    assert_eq!(c2, 5);
    let r2: Result<(), Error> = slot.check_in(Err(Error::QueryFailure("boom".to_string())));
    assert!(matches!(r2, Err(Error::QueryFailure(_))));
    assert_eq!(slot.state(), SlotState::Closed);
    assert!(matches!(slot.check_out(), Err(Error::NotConnected)));
}

#[test]
fn user_messages_hide_detail() {
    assert_eq!(Error::QueryFailure("host=secret".to_string()).user_message(), "Database error occurred.");
    assert_eq!(
        Error::ConnectFailure(ConnectCause::Authentication, "pw".to_string()).user_message(),
        "Connection error occurred."
    );
    assert_eq!(Error::NotConnected.user_message(), "Database not connected");
    assert_eq!(Error::UnsupportedParameterType("x".to_string()).user_message(), "An unexpected error occurred.");
    assert_eq!(Error::DriverInternal("x".to_string()).category(), UserCategory::Unexpected);
    assert_eq!(Error::Storage("x".to_string()).user_message(), "An unexpected error occurred.");
}

#[test]
fn parameters_bind_in_order() {
    let ps = vec![
        QueryParam { value: Value::Str("a".to_string()) },
        QueryParam { value: Value::Int(-3) },
        QueryParam { value: Value::UInt(5) },
        QueryParam { value: Value::UInt(u64::MAX) },
        QueryParam { value: Value::Float(0.5f64.to_bits()) },
        QueryParam { value: Value::Bool(true) },
        QueryParam { value: Value::Null },
    ];
    let b = bind_params(Some(&ps)).unwrap();
    assert_eq!(
        b,
        vec![
            BoundParam::Text("a".to_string()),
            BoundParam::Int(-3),
            BoundParam::Int(5),
            BoundParam::Unsigned(u64::MAX),
            BoundParam::Float(0.5f64.to_bits()),
            BoundParam::Bool(true),
            BoundParam::Null,
        ]
    );
    assert!(bind_params(None).unwrap().is_empty());
}

#[test]
fn nested_parameter_is_unsupported() {
    let ps = vec![
        QueryParam { value: Value::Int(1) },
        QueryParam { value: Value::Object(vec![("k".to_string(), Value::Int(1))]) },
    ];
    assert!(matches!(bind_params(Some(&ps)), Err(Error::UnsupportedParameterType(_))));
    let arr = vec![QueryParam { value: Value::Array(vec![]) }];
    assert!(matches!(bind_params(Some(&arr)), Err(Error::UnsupportedParameterType(_))));
    assert!(bind_value(&Value::Array(vec![Value::Null])).is_none());
}

#[test]
fn missing_auth_plugin_gets_advice() {
    let f = classify_connect_error(MyConnectError::UnknownAuthPlugin("sha256_password".to_string()));
    assert_eq!(f.cause, ConnectCause::Authentication);
    assert!(f.detail.contains("'sha256_password' authentication plugin"));
    assert!(f.detail.contains("caching_sha2_password"));
    let t = classify_connect_error(MyConnectError::Tls("bad cert".to_string()));
    assert_eq!(t.cause, ConnectCause::Encryption);
    assert_eq!(t.detail, "bad cert");
    assert_eq!(classify_connect_error(MyConnectError::Io("x".to_string())).cause, ConnectCause::Network);
    assert_eq!(classify_connect_error(MyConnectError::Url("x".to_string())).cause, ConnectCause::Descriptor);
    assert_eq!(classify_connect_error(MyConnectError::Server("x".to_string())).cause, ConnectCause::Authentication);
}

#[test]
fn connect_failures_by_origin() {
    assert_eq!(connect_failure(FailureOrigin::Transport, "t".to_string()).cause, ConnectCause::Network);
    assert_eq!(connect_failure(FailureOrigin::Tls, "t".to_string()).cause, ConnectCause::Encryption);
    assert_eq!(connect_failure(FailureOrigin::Server, "t".to_string()).cause, ConnectCause::Authentication);
    let f = connect_failure(FailureOrigin::Other, "why".to_string());
    assert_eq!(f.cause, ConnectCause::Network);
    assert_eq!(f.detail, "why");
}
