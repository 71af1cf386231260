use server_errors::{
    CallSite, FieldValue, ServerErrorBehaviour, ServerErrorKind, ServerErrorTag,
    ServerErrorTrait, CLIENT_ERROR_MSG,
};

fn site() -> CallSite {
    CallSite::new("tests/server_error.rs", 12, 5)
}

fn names(fields: &[&str]) -> Vec<String> {
    fields.iter().map(|f| f.to_string()).collect()
}

#[test]
fn test_internal_error() {
    let kind =
        ServerErrorKind::declare_internal("InternalError", "An internal error occurred.", vec![])
            .unwrap();
    let error = kind.with_debug(&site(), &vec![], format!("{:?}", &"debug info".to_string()));

    assert_eq!(error.message(), "An internal error occurred.");
    assert!(error.debug().is_some());
    assert!(error.debug().unwrap().contains("debug info"));

    let error_str = error.to_string();
    assert!(error_str.contains("An internal error occurred."));
    assert!(error_str.contains("debug info"));

    assert_eq!(
        error.behaviour(),
        ServerErrorBehaviour::ReturnInternalServerError
    );
    assert_eq!(error.tag(), ServerErrorTag::Normal);
}

#[test]
fn test_critical_error() {
    let kind =
        ServerErrorKind::declare_critical("InternalError", "A critical error occurred.", vec![])
            .unwrap();
    let error = kind.with_debug(&site(), &vec![], format!("{:?}", &"debug info".to_string()));

    assert_eq!(error.message(), "A critical error occurred.");
    assert!(error.debug().is_some());
    assert!(error.debug().unwrap().contains("debug info"));

    let error_str = error.to_string();
    assert!(error_str.contains("CRITICAL"));
    assert!(error_str.contains("A critical error occurred."));
    assert!(error_str.contains("debug info"));

    assert_eq!(
        error.behaviour(),
        ServerErrorBehaviour::ReturnInternalServerError
    );
    assert_eq!(error.tag(), ServerErrorTag::Critical);
}

#[test]
fn test_client_error() {
    let kind = ServerErrorKind::declare_client(
        "ClientError",
        "A client error occurred: {code}.",
        names(&["code"]),
    )
    .unwrap();
    let error = kind.new(&site(), &vec![FieldValue::Int(404)]);

    assert_eq!(error.message(), "A client error occurred: 404.");
    assert!(error.debug().is_none());

    let error_str = error.to_string();
    assert!(error_str.contains("A client error occurred: 404."));
    assert!(!error_str.contains("debug info"));

    assert_eq!(
        error.behaviour(),
        ServerErrorBehaviour::LogErrorSendFixedMsgToClient(CLIENT_ERROR_MSG)
    );
    assert_eq!(error.tag(), ServerErrorTag::Normal);
}

#[test]
fn test_sensitive_error() {
    let kind = ServerErrorKind::declare_sensitive(
        "SensitiveError",
        "Sensitive data error: {details} for user {user}.",
        names(&["details", "user"]),
    )
    .unwrap();
    let error = kind.with_debug(
        &site(),
        &vec![
            FieldValue::Text("leak detected".to_string()),
            FieldValue::Text("user123".to_string()),
        ],
        format!("{:?}", &"debug info".to_string()),
    );

    assert_eq!(
        error.message(),
        "Sensitive data error: leak detected for user user123."
    );
    assert!(error.debug().is_some());
    assert!(error.debug().unwrap().contains("debug info"));

    let error_str = error.to_string();
    assert!(error_str.contains("Sensitive data error: leak detected for user user123."));
    assert!(error_str.contains("debug info"));

    assert_eq!(error.behaviour(), ServerErrorBehaviour::ReturnUnauthorized);
    assert_eq!(error.tag(), ServerErrorTag::Normal);
}

#[test]
fn test_user_error() {
    let kind = ServerErrorKind::declare_user("UserError", "User error occurred.", vec![]).unwrap();
    let error = kind.new(&site(), &vec![]);

    assert_eq!(error.message(), "User error occurred.");
    assert!(error.debug().is_none());

    let error_str = error.to_string();
    assert!(error_str.contains("User error occurred."));
    assert!(!error_str.contains("debug info"));

    assert_eq!(
        error.behaviour(),
        ServerErrorBehaviour::LogWarningForwardToClient
    );
    assert_eq!(error.tag(), ServerErrorTag::Normal);
}

#[test]
fn test_temporary_error() {
    let kind = ServerErrorKind::declare_temporary(
        "TemporaryError",
        "Temporary issue: {reason}, retry after {seconds} seconds by {method}.",
        names(&["reason", "seconds", "method"]),
    )
    .unwrap();
    let error = kind.new(
        &site(),
        &vec![
            FieldValue::Text("network outage".to_string()),
            FieldValue::Int(30),
            FieldValue::Text("reconnect".to_string()),
        ],
    );

    assert_eq!(
        error.message(),
        "Temporary issue: network outage, retry after 30 seconds by reconnect."
    );
    assert!(error.debug().is_none());

    let error_str = error.to_string();
    assert!(error_str
        .contains("Temporary issue: network outage, retry after 30 seconds by reconnect."));
    assert!(!error_str.contains("debug info"));

    assert_eq!(
        error.behaviour(),
        ServerErrorBehaviour::LogWarningForwardToClient
    );
    assert_eq!(error.tag(), ServerErrorTag::Normal);
}
