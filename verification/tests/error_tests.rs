use gwp::database_service::map_error;
use gwp::error::{GqlError, TransportCode};
use gwp::status::INVALID_SYNTAX;

#[test]
fn backend_error_wrapping() {
    let err = GqlError::backend("connection refused".to_owned());
    assert!(matches!(err, GqlError::Backend { .. }));
    assert!(err.display_string().contains("connection refused"));
}

#[test]
fn status_error() {
    let err = GqlError::status(INVALID_SYNTAX, "unexpected token 'METCH'");
    assert!(matches!(err, GqlError::Status { .. }));
    assert!(err.display_string().contains("42001"));
    assert!(err.gql_status().is_some());
}

#[test]
fn session_to_grpc() {
    let err = GqlError::Session("session abc123 not found".to_owned());
    let grpc = err.to_grpc_status();
    assert_eq!(grpc.code, TransportCode::NotFound);
}

#[test]
fn non_status_has_no_gql_status() {
    let err = GqlError::Protocol("bad frame".to_owned());
    assert!(err.gql_status().is_none());
}

#[test]
fn transport_code_table() {
    assert_eq!(
        GqlError::Transaction("boom".to_owned()).to_grpc_status().code,
        TransportCode::FailedPrecondition
    );
    assert_eq!(
        GqlError::Protocol("bad".to_owned()).to_grpc_status().code,
        TransportCode::InvalidArgument
    );
    assert_eq!(
        GqlError::backend("x".to_owned()).to_grpc_status().code,
        TransportCode::Internal
    );
    assert_eq!(
        GqlError::Transport {
            message: "down".to_owned()
        }
        .to_grpc_status()
        .code,
        TransportCode::Unavailable
    );
}

#[test]
fn optional_service_mapping() {
    let not_found = GqlError::Session("session s7 not found".to_owned());
    assert_eq!(
        not_found.to_optional_service_status().code,
        TransportCode::NotFound
    );
    let unsupported = GqlError::Protocol("admin not supported".to_owned());
    assert_eq!(
        unsupported.to_optional_service_status().code,
        TransportCode::Unimplemented
    );
}

#[test]
fn database_error_mapping() {
    assert_eq!(
        map_error(GqlError::Session("database 'default' already exists".to_owned())).code,
        TransportCode::AlreadyExists
    );
    assert_eq!(
        map_error(GqlError::Session("database 'x' not found".to_owned())).code,
        TransportCode::NotFound
    );
    assert_eq!(
        map_error(GqlError::Session("limit reached".to_owned())).code,
        TransportCode::InvalidArgument
    );
}

#[test]
fn status_error_display_text() {
    let err = GqlError::status("42001", "mock syntax error");
    assert_eq!(err.display_string(), "GQL error 42001: mock syntax error");
}
