use gwp::backend::{ResetTarget, SessionProperty};
use gwp::error::TransportCode;
use gwp::messages::{
    AuthCredentials, ConfigureProperty, ConfigureRequest, HandshakeRequest, ResetRequest,
};
use gwp::session_manager::SessionManager;
use gwp::session_service::{
    auth_rejected_status, configure_commit, configure_preflight, handshake_check_credentials,
    reset_commit, reset_preflight, reset_target_from_code,
};
use gwp::wire::{WireKind, WireValue};

fn plain_handshake() -> HandshakeRequest {
    HandshakeRequest {
        protocol_version: 1,
        credentials: None,
        client_info: Vec::new(),
    }
}

#[test]
fn credentials_required_only_with_auth_hook() {
    let req = plain_handshake();
    assert!(handshake_check_credentials(false, &req).is_ok());
    let denied = handshake_check_credentials(true, &req).unwrap_err();
    assert_eq!(denied.code, TransportCode::Unauthenticated);
    assert_eq!(denied.message, "credentials required");

    let with_creds = HandshakeRequest {
        protocol_version: 1,
        credentials: Some(AuthCredentials {
            token: "SECRET-REDACTED".to_owned(),
        }),
        client_info: Vec::new(),
    };
    assert!(handshake_check_credentials(true, &with_creds).is_ok());
    assert_eq!(auth_rejected_status().code, TransportCode::Unauthenticated);
}

#[test]
fn configure_and_reset() {
    let mut sessions = SessionManager::new();
    sessions.register("s1", 0).unwrap();

    let req = ConfigureRequest {
        session_id: "s1".to_owned(),
        property: Some(ConfigureProperty::Graph("g1".to_owned())),
    };
    let prop = configure_preflight(&mut sessions, req, 1).unwrap();
    assert!(matches!(prop, SessionProperty::Graph(ref g) if g == "g1"));
    configure_commit(&mut sessions, "s1", prop).unwrap();

    let reset = ResetRequest {
        session_id: "s1".to_owned(),
        target: 0,
    };
    let target = reset_preflight(&mut sessions, &reset, 2).unwrap();
    assert_eq!(target, ResetTarget::All);
    reset_commit(&mut sessions, "s1", target, 2).unwrap();
}

#[test]
fn configure_without_property_is_invalid() {
    let mut sessions = SessionManager::new();
    sessions.register("s1", 0).unwrap();
    let req = ConfigureRequest {
        session_id: "s1".to_owned(),
        property: None,
    };
    let t = configure_preflight(&mut sessions, req, 1).unwrap_err();
    assert_eq!(t.code, TransportCode::InvalidArgument);
}

#[test]
fn configure_parameter_defaults_absent_value_to_null() {
    let mut sessions = SessionManager::new();
    sessions.register("s1", 0).unwrap();
    let req = ConfigureRequest {
        session_id: "s1".to_owned(),
        property: Some(ConfigureProperty::Parameter {
            name: "x".to_owned(),
            value: None,
        }),
    };
    let prop = configure_preflight(&mut sessions, req, 1).unwrap();
    assert!(matches!(
        prop,
        SessionProperty::Parameter {
            ref name,
            value: gwp::value::Value::Null
        } if name == "x"
    ));

    let req2 = ConfigureRequest {
        session_id: "s1".to_owned(),
        property: Some(ConfigureProperty::Parameter {
            name: "y".to_owned(),
            value: Some(WireValue {
                kind: Some(WireKind::IntegerValue(7)),
            }),
        }),
    };
    let prop2 = configure_preflight(&mut sessions, req2, 1).unwrap();
    assert!(matches!(
        prop2,
        SessionProperty::Parameter {
            value: gwp::value::Value::Integer(7),
            ..
        }
    ));
}

#[test]
fn reset_target_codes() {
    assert_eq!(reset_target_from_code(0), Some(ResetTarget::All));
    assert_eq!(reset_target_from_code(1), Some(ResetTarget::Schema));
    assert_eq!(reset_target_from_code(2), Some(ResetTarget::Graph));
    assert_eq!(reset_target_from_code(3), Some(ResetTarget::TimeZone));
    assert_eq!(reset_target_from_code(4), Some(ResetTarget::Parameters));
    assert_eq!(reset_target_from_code(99), None);
}

#[test]
fn reset_with_unknown_target_is_invalid() {
    let mut sessions = SessionManager::new();
    sessions.register("s1", 0).unwrap();
    let reset = ResetRequest {
        session_id: "s1".to_owned(),
        target: 42,
    };
    let t = reset_preflight(&mut sessions, &reset, 1).unwrap_err();
    assert_eq!(t.code, TransportCode::InvalidArgument);
}
