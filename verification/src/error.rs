//! Crate error types for the GQL wire protocol.
//!
//! Errors are split by domain:
//! - Protocol-level errors (wire format, framing)
//! - Session errors (not found, expired)
//! - Transaction errors (invalid state transitions)
//! - Backend errors (from the pluggable database engine)
//! - GQL-domain errors (carrying a GQLSTATUS code)
//! - Transport-level errors, and transport status replies
//!
//! The mapping of errors onto transport status codes lives here too; the
//! refinement of session errors by their message text ("not found",
//! "already exists") is load-bearing and verified against `spec_contains`.

use vstd::prelude::*;

use crate::status::GqlStatus;
use crate::util::{contains_str, spec_contains};

verus! {

/// A transport-level status code, as the RPC layer reports it.
#[derive(Debug, Clone, Copy, PartialEq, Eq, Structural)]
pub enum TransportCode {
    /// Success.
    Okay,
    /// The referenced entity does not exist.
    NotFound,
    /// The entity to create already exists.
    AlreadyExists,
    /// A capacity limit was reached.
    ResourceExhausted,
    /// The request is valid but the system is not in the required state.
    FailedPrecondition,
    /// The request itself is malformed.
    InvalidArgument,
    /// The operation is not supported.
    Unimplemented,
    /// An internal fault.
    Internal,
    /// The transport is unavailable.
    Unavailable,
    /// Missing or rejected credentials.
    Unauthenticated,
}

/// A transport-level status: a code with a human message.
#[derive(Debug, PartialEq)]
pub struct TransportStatus {
    /// The status code.
    pub code: TransportCode,
    /// Human-readable message.
    pub message: String,
}

/// The main error type for the GQL wire protocol crate.
#[derive(Debug)]
pub enum GqlError {
    /// Wire-level protocol error.
    Protocol(String),
    /// Session not found or expired.
    Session(String),
    /// Invalid transaction state transition.
    Transaction(String),
    /// Error from the backend database engine.
    Backend {
        /// Text of the underlying backend error.
        message: String,
    },
    /// GQL-domain error carrying a GQLSTATUS code.
    Status {
        /// The GQLSTATUS from the failed operation.
        status: GqlStatus,
    },
    /// Transport-level error.
    Transport {
        /// Text of the transport fault.
        message: String,
    },
    /// A transport status received from the peer.
    Grpc {
        /// The status code.
        code: TransportCode,
        /// The status message.
        message: String,
    },
}

/// The display text of an error: its domain prefix and message.
pub open spec fn spec_error_text(e: GqlError) -> Seq<char> {
    match e {
        GqlError::Protocol(m) => "protocol error: "@ + m@,
        GqlError::Session(m) => "session error: "@ + m@,
        GqlError::Transaction(m) => "transaction error: "@ + m@,
        GqlError::Backend { message } => "backend error: "@ + message@,
        GqlError::Status { status } => "GQL error "@ + status.code@ + ": "@ + status.message@,
        GqlError::Transport { message } => "transport error: "@ + message@,
        GqlError::Grpc { code, message } => "gRPC error: "@ + message@,
    }
}

/// The transport code an error maps to on the control plane.
pub open spec fn spec_grpc_code(e: GqlError) -> TransportCode {
    match e {
        GqlError::Session(m) => TransportCode::NotFound,
        GqlError::Transaction(m) => TransportCode::FailedPrecondition,
        GqlError::Protocol(m) => TransportCode::InvalidArgument,
        GqlError::Backend { message } => TransportCode::Internal,
        GqlError::Status { status } => TransportCode::Internal,
        GqlError::Transport { message } => TransportCode::Unavailable,
        GqlError::Grpc { code, message } => code,
    }
}

/// The message carried with the transport status of an error.
pub open spec fn spec_grpc_message(e: GqlError) -> Seq<char> {
    match e {
        GqlError::Protocol(m) => m@,
        GqlError::Session(m) => m@,
        GqlError::Transaction(m) => m@,
        GqlError::Backend { message } => message@,
        GqlError::Status { status } => status.code@ + ": "@ + status.message@,
        GqlError::Transport { message } => message@,
        GqlError::Grpc { code, message } => message@,
    }
}

/// The transport code an error maps to on an optional service
/// (database, admin, search): unsupported operations surface as
/// `Unimplemented`, and a session error that says "not found" keeps
/// `NotFound`.
pub open spec fn spec_optional_service_code(e: GqlError) -> TransportCode {
    match e {
        GqlError::Session(m) => if spec_contains(m@, "not found"@) {
            TransportCode::NotFound
        } else {
            spec_grpc_code(e)
        },
        GqlError::Protocol(m) => TransportCode::Unimplemented,
        _ => spec_grpc_code(e),
    }
}

impl GqlError {
    /// Create a backend error from the text of the underlying fault.
    pub fn backend(message: String) -> (r: GqlError)
        ensures
            r matches GqlError::Backend { message: m } && m == message,
    {
        GqlError::Backend { message }
    }

    /// Create a GQL-domain error from a status code and message.
    pub fn status(code: &str, message: &str) -> (r: GqlError)
        ensures
            r matches GqlError::Status { status } && status.code@ == code@ && status.message@
                == message@ && status.diagnostic is None && status.cause is None,
    {
        GqlError::Status { status: crate::status::error(code, message) }
    }

    /// The display text of this error: its domain prefix and message.
    pub fn display_string(&self) -> (r: String)
        ensures
            r@ == spec_error_text(*self),
    {
        match self {
            GqlError::Protocol(m) => {
                let mut s = "protocol error: ".to_owned();
                s.append(m.as_str());
                s
            },
            GqlError::Session(m) => {
                let mut s = "session error: ".to_owned();
                s.append(m.as_str());
                s
            },
            GqlError::Transaction(m) => {
                let mut s = "transaction error: ".to_owned();
                s.append(m.as_str());
                s
            },
            GqlError::Backend { message } => {
                let mut s = "backend error: ".to_owned();
                s.append(message.as_str());
                s
            },
            GqlError::Status { status } => {
                let mut s = "GQL error ".to_owned();
                s.append(status.code.as_str());
                s.append(": ");
                s.append(status.message.as_str());
                s
            },
            GqlError::Transport { message } => {
                let mut s = "transport error: ".to_owned();
                s.append(message.as_str());
                s
            },
            GqlError::Grpc { code, message } => {
                let mut s = "gRPC error: ".to_owned();
                s.append(message.as_str());
                s
            },
        }
    }

    /// Convert this error to a transport status for `SessionService`
    /// responses.
    ///
    /// Maps crate errors to appropriate transport status codes.
    pub fn to_grpc_status(&self) -> (r: TransportStatus)
        ensures
            r.code == spec_grpc_code(*self),
            r.message@ == spec_grpc_message(*self),
    {
        match self {
            GqlError::Session(m) => TransportStatus {
                code: TransportCode::NotFound,
                message: m.clone(),
            },
            GqlError::Transaction(m) => TransportStatus {
                code: TransportCode::FailedPrecondition,
                message: m.clone(),
            },
            GqlError::Protocol(m) => TransportStatus {
                code: TransportCode::InvalidArgument,
                message: m.clone(),
            },
            GqlError::Backend { message } => TransportStatus {
                code: TransportCode::Internal,
                message: message.clone(),
            },
            GqlError::Status { status } => {
                let mut s = status.code.clone();
                s.append(": ");
                s.append(status.message.as_str());
                TransportStatus { code: TransportCode::Internal, message: s }
            },
            GqlError::Transport { message } => TransportStatus {
                code: TransportCode::Unavailable,
                message: message.clone(),
            },
            GqlError::Grpc { code, message } => TransportStatus {
                code: *code,
                message: message.clone(),
            },
        }
    }

    /// Convert this error to a transport status for optional service
    /// responses (`AdminService`, `SearchService`, `DatabaseService`).
    ///
    /// Maps `Protocol` to `Unimplemented` (the backend does not support the
    /// operation) and a `Session` error saying "not found" to `NotFound`.
    pub fn to_optional_service_status(&self) -> (r: TransportStatus)
        ensures
            r.code == spec_optional_service_code(*self),
            r.message@ == spec_grpc_message(*self),
    {
        match self {
            GqlError::Session(m) => {
                if contains_str(m.as_str(), "not found") {
                    TransportStatus { code: TransportCode::NotFound, message: m.clone() }
                } else {
                    self.to_grpc_status()
                }
            },
            GqlError::Protocol(m) => TransportStatus {
                code: TransportCode::Unimplemented,
                message: m.clone(),
            },
            _ => self.to_grpc_status(),
        }
    }

    /// Extract the `GqlStatus` if this is a GQL-domain error.
    pub fn gql_status(&self) -> (r: Option<&GqlStatus>)
        ensures
            match r {
                Some(s) => *self matches GqlError::Status { status } && *s == status,
                None => !(*self is Status),
            },
    {
        match self {
            GqlError::Status { status } => Some(status),
            _ => None,
        }
    }
}

} // verus!
