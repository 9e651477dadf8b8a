//! Server-side wire protocol runtime for a GQL (ISO/IEC 39075) graph
//! database, together with the matching client-side primitives.
//!
//! The crate holds the pieces of the runtime that are pure logic: the
//! GQLSTATUS code table and its classification rules, the GQL value model
//! with its lossless mapping to and from the wire representation, the
//! session and transaction registries with their invariants, the execute
//! pipeline that turns a backend frame stream into a wire stream, the
//! decision logic of the session and GQL services, and the client-side
//! cursor and transaction state. Transport, clocks and the storage engine
//! stay outside; callers hand plain values in and take plain values back.

pub mod admin_service;
pub mod backend;
pub mod client;
pub mod database_service;
pub mod display;
pub mod error;
pub mod gql_service;
pub mod messages;
pub mod mock_backend;
pub mod registry;
pub mod search_service;
pub mod session_manager;
pub mod session_service;
pub mod status;
pub mod temporal;
pub mod transaction_manager;
pub mod util;
pub mod value;
pub mod wire;
