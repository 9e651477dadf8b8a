//! Decision logic of the database service: database lifecycle management.
//!
//! All errors surface as transport status codes. The error mapping extends
//! the common one with `AlreadyExists` for duplicate databases and an
//! `InvalidArgument` fallback for other session-domain faults.

use vstd::prelude::*;

use crate::backend::DatabaseInfo;
use crate::error::{
    spec_grpc_message, spec_optional_service_code, GqlError, TransportCode, TransportStatus,
};
use crate::messages::DatabaseSummary;
use crate::util::{contains_str, spec_contains};

verus! {

/// The transport code a database operation error maps to.
pub open spec fn spec_database_error_code(e: GqlError) -> TransportCode {
    match e {
        GqlError::Session(m) => if spec_contains(m@, "already exists"@) {
            TransportCode::AlreadyExists
        } else if spec_contains(m@, "not found"@) {
            TransportCode::NotFound
        } else {
            TransportCode::InvalidArgument
        },
        _ => spec_optional_service_code(e),
    }
}

/// Map a `GqlError` to an appropriate transport status for database
/// operations.
///
/// Extends the common mapping with `AlreadyExists` for duplicate databases
/// and a `Session` fallback to `InvalidArgument`.
pub fn map_error(err: GqlError) -> (r: TransportStatus)
    ensures
        r.code == spec_database_error_code(err),
        r.message@ == spec_grpc_message(err),
{
    match &err {
        GqlError::Session(m) => {
            if contains_str(m.as_str(), "already exists") {
                TransportStatus { code: TransportCode::AlreadyExists, message: m.clone() }
            } else if contains_str(m.as_str(), "not found") {
                TransportStatus { code: TransportCode::NotFound, message: m.clone() }
            } else {
                TransportStatus { code: TransportCode::InvalidArgument, message: m.clone() }
            }
        },
        _ => err.to_optional_service_status(),
    }
}

/// Reject an empty database name.
pub fn require_database_name(name: &str) -> (r: Result<(), TransportStatus>)
    ensures
        match r {
            Ok(()) => name@.len() > 0,
            Err(t) => name@.len() == 0 && t.code == TransportCode::InvalidArgument && t.message@
                == "database name is required"@,
        },
{
    if name.is_empty() {
        Err(
            TransportStatus {
                code: TransportCode::InvalidArgument,
                message: "database name is required".to_owned(),
            },
        )
    } else {
        Ok(())
    }
}

/// Convert a `DatabaseInfo` to its wire summary.
pub fn to_summary(info: &DatabaseInfo) -> (r: DatabaseSummary)
    ensures
        r.name@ == info.name@,
        r.node_count == info.node_count,
        r.edge_count == info.edge_count,
        r.persistent == info.persistent,
        r.database_type@ == info.database_type@,
{
    DatabaseSummary {
        name: info.name.clone(),
        node_count: info.node_count,
        edge_count: info.edge_count,
        persistent: info.persistent,
        database_type: info.database_type.clone(),
    }
}

/// Convert a wire `DatabaseSummary` to a domain `DatabaseInfo`; the summary
/// does not carry the extended fields.
pub fn into_info(summary: DatabaseSummary) -> (r: DatabaseInfo)
    ensures
        r.name == summary.name,
        r.node_count == summary.node_count,
        r.edge_count == summary.edge_count,
        r.persistent == summary.persistent,
        r.database_type == summary.database_type,
        r.storage_mode@ == Seq::<char>::empty(),
        r.memory_limit_bytes is None,
        r.backward_edges is None,
        r.threads is None,
{
    DatabaseInfo {
        name: summary.name,
        node_count: summary.node_count,
        edge_count: summary.edge_count,
        persistent: summary.persistent,
        database_type: summary.database_type,
        storage_mode: String::new(),
        memory_limit_bytes: None,
        backward_edges: None,
        threads: None,
    }
}

/// Recover the optional fields of a detailed info reply: zero stands for
/// an unset limit or thread count.
pub fn info_from_detail(
    name: String,
    node_count: u64,
    edge_count: u64,
    persistent: bool,
    database_type: String,
    storage_mode: String,
    memory_limit_bytes: u64,
    backward_edges: bool,
    threads: u32,
) -> (r: DatabaseInfo)
    ensures
        r.name == name,
        r.node_count == node_count,
        r.edge_count == edge_count,
        r.persistent == persistent,
        r.database_type == database_type,
        r.storage_mode == storage_mode,
        r.memory_limit_bytes == if memory_limit_bytes > 0 {
            Some(memory_limit_bytes)
        } else {
            None::<u64>
        },
        r.backward_edges == Some(backward_edges),
        r.threads == if threads > 0 {
            Some(threads)
        } else {
            None::<u32>
        },
{
    DatabaseInfo {
        name,
        node_count,
        edge_count,
        persistent,
        database_type,
        storage_mode,
        memory_limit_bytes: if memory_limit_bytes > 0 {
            Some(memory_limit_bytes)
        } else {
            None
        },
        backward_edges: Some(backward_edges),
        threads: if threads > 0 {
            Some(threads)
        } else {
            None
        },
    }
}

} // verus!
