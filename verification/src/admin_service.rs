//! Decision logic of the admin service: database introspection, maintenance
//! and index management.
//!
//! All errors surface as transport status codes; requests without a
//! database name or an index specification are rejected before any backend
//! call.

use vstd::prelude::*;

use crate::backend::{AdminStats, AdminWalStatus, IndexDefinition, ValidationDiagnostic};
use crate::error::{TransportCode, TransportStatus};
use crate::messages::{
    GetDatabaseStatsResponse, IndexSpec, WalStatusResponse, WireValidationDiagnostic,
};

verus! {

broadcast use vstd::std_specs::vec::group_vec_axioms;

/// Whether `def` is the meaning of the wire index specification `w` on a
/// create request: every optional field of a vector index is kept.
pub open spec fn spec_index_decoded_create(w: IndexSpec, def: IndexDefinition) -> bool {
    match w {
        IndexSpec::PropertyIndex(p) => def == IndexDefinition::Property { property: p.property },
        IndexSpec::VectorIndex(v) => def == IndexDefinition::Vector {
            label: v.label,
            property: v.property,
            dimensions: v.dimensions,
            metric: v.metric,
            m: v.m,
            ef_construction: v.ef_construction,
        },
        IndexSpec::TextIndex(t) => def == IndexDefinition::Text {
            label: t.label,
            property: t.property,
        },
    }
}

/// Whether `def` is the meaning of the wire index specification `w` on a
/// drop request: only the identifying fields of a vector index are kept.
pub open spec fn spec_index_decoded_drop(w: IndexSpec, def: IndexDefinition) -> bool {
    match w {
        IndexSpec::PropertyIndex(p) => def == IndexDefinition::Property { property: p.property },
        IndexSpec::VectorIndex(v) => def == IndexDefinition::Vector {
            label: v.label,
            property: v.property,
            dimensions: None,
            metric: None,
            m: None,
            ef_construction: None,
        },
        IndexSpec::TextIndex(t) => def == IndexDefinition::Text {
            label: t.label,
            property: t.property,
        },
    }
}

/// The status that rejects a request without an index specification.
fn missing_index_status() -> (r: TransportStatus)
    ensures
        r.code == TransportCode::InvalidArgument,
        r.message@ == "index definition is required"@,
{
    TransportStatus {
        code: TransportCode::InvalidArgument,
        message: "index definition is required".to_owned(),
    }
}

/// Decode the index a create request names; every optional field of a
/// vector index is kept. A missing specification is rejected.
pub fn index_from_create(index: Option<IndexSpec>) -> (r: Result<IndexDefinition, TransportStatus>)
    ensures
        match r {
            Ok(def) => index matches Some(w) && spec_index_decoded_create(w, def),
            Err(t) => index is None && t.code == TransportCode::InvalidArgument,
        },
{
    match index {
        Some(IndexSpec::PropertyIndex(p)) => Ok(IndexDefinition::Property { property: p.property }),
        Some(IndexSpec::VectorIndex(v)) => Ok(
            IndexDefinition::Vector {
                label: v.label,
                property: v.property,
                dimensions: v.dimensions,
                metric: v.metric,
                m: v.m,
                ef_construction: v.ef_construction,
            },
        ),
        Some(IndexSpec::TextIndex(t)) => Ok(
            IndexDefinition::Text { label: t.label, property: t.property },
        ),
        None => Err(missing_index_status()),
    }
}

/// Decode the index a drop request names; only the identifying fields of a
/// vector index are kept. A missing specification is rejected.
pub fn index_from_drop(index: Option<IndexSpec>) -> (r: Result<IndexDefinition, TransportStatus>)
    ensures
        match r {
            Ok(def) => index matches Some(w) && spec_index_decoded_drop(w, def),
            Err(t) => index is None && t.code == TransportCode::InvalidArgument,
        },
{
    match index {
        Some(IndexSpec::PropertyIndex(p)) => Ok(IndexDefinition::Property { property: p.property }),
        Some(IndexSpec::VectorIndex(v)) => Ok(
            IndexDefinition::Vector {
                label: v.label,
                property: v.property,
                dimensions: None,
                metric: None,
                m: None,
                ef_construction: None,
            },
        ),
        Some(IndexSpec::TextIndex(t)) => Ok(
            IndexDefinition::Text { label: t.label, property: t.property },
        ),
        None => Err(missing_index_status()),
    }
}

/// Encode validation diagnostics for the wire, entry for entry.
pub fn diagnostics_to_wire(src: Vec<ValidationDiagnostic>) -> (r: Vec<WireValidationDiagnostic>)
    ensures
        r@.len() == src@.len(),
        forall|i: int|
            0 <= i < src@.len() ==> (#[trigger] r@[i]).code == src@[i].code && r@[i].message
                == src@[i].message && r@[i].context == src@[i].context,
{
    let ghost all = src@;
    let mut rest = src;
    let mut out: Vec<WireValidationDiagnostic> = Vec::new();
    let n0 = rest.len();
    let mut i: usize = 0;
    #[verifier::loop_isolation(false)]
    while rest.len() > 0
        invariant
            all.len() == n0,
            i + rest@.len() == all.len(),
            rest@ =~= all.subrange(i as int, all.len() as int),
            out@.len() == i as int,
            forall|j: int|
                0 <= j < i ==> (#[trigger] out@[j]).code == all[j].code && out@[j].message
                    == all[j].message && out@[j].context == all[j].context,
        decreases rest@.len(),
    {
        let d = rest.remove(0);
        proof {
            assert(d == all[i as int]);
        }
        out.push(
            WireValidationDiagnostic { code: d.code, message: d.message, context: d.context },
        );
        i = i + 1;
        proof {
            assert(rest@ =~= all.subrange(i as int, all.len() as int));
        }
    }
    out
}

/// Encode database statistics for the wire, field for field.
pub fn stats_to_response(stats: AdminStats) -> (r: GetDatabaseStatsResponse)
    ensures
        r == (GetDatabaseStatsResponse {
            node_count: stats.node_count,
            edge_count: stats.edge_count,
            label_count: stats.label_count,
            edge_type_count: stats.edge_type_count,
            property_key_count: stats.property_key_count,
            index_count: stats.index_count,
            memory_bytes: stats.memory_bytes,
            disk_bytes: stats.disk_bytes,
        }),
{
    GetDatabaseStatsResponse {
        node_count: stats.node_count,
        edge_count: stats.edge_count,
        label_count: stats.label_count,
        edge_type_count: stats.edge_type_count,
        property_key_count: stats.property_key_count,
        index_count: stats.index_count,
        memory_bytes: stats.memory_bytes,
        disk_bytes: stats.disk_bytes,
    }
}

/// Encode a WAL status for the wire, field for field.
pub fn wal_status_to_response(status: AdminWalStatus) -> (r: WalStatusResponse)
    ensures
        r == (WalStatusResponse {
            enabled: status.enabled,
            path: status.path,
            size_bytes: status.size_bytes,
            record_count: status.record_count,
            last_checkpoint: status.last_checkpoint,
            current_epoch: status.current_epoch,
        }),
{
    WalStatusResponse {
        enabled: status.enabled,
        path: status.path,
        size_bytes: status.size_bytes,
        record_count: status.record_count,
        last_checkpoint: status.last_checkpoint,
        current_epoch: status.current_epoch,
    }
}

} // verus!
