//! Decision logic of the search service: vector, text and hybrid search.
//!
//! All errors surface as transport status codes. Scores and query vectors
//! cross the boundary as IEEE-754 bit patterns, so the validation and
//! conversion logic here stays exact; the numeric search itself belongs to
//! the backend.

use vstd::prelude::*;

use crate::backend::{HybridSearchParams, SearchHit, TextSearchParams, VectorSearchParams};
use crate::error::{TransportCode, TransportStatus};
use crate::messages::{
    HybridSearchRequest, TextSearchRequest, VectorSearchRequest, WireSearchHit,
};
use crate::value::view_prop_seq;
use crate::wire::{props_from_wire, props_to_wire, view_wire_prop_seq};

verus! {

broadcast use vstd::std_specs::vec::group_vec_axioms;

/// The status that rejects a request with an empty required field.
fn invalid(message: &str) -> (r: TransportStatus)
    ensures
        r.code == TransportCode::InvalidArgument,
        r.message@ == message@,
{
    TransportStatus { code: TransportCode::InvalidArgument, message: message.to_owned() }
}

/// Validate a vector search request and assemble the backend parameters:
/// the database name and the query vector must be present; the filters are
/// decoded.
pub fn vector_search_preflight(req: VectorSearchRequest) -> (r: Result<
    VectorSearchParams,
    TransportStatus,
>)
    ensures
        match r {
            Ok(p) => {
                &&& req.database@.len() > 0
                &&& req.query_vector_bits@.len() > 0
                &&& p.database == req.database
                &&& p.label == req.label
                &&& p.property == req.property
                &&& p.query_vector_bits == req.query_vector_bits
                &&& p.k == req.k
                &&& p.ef == req.ef
                &&& view_prop_seq(p.filters@) == view_wire_prop_seq(req.filters@)
            },
            Err(t) => (req.database@.len() == 0 || req.query_vector_bits@.len() == 0) && t.code
                == TransportCode::InvalidArgument,
        },
{
    if req.database.as_str().is_empty() {
        return Err(invalid("database name is required"));
    }
    if req.query_vector_bits.len() == 0 {
        return Err(invalid("query_vector is required"));
    }
    let filters = props_from_wire(&req.filters);
    Ok(
        VectorSearchParams {
            database: req.database,
            label: req.label,
            property: req.property,
            query_vector_bits: req.query_vector_bits,
            k: req.k,
            ef: req.ef,
            filters,
        },
    )
}

/// Validate a text search request and assemble the backend parameters: the
/// database name and the query text must be present.
pub fn text_search_preflight(req: TextSearchRequest) -> (r: Result<
    TextSearchParams,
    TransportStatus,
>)
    ensures
        match r {
            Ok(p) => {
                &&& req.database@.len() > 0
                &&& req.query@.len() > 0
                &&& p == (TextSearchParams {
                    database: req.database,
                    label: req.label,
                    property: req.property,
                    query: req.query,
                    k: req.k,
                })
            },
            Err(t) => (req.database@.len() == 0 || req.query@.len() == 0) && t.code
                == TransportCode::InvalidArgument,
        },
{
    if req.database.as_str().is_empty() {
        return Err(invalid("database name is required"));
    }
    if req.query.as_str().is_empty() {
        return Err(invalid("query text is required"));
    }
    Ok(
        TextSearchParams {
            database: req.database,
            label: req.label,
            property: req.property,
            query: req.query,
            k: req.k,
        },
    )
}

/// Validate a hybrid search request and assemble the backend parameters:
/// the database name and the query text must be present.
pub fn hybrid_search_preflight(req: HybridSearchRequest) -> (r: Result<
    HybridSearchParams,
    TransportStatus,
>)
    ensures
        match r {
            Ok(p) => {
                &&& req.database@.len() > 0
                &&& req.query_text@.len() > 0
                &&& p == (HybridSearchParams {
                    database: req.database,
                    label: req.label,
                    text_property: req.text_property,
                    vector_property: req.vector_property,
                    query_text: req.query_text,
                    query_vector_bits: req.query_vector_bits,
                    k: req.k,
                })
            },
            Err(t) => (req.database@.len() == 0 || req.query_text@.len() == 0) && t.code
                == TransportCode::InvalidArgument,
        },
{
    if req.database.as_str().is_empty() {
        return Err(invalid("database name is required"));
    }
    if req.query_text.as_str().is_empty() {
        return Err(invalid("query_text is required"));
    }
    Ok(
        HybridSearchParams {
            database: req.database,
            label: req.label,
            text_property: req.text_property,
            vector_property: req.vector_property,
            query_text: req.query_text,
            query_vector_bits: req.query_vector_bits,
            k: req.k,
        },
    )
}

/// Convert a backend search hit into its wire form: identifier and score
/// carried through, properties encoded.
pub fn to_proto_hit(hit: &SearchHit) -> (r: WireSearchHit)
    ensures
        r.node_id == hit.node_id,
        r.score_bits == hit.score_bits,
        view_wire_prop_seq(r.properties@) == view_prop_seq(hit.properties@),
{
    WireSearchHit {
        node_id: hit.node_id,
        score_bits: hit.score_bits,
        properties: props_to_wire(&hit.properties),
    }
}

} // verus!
