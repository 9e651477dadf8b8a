use gwp::admin_service::{diagnostics_to_wire, index_from_create, index_from_drop};
use gwp::backend::{IndexDefinition, ValidationDiagnostic};
use gwp::error::TransportCode;
use gwp::messages::{
    HybridSearchRequest, IndexSpec, PropertyIndexSpec, TextIndexSpec, TextSearchRequest,
    VectorIndexSpec, VectorSearchRequest,
};
use gwp::search_service::{
    hybrid_search_preflight, text_search_preflight, to_proto_hit, vector_search_preflight,
};

fn vector_spec() -> IndexSpec {
    IndexSpec::VectorIndex(VectorIndexSpec {
        label: "Person".to_owned(),
        property: "embedding".to_owned(),
        dimensions: Some(128),
        metric: Some("cosine".to_owned()),
        m: Some(16),
        ef_construction: Some(200),
    })
}

#[test]
fn create_index_keeps_vector_options() {
    let def = index_from_create(Some(vector_spec())).unwrap();
    match def {
        IndexDefinition::Vector {
            label,
            property,
            dimensions,
            metric,
            m,
            ef_construction,
        } => {
            assert_eq!(label, "Person");
            assert_eq!(property, "embedding");
            assert_eq!(dimensions, Some(128));
            assert_eq!(metric, Some("cosine".to_owned()));
            assert_eq!(m, Some(16));
            assert_eq!(ef_construction, Some(200));
        }
        other => panic!("wrong index kind: {other:?}"),
    }
}

#[test]
fn drop_index_keeps_only_identity() {
    let def = index_from_drop(Some(vector_spec())).unwrap();
    match def {
        IndexDefinition::Vector {
            label,
            property,
            dimensions,
            metric,
            m,
            ef_construction,
        } => {
            assert_eq!(label, "Person");
            assert_eq!(property, "embedding");
            assert_eq!(dimensions, None);
            assert_eq!(metric, None);
            assert_eq!(m, None);
            assert_eq!(ef_construction, None);
        }
        other => panic!("wrong index kind: {other:?}"),
    }
}

#[test]
fn property_and_text_index_translation() {
    let p = index_from_create(Some(IndexSpec::PropertyIndex(PropertyIndexSpec {
        property: "name".to_owned(),
    })))
    .unwrap();
    assert!(matches!(p, IndexDefinition::Property { ref property } if property == "name"));

    let t = index_from_drop(Some(IndexSpec::TextIndex(TextIndexSpec {
        label: "Doc".to_owned(),
        property: "body".to_owned(),
    })))
    .unwrap();
    assert!(matches!(t, IndexDefinition::Text { ref label, .. } if label == "Doc"));
}

#[test]
fn missing_index_spec_rejected() {
    assert_eq!(
        index_from_create(None).unwrap_err().code,
        TransportCode::InvalidArgument
    );
    assert_eq!(
        index_from_drop(None).unwrap_err().code,
        TransportCode::InvalidArgument
    );
}

#[test]
fn diagnostics_cross_the_wire_unchanged() {
    let diags = vec![ValidationDiagnostic {
        code: "E001".to_owned(),
        message: "dangling edge".to_owned(),
        context: Some("edge 0x10".to_owned()),
    }];
    let wire = diagnostics_to_wire(diags);
    assert_eq!(wire.len(), 1);
    assert_eq!(wire[0].code, "E001");
    assert_eq!(wire[0].message, "dangling edge");
    assert_eq!(wire[0].context, Some("edge 0x10".to_owned()));
}

#[test]
fn vector_search_validation() {
    let good = VectorSearchRequest {
        database: "default".to_owned(),
        label: "Person".to_owned(),
        property: "embedding".to_owned(),
        query_vector_bits: vec![(1.0_f32).to_bits(), (0.5_f32).to_bits()],
        k: 5,
        ef: Some(64),
        filters: Vec::new(),
    };
    let params = vector_search_preflight(good).unwrap();
    assert_eq!(params.k, 5);
    assert_eq!(params.query_vector_bits.len(), 2);

    let no_vector = VectorSearchRequest {
        database: "default".to_owned(),
        label: "Person".to_owned(),
        property: "embedding".to_owned(),
        query_vector_bits: Vec::new(),
        k: 5,
        ef: None,
        filters: Vec::new(),
    };
    assert_eq!(
        vector_search_preflight(no_vector).unwrap_err().code,
        TransportCode::InvalidArgument
    );
}

#[test]
fn text_and_hybrid_search_validation() {
    let no_db = TextSearchRequest {
        database: String::new(),
        label: "Doc".to_owned(),
        property: "body".to_owned(),
        query: "graphs".to_owned(),
        k: 3,
    };
    assert_eq!(
        text_search_preflight(no_db).unwrap_err().code,
        TransportCode::InvalidArgument
    );

    let good = HybridSearchRequest {
        database: "default".to_owned(),
        label: "Doc".to_owned(),
        text_property: "body".to_owned(),
        vector_property: "embedding".to_owned(),
        query_text: "graphs".to_owned(),
        query_vector_bits: Vec::new(),
        k: 3,
    };
    let params = hybrid_search_preflight(good).unwrap();
    assert_eq!(params.query_text, "graphs");
}

#[test]
fn search_hit_conversion() {
    let hit = gwp::backend::SearchHit {
        node_id: 42,
        score_bits: (0.87_f64).to_bits(),
        properties: vec![("name".to_owned(), gwp::value::Value::from("Ada"))],
    };
    let wire = to_proto_hit(&hit);
    assert_eq!(wire.node_id, 42);
    assert_eq!(f64::from_bits(wire.score_bits), 0.87);
    assert_eq!(wire.properties.len(), 1);
    assert_eq!(wire.properties[0].0, "name");
}
