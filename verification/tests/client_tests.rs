use gwp::backend::{
    ResultFrame, ResultHeader, ResultSummary, ResultType, Row, RowBatch,
};
use gwp::client::{
    begin_request, close_request, execute_request, handshake_request, ping_request, reset_request,
    set_graph_request, set_schema_request, set_time_zone_request, ResultCursor, Transaction,
};
use gwp::messages::{BeginResponse, ConfigureProperty, ExecuteResponse};
use gwp::wire::{WireKind, WireValue};

fn string_value(s: &str) -> WireValue {
    WireValue {
        kind: Some(WireKind::StringValue(s.to_owned())),
    }
}

fn sample_stream() -> Vec<ExecuteResponse> {
    vec![
        ExecuteResponse {
            frame: Some(ResultFrame::Header(ResultHeader {
                result_type: ResultType::BindingTable,
                columns: Vec::new(),
            })),
        },
        ExecuteResponse {
            frame: Some(ResultFrame::Batch(RowBatch {
                rows: vec![
                    Row {
                        values: vec![string_value("r1")],
                    },
                    Row {
                        values: vec![string_value("r2")],
                    },
                ],
            })),
        },
        ExecuteResponse {
            frame: Some(ResultFrame::Batch(RowBatch {
                rows: vec![Row {
                    values: vec![string_value("r3")],
                }],
            })),
        },
        ExecuteResponse {
            frame: Some(ResultFrame::Summary(ResultSummary {
                status: Some(gwp::status::success()),
                warnings: Vec::new(),
                rows_affected: 3,
                counters: Vec::new(),
            })),
        },
    ]
}

#[test]
fn cursor_yields_rows_in_stream_order() {
    let mut cursor = ResultCursor::new(sample_stream());
    assert!(cursor.header().is_some());
    let r1 = cursor.next_row().unwrap();
    assert_eq!(r1.values[0], string_value("r1"));
    let r2 = cursor.next_row().unwrap();
    assert_eq!(r2.values[0], string_value("r2"));
    let r3 = cursor.next_row().unwrap();
    assert_eq!(r3.values[0], string_value("r3"));
    assert!(cursor.next_row().is_none());
    assert!(cursor.is_success());
    assert_eq!(cursor.rows_affected(), 3);
}

#[test]
fn cursor_collects_remaining_rows() {
    let mut cursor = ResultCursor::new(sample_stream());
    let first = cursor.next_row().unwrap();
    assert_eq!(first.values[0], string_value("r1"));
    let rest = cursor.collect_rows();
    assert_eq!(rest.len(), 2);
    assert_eq!(rest[0].values[0], string_value("r2"));
    assert_eq!(rest[1].values[0], string_value("r3"));
    assert!(cursor.next_row().is_none());
}

#[test]
fn cursor_on_ddl_stream() {
    let responses = vec![
        ExecuteResponse {
            frame: Some(ResultFrame::Header(ResultHeader {
                result_type: ResultType::Omitted,
                columns: Vec::new(),
            })),
        },
        ExecuteResponse {
            frame: Some(ResultFrame::Summary(ResultSummary {
                status: Some(gwp::status::omitted()),
                warnings: Vec::new(),
                rows_affected: 0,
                counters: Vec::new(),
            })),
        },
    ];
    let mut cursor = ResultCursor::new(responses);
    assert!(cursor.next_row().is_none());
    assert!(cursor.is_success());
    assert_eq!(cursor.rows_affected(), 0);
}

#[test]
fn client_transaction() {
    let resp = BeginResponse {
        transaction_id: "tx7".to_owned(),
        status: Some(gwp::status::success()),
    };
    let mut tx = Transaction::from_begin_response("s1".to_owned(), resp).unwrap();
    assert_eq!(tx.transaction_id(), "tx7");
    assert!(tx.needs_rollback());

    let creq = tx.commit_request();
    assert_eq!(creq.session_id, "s1");
    assert_eq!(creq.transaction_id, "tx7");

    tx.apply_commit_response(Some(gwp::status::success()))
        .unwrap();
    assert!(!tx.needs_rollback());
}

#[test]
fn client_transaction_rollback() {
    let resp = BeginResponse {
        transaction_id: "tx8".to_owned(),
        status: Some(gwp::status::success()),
    };
    let mut tx = Transaction::from_begin_response("s1".to_owned(), resp).unwrap();
    let rreq = tx.rollback_request();
    assert_eq!(rreq.transaction_id, "tx8");
    tx.apply_rollback_response(Some(gwp::status::success()))
        .unwrap();
    assert!(!tx.needs_rollback());
}

#[test]
fn begin_rejects_exception_status() {
    let resp = BeginResponse {
        transaction_id: String::new(),
        status: Some(gwp::status::error("25G01", "active transaction")),
    };
    let err = Transaction::from_begin_response("s1".to_owned(), resp).unwrap_err();
    assert!(matches!(err, gwp::error::GqlError::Status { .. }));
}

#[test]
fn begin_rejects_empty_transaction_id() {
    let resp = BeginResponse {
        transaction_id: String::new(),
        status: Some(gwp::status::success()),
    };
    let err = Transaction::from_begin_response("s1".to_owned(), resp).unwrap_err();
    assert!(matches!(err, gwp::error::GqlError::Transaction(_)));
}

#[test]
fn request_builders_encode_the_protocol() {
    let hs = handshake_request();
    assert_eq!(hs.protocol_version, 1);
    assert!(hs.credentials.is_none());

    let ex = execute_request("s1", "RETURN 1", Vec::new());
    assert_eq!(ex.session_id, "s1");
    assert_eq!(ex.statement, "RETURN 1");
    assert!(ex.transaction_id.is_none());

    let bg = begin_request("s1", gwp::backend::TransactionMode::ReadOnly);
    assert_eq!(bg.mode, 1);

    let g = set_graph_request("s1", "g1");
    assert!(matches!(
        g.property,
        Some(ConfigureProperty::Graph(ref s)) if s == "g1"
    ));
    let sc = set_schema_request("s1", "main");
    assert!(matches!(
        sc.property,
        Some(ConfigureProperty::Schema(ref s)) if s == "main"
    ));
    let tz = set_time_zone_request("s1", -300);
    assert_eq!(
        tz.property,
        Some(ConfigureProperty::TimeZoneOffsetMinutes(-300))
    );
    assert_eq!(reset_request("s1").target, 0);
    assert_eq!(ping_request("s1").session_id, "s1");
    assert_eq!(close_request("s1").session_id, "s1");
}
