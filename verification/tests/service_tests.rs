use gwp::backend::{ResultFrame, ResultType, TransactionMode};
use gwp::error::TransportCode;
use gwp::gql_service::{
    begin_complete, begin_preflight, error_summary_response, execute_preflight, finish_complete,
    finish_preflight, pump, validate_session,
};
use gwp::messages::{BeginRequest, ExecuteRequest};
use gwp::mock_backend::MockBackend;
use gwp::session_manager::SessionManager;
use gwp::session_service::{close_collect, close_commit, handshake_complete, ping_touch};
use gwp::transaction_manager::TransactionManager;

fn default_config() -> gwp::backend::SessionConfig {
    gwp::backend::SessionConfig {
        protocol_version: 1,
        client_info: Vec::new(),
    }
}

fn frames_to_items(
    frames: Vec<ResultFrame>,
) -> Vec<Result<ResultFrame, gwp::error::GqlError>> {
    let mut items = Vec::new();
    for f in frames {
        items.push(Ok(f));
    }
    items
}

#[test]
fn handshake_and_close() {
    let mut backend = MockBackend::new();
    let mut sessions = SessionManager::new();
    let mut transactions = TransactionManager::new();

    let handle = backend.create_session(&default_config()).unwrap();
    let resp = handshake_complete(&mut sessions, handle, 0).unwrap();
    assert_eq!(resp.protocol_version, 1);
    assert_eq!(resp.session_id, "mock-session-1");
    let info = resp.server_info.unwrap();
    assert_eq!(info.name, "gql-wire-protocol");

    let sid = resp.session_id.as_str();
    let txs = close_collect(&sessions, &mut transactions, sid).unwrap();
    assert!(txs.is_empty());
    close_commit(&mut sessions, sid);

    // subsequent ping on the same id is NOT_FOUND
    let pong = ping_touch(&mut sessions, sid, 5);
    assert_eq!(pong.unwrap_err().code, TransportCode::NotFound);
}

#[test]
fn execute_query_streaming() {
    let mut backend = MockBackend::new();
    let mut sessions = SessionManager::new();
    let transactions = TransactionManager::new();

    let handle = backend.create_session(&default_config()).unwrap();
    let resp = handshake_complete(&mut sessions, handle, 0).unwrap();
    let sid = resp.session_id.clone();

    let req = ExecuteRequest {
        session_id: sid,
        statement: "MATCH (p:Person) RETURN p.name, p.age".to_owned(),
        parameters: Vec::new(),
        transaction_id: None,
    };
    let plan = execute_preflight(&mut sessions, &transactions, &req, 1).unwrap();
    assert_eq!(plan.session.0, "mock-session-1");
    assert!(plan.transaction.is_none());

    let stream = backend.execute(&req.statement).unwrap();
    let out = pump(frames_to_items(stream.frames));
    assert_eq!(out.len(), 3);
    match out[0].frame.as_ref().unwrap() {
        ResultFrame::Header(h) => {
            assert_eq!(h.result_type, ResultType::BindingTable);
            assert_eq!(h.columns.len(), 2);
            assert_eq!(h.columns[0].name, "name");
            assert_eq!(h.columns[1].name, "age");
        }
        _ => panic!("expected header first"),
    }
    match out[1].frame.as_ref().unwrap() {
        ResultFrame::Batch(b) => {
            assert_eq!(b.rows.len(), 2);
        }
        _ => panic!("expected a row batch"),
    }
    match out[2].frame.as_ref().unwrap() {
        ResultFrame::Summary(s) => {
            assert_eq!(s.status.as_ref().unwrap().code, "00000");
            assert_eq!(s.rows_affected, 2);
        }
        _ => panic!("expected summary last"),
    }
}

#[test]
fn execute_ddl() {
    let backend = MockBackend::new();
    let stream = backend.execute("CREATE GRAPH g").unwrap();
    let out = pump(frames_to_items(stream.frames));
    assert_eq!(out.len(), 2);
    match out[0].frame.as_ref().unwrap() {
        ResultFrame::Header(h) => {
            assert_eq!(h.result_type, ResultType::Omitted);
            assert!(h.columns.is_empty());
        }
        _ => panic!("expected header first"),
    }
    match out[1].frame.as_ref().unwrap() {
        ResultFrame::Summary(s) => {
            assert_eq!(s.status.as_ref().unwrap().code, "00001");
            assert_eq!(s.rows_affected, 0);
        }
        _ => panic!("expected summary last"),
    }
}

#[test]
fn execute_error() {
    let backend = MockBackend::new();
    let err = backend.execute("ERROR this is broken").unwrap_err();
    let resp = error_summary_response(err);
    match resp.frame.as_ref().unwrap() {
        ResultFrame::Summary(s) => {
            let status = s.status.as_ref().unwrap();
            assert_eq!(status.code, "42001");
            assert!(status.message.contains("syntax"));
        }
        _ => panic!("expected a terminal summary"),
    }
}

#[test]
fn mid_stream_error_becomes_summary() {
    let backend = MockBackend::new();
    let stream = backend.execute("MATCH (n) RETURN n").unwrap();
    let mut items = frames_to_items(stream.frames);
    // truncate after the header and inject a backend fault
    items.truncate(1);
    items.push(Err(gwp::error::GqlError::backend("disk on fire".to_owned())));
    let out = pump(items);
    assert_eq!(out.len(), 2);
    match out[1].frame.as_ref().unwrap() {
        ResultFrame::Summary(s) => {
            let status = s.status.as_ref().unwrap();
            assert_eq!(status.code, "22000");
            assert!(status.message.contains("disk on fire"));
        }
        _ => panic!("expected a terminal summary"),
    }
}

#[test]
fn invalid_session_returns_grpc_not_found() {
    let mut sessions = SessionManager::new();
    let transactions = TransactionManager::new();

    let t = validate_session(&sessions, "nonexistent").unwrap_err();
    assert_eq!(t.code, TransportCode::NotFound);

    let req = ExecuteRequest {
        session_id: "nonexistent".to_owned(),
        statement: "RETURN 1".to_owned(),
        parameters: Vec::new(),
        transaction_id: None,
    };
    let r = execute_preflight(&mut sessions, &transactions, &req, 0);
    assert_eq!(r.unwrap_err().code, TransportCode::NotFound);
}

#[test]
fn transaction_lifecycle() {
    let mut backend = MockBackend::new();
    let mut sessions = SessionManager::new();
    let mut transactions = TransactionManager::new();

    let handle = backend.create_session(&default_config()).unwrap();
    let resp = handshake_complete(&mut sessions, handle, 0).unwrap();
    let sid = resp.session_id.clone();

    let breq = BeginRequest {
        session_id: sid.clone(),
        mode: 0,
    };
    let mode = begin_preflight(&mut sessions, &breq, 1).unwrap();
    assert_eq!(mode, TransactionMode::ReadWrite);
    let outcome = backend.begin_transaction();
    let (bresp, rollback) = begin_complete(&mut sessions, &mut transactions, &sid, mode, outcome);
    assert!(rollback.is_none());
    assert_eq!(bresp.transaction_id, "mock-tx-1");
    assert_eq!(bresp.status.unwrap().code, "00000");
    assert_eq!(sessions.active_transaction(&sid), Some("mock-tx-1".to_owned()));

    // commit
    finish_preflight(&mut sessions, &transactions, &sid, "mock-tx-1", 2).unwrap();
    let status = finish_complete(
        &mut sessions,
        &mut transactions,
        &sid,
        "mock-tx-1",
        backend.commit(
            &gwp::backend::SessionHandle(sid.clone()),
            &gwp::backend::TransactionHandle("mock-tx-1".to_owned()),
        ),
    );
    assert_eq!(status.code, "00000");
    assert_eq!(sessions.active_transaction(&sid), None);
    assert!(transactions.validate("mock-tx-1", &sid).is_err());
}

#[test]
fn double_begin_returns_gqlstatus_error() {
    let mut backend = MockBackend::new();
    let mut sessions = SessionManager::new();
    let mut transactions = TransactionManager::new();

    let handle = backend.create_session(&default_config()).unwrap();
    let resp = handshake_complete(&mut sessions, handle, 0).unwrap();
    let sid = resp.session_id.clone();

    let (first, rb1) = begin_complete(
        &mut sessions,
        &mut transactions,
        &sid,
        TransactionMode::ReadWrite,
        backend.begin_transaction(),
    );
    assert!(rb1.is_none());
    assert!(!first.transaction_id.is_empty());

    let (second, rb2) = begin_complete(
        &mut sessions,
        &mut transactions,
        &sid,
        TransactionMode::ReadWrite,
        backend.begin_transaction(),
    );
    assert_eq!(second.transaction_id, "");
    assert_eq!(second.status.unwrap().code, "25G01");
    // the orphaned backend handle is handed back for the cascading rollback
    assert!(rb2.is_some());
}

#[test]
fn commit_unknown_transaction_rejected_in_payload() {
    let mut backend = MockBackend::new();
    let mut sessions = SessionManager::new();
    let transactions = TransactionManager::new();

    let handle = backend.create_session(&default_config()).unwrap();
    let resp = handshake_complete(&mut sessions, handle, 0).unwrap();
    let sid = resp.session_id.clone();

    let st = finish_preflight(&mut sessions, &transactions, &sid, "no-such-tx", 3).unwrap_err();
    assert_eq!(st.code, "25000");
}

#[test]
fn close_rolls_back_open_transactions() {
    let mut backend = MockBackend::new();
    let mut sessions = SessionManager::new();
    let mut transactions = TransactionManager::new();

    let handle = backend.create_session(&default_config()).unwrap();
    let resp = handshake_complete(&mut sessions, handle, 0).unwrap();
    let sid = resp.session_id.clone();

    let (bresp, _) = begin_complete(
        &mut sessions,
        &mut transactions,
        &sid,
        TransactionMode::ReadWrite,
        backend.begin_transaction(),
    );
    let tx_id = bresp.transaction_id;

    let txs = close_collect(&sessions, &mut transactions, &sid).unwrap();
    assert_eq!(txs, vec![tx_id]);
    close_commit(&mut sessions, &sid);
    assert!(!sessions.contains(&sid));
}

#[test]
fn idle_reap_scenario() {
    let mut backend = MockBackend::new();
    let mut sessions = SessionManager::new();
    let mut transactions = TransactionManager::new();

    let handle = backend.create_session(&default_config()).unwrap();
    let resp = handshake_complete(&mut sessions, handle, 0).unwrap();
    let sid = resp.session_id.clone();

    // idle_timeout = 2s; the session sits untouched for 3s
    let reaped = sessions.reap_idle(3000, 2000);
    assert_eq!(reaped, vec![sid.clone()]);
    for dead in &reaped {
        transactions.remove_for_session(dead);
        // the backend observes a close for the reaped handle
        backend
            .close_session(&gwp::backend::SessionHandle(dead.clone()))
            .unwrap();
    }
    let pong = ping_touch(&mut sessions, &sid, 3500);
    assert_eq!(pong.unwrap_err().code, TransportCode::NotFound);
}

#[test]
fn capacity_exhaustion_on_handshake() {
    let mut backend = MockBackend::new();
    let mut sessions = SessionManager::with_capacity(1);

    let h1 = backend.create_session(&default_config()).unwrap();
    handshake_complete(&mut sessions, h1, 0).unwrap();
    let h2 = backend.create_session(&default_config()).unwrap();
    let (status, handle_back) = handshake_complete(&mut sessions, h2, 0).unwrap_err();
    assert_eq!(status.code, TransportCode::ResourceExhausted);
    assert_eq!(handle_back.0, "mock-session-2");
}
