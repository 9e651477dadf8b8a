use gwp::backend::{ResetTarget, SessionProperty, TransactionMode};
use gwp::session_manager::SessionManager;
use gwp::transaction_manager::TransactionManager;
use gwp::value::Value;

#[test]
fn register_and_remove() {
    let mut tm = TransactionManager::new();
    tm.register("tx1", "sess1", TransactionMode::ReadWrite)
        .unwrap();

    let state = tm.remove("tx1").unwrap();
    assert_eq!(state.session_id, "sess1");
}

#[test]
fn double_begin_fails() {
    let mut tm = TransactionManager::new();
    tm.register("tx1", "sess1", TransactionMode::ReadWrite)
        .unwrap();

    let result = tm.register("tx2", "sess1", TransactionMode::ReadOnly);
    assert!(result.is_err());
}

#[test]
fn validate_wrong_session() {
    let mut tm = TransactionManager::new();
    tm.register("tx1", "sess1", TransactionMode::ReadWrite)
        .unwrap();

    let result = tm.validate("tx1", "sess2");
    assert!(result.is_err());
}

#[test]
fn remove_for_session() {
    let mut tm = TransactionManager::new();
    tm.register("tx1", "sess1", TransactionMode::ReadWrite)
        .unwrap();

    let removed = tm.remove_for_session("sess1");
    assert_eq!(removed, vec!["tx1"]);

    let result = tm.validate("tx1", "sess1");
    assert!(result.is_err());
}

#[test]
fn session_register_and_lookup() {
    let mut sm = SessionManager::new();
    sm.register("s1", 10).unwrap();
    assert!(sm.contains("s1"));
    assert!(!sm.contains("s2"));
    assert!(sm.remove("s1"));
    assert!(!sm.contains("s1"));
    assert!(!sm.remove("s1"));
}

#[test]
fn session_capacity_enforced() {
    let mut sm = SessionManager::with_capacity(2);
    sm.register("a", 0).unwrap();
    sm.register("b", 0).unwrap();
    let third = sm.register("c", 0);
    assert!(third.is_err());
    assert!(!sm.contains("c"));
    // freeing a slot lets a new session in
    sm.remove("a");
    sm.register("c", 0).unwrap();
    assert!(sm.contains("c"));
}

#[test]
fn configure_and_reset_session_state() {
    let mut sm = SessionManager::new();
    sm.register("s1", 0).unwrap();
    sm.configure("s1", SessionProperty::Schema("mydb".to_owned()))
        .unwrap();
    sm.configure("s1", SessionProperty::Graph("g".to_owned()))
        .unwrap();
    sm.configure("s1", SessionProperty::TimeZone(-300)).unwrap();
    sm.configure(
        "s1",
        SessionProperty::Parameter {
            name: "limit".to_owned(),
            value: Value::from(10_i64),
        },
    )
    .unwrap();
    sm.reset("s1", ResetTarget::TimeZone, 5).unwrap();
    sm.reset("s1", ResetTarget::All, 7).unwrap();

    let missing = sm.configure("s2", SessionProperty::TimeZone(0));
    assert!(missing.is_err());
}

#[test]
fn active_transaction_pointer() {
    let mut sm = SessionManager::new();
    sm.register("s1", 0).unwrap();
    assert_eq!(sm.active_transaction("s1"), None);
    sm.set_active_transaction("s1", Some("tx9".to_owned()))
        .unwrap();
    assert_eq!(sm.active_transaction("s1"), Some("tx9".to_owned()));
    sm.set_active_transaction("s1", None).unwrap();
    assert_eq!(sm.active_transaction("s1"), None);
    assert!(sm.set_active_transaction("ghostly", None).is_err());
}

#[test]
fn idle_sessions_are_reaped() {
    let mut sm = SessionManager::new();
    sm.register("old", 0).unwrap();
    sm.register("fresh", 2500).unwrap();
    let reaped = sm.reap_idle(3000, 2000);
    assert_eq!(reaped, vec!["old"]);
    assert!(!sm.contains("old"));
    assert!(sm.contains("fresh"));
}

#[test]
fn touch_keeps_session_alive() {
    let mut sm = SessionManager::new();
    sm.register("s1", 0).unwrap();
    sm.touch("s1", 2500);
    let reaped = sm.reap_idle(3000, 2000);
    assert!(reaped.is_empty());
    assert!(sm.contains("s1"));
}
