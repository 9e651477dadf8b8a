use gwp::backend::CreateDatabaseConfig;
use gwp::database_service::{into_info, require_database_name, to_summary};
use gwp::error::TransportCode;
use gwp::mock_backend::MockBackend;

#[test]
fn list_databases() {
    let backend = MockBackend::new();
    let dbs = backend.list_databases().unwrap();
    assert_eq!(dbs.len(), 2);
    assert_eq!(dbs[0].name, "default");
    assert_eq!(dbs[0].node_count, 100);
    assert_eq!(dbs[0].edge_count, 50);
    assert_eq!(dbs[1].name, "test");
}

#[test]
fn create_database() {
    let backend = MockBackend::new();
    let config = CreateDatabaseConfig {
        name: "fresh".to_owned(),
        database_type: "Lpg".to_owned(),
        storage_mode: "InMemory".to_owned(),
        memory_limit_bytes: None,
        backward_edges: None,
        threads: None,
        wal_enabled: None,
        wal_durability: None,
    };
    let info = backend.create_database(config).unwrap();
    assert_eq!(info.name, "fresh");
    assert_eq!(info.node_count, 0);
    assert!(!info.persistent);
}

#[test]
fn create_database_with_options() {
    let backend = MockBackend::new();
    let config = CreateDatabaseConfig {
        name: "durable".to_owned(),
        database_type: "Lpg".to_owned(),
        storage_mode: "Persistent".to_owned(),
        memory_limit_bytes: Some(1 << 30),
        backward_edges: Some(true),
        threads: Some(4),
        wal_enabled: Some(true),
        wal_durability: Some("strict".to_owned()),
    };
    let info = backend.create_database(config).unwrap();
    assert!(info.persistent);
    assert_eq!(info.memory_limit_bytes, Some(1 << 30));
    assert_eq!(info.backward_edges, Some(true));
    assert_eq!(info.threads, Some(4));
}

#[test]
fn create_database_already_exists() {
    let backend = MockBackend::new();
    let config = CreateDatabaseConfig {
        name: "default".to_owned(),
        database_type: "Lpg".to_owned(),
        storage_mode: "InMemory".to_owned(),
        memory_limit_bytes: None,
        backward_edges: None,
        threads: None,
        wal_enabled: None,
        wal_durability: None,
    };
    let err = backend.create_database(config).unwrap_err();
    let status = gwp::database_service::map_error(err);
    assert_eq!(status.code, TransportCode::AlreadyExists);
}

#[test]
fn create_database_empty_name() {
    let status = require_database_name("").unwrap_err();
    assert_eq!(status.code, TransportCode::InvalidArgument);
    assert!(require_database_name("x").is_ok());
}

#[test]
fn delete_database() {
    let backend = MockBackend::new();
    assert_eq!(backend.delete_database("scratch").unwrap(), "scratch");
}

#[test]
fn delete_default_database_fails() {
    let backend = MockBackend::new();
    let err = backend.delete_database("default").unwrap_err();
    let status = gwp::database_service::map_error(err);
    // the message carries no "not found"/"already exists" marker
    assert_eq!(status.code, TransportCode::InvalidArgument);
}

#[test]
fn get_database_info() {
    let backend = MockBackend::new();
    let info = backend.get_database_info("test").unwrap();
    assert_eq!(info.name, "test");
    assert_eq!(info.node_count, 10);
    assert_eq!(info.edge_count, 5);
}

#[test]
fn get_database_info_not_found() {
    let backend = MockBackend::new();
    let err = backend.get_database_info("missing").unwrap_err();
    let status = gwp::database_service::map_error(err);
    assert_eq!(status.code, TransportCode::NotFound);
}

#[test]
fn summary_conversion_round() {
    let backend = MockBackend::new();
    let info = backend.get_database_info("default").unwrap();
    let summary = to_summary(&info);
    assert_eq!(summary.name, "default");
    assert_eq!(summary.node_count, 100);
    let back = into_info(summary);
    assert_eq!(back.name, "default");
    assert_eq!(back.node_count, 100);
    // the wire summary does not carry the extended fields
    assert!(back.memory_limit_bytes.is_none());
}
