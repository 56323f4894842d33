use parquet_scan::encoding::u64_to_string;
use parquet_scan::error::DataFusionError;
use parquet_scan::flight::{decode_action, encode_action, BallistaAction, BallistaFlightService};
use parquet_scan::local::LocalFileSystem;
use parquet_scan::runtime_env::{DiskManager, RuntimeConfig, RuntimeEnv};

#[test]
fn runtime_config_defaults() {
    let config = RuntimeConfig::new();
    assert_eq!(config.batch_size, 8192);
    assert_eq!(config.max_memory, usize::MAX);
    assert!(config.local_dirs.len() <= 1);
}

#[test]
fn runtime_config_builders() {
    let config = RuntimeConfig::new()
        .with_batch_size(4096)
        .with_max_execution_memory(1 << 20)
        .with_local_dirs(vec!["/tmp/spill".to_string()]);
    assert_eq!(config.batch_size, 4096);
    assert_eq!(config.max_memory, 1 << 20);
    assert_eq!(config.local_dirs, vec!["/tmp/spill".to_string()]);
}

#[test]
fn runtime_env_requires_a_spill_directory() {
    let config = RuntimeConfig::new().with_local_dirs(vec!["/tmp/spill".to_string()]);
    let env = RuntimeEnv::new(config).unwrap();
    assert_eq!(env.batch_size(), 8192);
    assert_eq!(env.disk_manager.local_dirs, vec!["/tmp/spill".to_string()]);

    let empty = RuntimeConfig { batch_size: 8192, max_memory: usize::MAX, local_dirs: vec![] };
    assert!(matches!(
        RuntimeEnv::new(empty),
        Err(DataFusionError::Config(_))
    ));
    assert!(matches!(
        DiskManager::new(vec![]),
        Err(DataFusionError::Config(_))
    ));
}

#[test]
fn consumer_registration_is_idempotent() {
    let config = RuntimeConfig::new().with_local_dirs(vec!["/tmp/spill".to_string()]);
    let mut env = RuntimeEnv::new(config).unwrap();
    env.register_consumer(7);
    env.register_consumer(9);
    env.register_consumer(7);
    assert_eq!(env.memory_manager.consumers, vec![7, 9]);
}

#[test]
fn listing_keeps_matching_extensions() {
    assert!(LocalFileSystem::keeps_path("data/part-0.parquet", ".parquet"));
    assert!(!LocalFileSystem::keeps_path("data/part-0.csv", ".parquet"));
    assert!(!LocalFileSystem::keeps_path("a", ".parquet"));
    assert!(LocalFileSystem::keeps_path("x.parquet", ""));
}

#[test]
fn ticket_round_trip() {
    let action = BallistaAction::FetchPartition { path: "/data/shuffle/part-3.arrow".to_string() };
    let ticket = encode_action(&action);
    let decoded = decode_action(&ticket).unwrap();
    let BallistaAction::FetchPartition { path } = decoded;
    assert_eq!(path, "/data/shuffle/part-3.arrow");
}

#[test]
fn malformed_tickets_are_rejected() {
    assert!(matches!(
        decode_action(&[]),
        Err(DataFusionError::Decode(_))
    ));
    assert!(matches!(
        decode_action(&[9, 0, 0, 0, 0, 0, 0, 0, 0]),
        Err(DataFusionError::Decode(_))
    ));
    // the declared length disagrees with the payload
    assert!(matches!(
        decode_action(&[1, 5, 0, 0, 0, 0, 0, 0, 0, b'a']),
        Err(DataFusionError::Decode(_))
    ));
    // the payload is not UTF-8
    assert!(matches!(
        decode_action(&[1, 1, 0, 0, 0, 0, 0, 0, 0, 0xff]),
        Err(DataFusionError::Decode(_))
    ));
}

#[test]
fn fetch_partition_decides_from_the_ticket() {
    let service = BallistaFlightService::new();
    let action = BallistaAction::FetchPartition { path: "part-0.arrow".to_string() };
    let ticket = encode_action(&action);
    assert_eq!(service.fetch_partition_path(&ticket).unwrap(), "part-0.arrow");
    assert!(matches!(
        service.fetch_partition_path(&[0, 1, 2]),
        Err(DataFusionError::Internal(_))
    ));
}

#[test]
fn decimal_rendering_is_exact() {
    assert_eq!(u64_to_string(0), "0");
    assert_eq!(u64_to_string(7), "7");
    assert_eq!(u64_to_string(8192), "8192");
    assert_eq!(u64_to_string(1234567890), "1234567890");
}
