use mobility_registry::host::{AccountId, HostContext};
use mobility_registry::telemetry::{BatchStatus, TelemetryProcessor};

fn ctx(caller: AccountId) -> HostContext {
    HostContext { caller, block_number: 7, block_timestamp: 1000 }
}

fn at_block(caller: AccountId, block_number: u32) -> HostContext {
    HostContext { caller, block_number, block_timestamp: 1000 + block_number as u64 }
}

fn alice() -> AccountId {
    AccountId(1)
}

fn bob() -> AccountId {
    AccountId(2)
}

#[test]
fn lib_new_works() {
    let processor = TelemetryProcessor::new(alice());
    let stats = processor.get_stats();
    assert_eq!(stats.total_records, 0);
    assert!(processor.is_processing_enabled());
}

#[test]
fn authorize_vehicle_works() {
    let mut processor = TelemetryProcessor::new(alice());
    let vehicle_hash = [1u8; 32];
    let result = processor.authorize_vehicle(ctx(alice()), vehicle_hash);
    assert!(result.is_ok());
    assert!(processor.is_vehicle_authorized(&vehicle_hash));
}

#[test]
fn process_record_works() {
    let mut processor = TelemetryProcessor::new(alice());
    let vehicle_hash = [1u8; 32];
    let data_hash = [2u8; 32];

    processor.authorize_vehicle(ctx(alice()), vehicle_hash).unwrap();
    let result = processor.process_record(ctx(alice()), vehicle_hash, 1, data_hash, 80);
    assert!(result.is_ok());

    let stats = processor.get_stats();
    assert_eq!(stats.total_records, 1);
    assert_eq!(stats.valid_records, 1);
}

#[test]
fn batch_processing_works() {
    let mut processor = TelemetryProcessor::new(alice());
    let vehicle_hash = [1u8; 32];
    let batch_id = [3u8; 32];
    let merkle_root = [4u8; 32];

    processor.authorize_vehicle(ctx(alice()), vehicle_hash).unwrap();

    let records = vec![
        (vehicle_hash, 1, [5u8; 32], 80),
        (vehicle_hash, 2, [6u8; 32], 85),
        (vehicle_hash, 3, [7u8; 32], 90),
    ];

    let result = processor.process_batch(ctx(alice()), batch_id, records, merkle_root);
    assert!(result.is_ok());
    assert_eq!(result.unwrap(), 3);
}

#[test]
fn unauthorized_vehicle_fails() {
    let mut processor = TelemetryProcessor::new(alice());
    let vehicle_hash = [1u8; 32];
    let data_hash = [2u8; 32];

    let result = processor.process_record(ctx(alice()), vehicle_hash, 1, data_hash, 80);
    assert!(result.is_err());
    assert_eq!(result.unwrap_err(), "Vehicle not authorized");
}

#[test]
fn low_quality_fails() {
    let mut processor = TelemetryProcessor::new(alice());
    let vehicle_hash = [1u8; 32];
    let data_hash = [2u8; 32];

    processor.authorize_vehicle(ctx(alice()), vehicle_hash).unwrap();
    let result = processor.process_record(ctx(alice()), vehicle_hash, 1, data_hash, 30);
    assert!(result.is_err());
    assert_eq!(result.unwrap_err(), "Quality score too low");
}

#[test]
fn duplicate_record_in_same_block_fails() {
    let mut processor = TelemetryProcessor::new(alice());
    let vehicle_hash = [1u8; 32];

    processor.authorize_vehicle(ctx(alice()), vehicle_hash).unwrap();

    // same vehicle and sensor at the same block height and timestamp:
    // the derived id collides and the second call is a duplicate
    let first = processor.process_record(ctx(alice()), vehicle_hash, 1, [2u8; 32], 80);
    assert!(first.is_ok());
    let second = processor.process_record(ctx(alice()), vehicle_hash, 1, [9u8; 32], 95);
    assert_eq!(second.unwrap_err(), "Duplicate record");

    // at another block the id differs and the record is accepted
    let next_block = processor.process_record(at_block(alice(), 8), vehicle_hash, 1, [2u8; 32], 80);
    assert!(next_block.is_ok());

    // another sensor type in the same block is no duplicate either
    let other_sensor = processor.process_record(ctx(alice()), vehicle_hash, 2, [2u8; 32], 80);
    assert!(other_sensor.is_ok());
}

#[test]
fn scenario_single_record_stats() {
    let mut processor = TelemetryProcessor::new(alice());
    let h = [11u8; 32];
    processor.authorize_vehicle(ctx(alice()), h).unwrap();

    let result = processor.process_record(ctx(alice()), h, 1, [2u8; 32], 80);
    assert!(result.is_ok());

    let stats = processor.get_stats();
    assert_eq!(stats.total_records, 1);
    assert_eq!(stats.valid_records, 1);
    assert_eq!(stats.avg_quality_score, 80);
    assert_eq!(stats.last_processed_block, 7);
    assert_eq!(processor.get_vehicle_counter(&h), 1);

    let id = result.unwrap();
    let record = processor.get_record(&id).unwrap();
    assert_eq!(record.quality_score, 80);
    assert!(record.processed);
    assert!(!record.validated);
}

#[test]
fn running_average_stays_in_bounds() {
    let mut processor = TelemetryProcessor::new(alice());
    let h = [11u8; 32];
    processor.authorize_vehicle(ctx(alice()), h).unwrap();

    processor.process_record(at_block(alice(), 1), h, 1, [2u8; 32], 50).unwrap();
    assert_eq!(processor.get_stats().avg_quality_score, 50);

    processor.process_record(at_block(alice(), 2), h, 1, [2u8; 32], 100).unwrap();
    // (50 * 1 + 100) / 2
    assert_eq!(processor.get_stats().avg_quality_score, 75);

    processor.process_record(at_block(alice(), 3), h, 1, [2u8; 32], 75).unwrap();
    // (75 * 2 + 75) / 3
    assert_eq!(processor.get_stats().avg_quality_score, 75);

    let avg = processor.get_stats().avg_quality_score;
    assert!((50..=100).contains(&avg));
}

#[test]
fn scenario_batch_stats() {
    let mut processor = TelemetryProcessor::new(alice());
    let h = [1u8; 32];
    processor.authorize_vehicle(ctx(alice()), h).unwrap();

    let records = vec![
        (h, 1, [5u8; 32], 80),
        (h, 2, [6u8; 32], 85),
        (h, 3, [7u8; 32], 90),
    ];
    let accepted = processor
        .process_batch(ctx(alice()), [3u8; 32], records, [4u8; 32])
        .unwrap();
    assert_eq!(accepted, 3);

    let batch = processor.get_batch(&[3u8; 32]).unwrap();
    assert_eq!(batch.record_count, 3);
    assert_eq!(batch.processed_count, 3);
    assert!(matches!(batch.status, BatchStatus::Completed));

    let stats = processor.get_stats();
    assert_eq!(stats.total_records, 3);
    assert_eq!(stats.valid_records, 3);
    // the batch mean (80 + 85 + 90) / 3 merged into an empty history
    assert_eq!(stats.avg_quality_score, 85);
    assert_eq!(processor.get_vehicle_counter(&h), 3);
}

#[test]
fn batch_with_repeated_items_accepts_each() {
    let mut processor = TelemetryProcessor::new(alice());
    let h = [1u8; 32];
    processor.authorize_vehicle(ctx(alice()), h).unwrap();

    // identical items stay distinct through the per-batch sequence number
    let records = vec![(h, 1, [5u8; 32], 80), (h, 1, [5u8; 32], 80)];
    let accepted = processor
        .process_batch(ctx(alice()), [3u8; 32], records, [4u8; 32])
        .unwrap();
    assert_eq!(accepted, 2);
    assert_eq!(processor.get_stats().total_records, 2);
}

#[test]
fn failed_batch_leaves_stats_unchanged() {
    let mut processor = TelemetryProcessor::new(alice());
    let authorized = [1u8; 32];
    let unauthorized = [8u8; 32];
    processor.authorize_vehicle(ctx(alice()), authorized).unwrap();
    processor
        .process_record(ctx(alice()), authorized, 1, [2u8; 32], 80)
        .unwrap();
    let before = processor.get_stats();

    // every item is either for an unauthorized vehicle or below quality 50
    let records = vec![
        (unauthorized, 1, [5u8; 32], 80),
        (authorized, 2, [6u8; 32], 49),
        (unauthorized, 3, [7u8; 32], 10),
    ];
    let accepted = processor
        .process_batch(ctx(alice()), [3u8; 32], records, [4u8; 32])
        .unwrap();
    assert_eq!(accepted, 0);

    let batch = processor.get_batch(&[3u8; 32]).unwrap();
    assert!(matches!(batch.status, BatchStatus::Failed));
    assert_eq!(batch.processed_count, 0);

    let after = processor.get_stats();
    assert_eq!(after.total_records, before.total_records);
    assert_eq!(after.valid_records, before.valid_records);
    assert_eq!(after.avg_quality_score, before.avg_quality_score);
}

#[test]
fn batch_whole_call_failures() {
    let mut processor = TelemetryProcessor::new(alice());
    let h = [1u8; 32];
    processor.authorize_vehicle(ctx(alice()), h).unwrap();

    let too_many = vec![(h, 1, [5u8; 32], 80); 1001];
    let result = processor.process_batch(ctx(alice()), [3u8; 32], too_many, [4u8; 32]);
    assert_eq!(result.unwrap_err(), "Batch too large");

    let full = vec![(h, 1, [5u8; 32], 80); 1000];
    let result = processor.process_batch(ctx(alice()), [3u8; 32], full, [4u8; 32]);
    assert_eq!(result.unwrap(), 1000);

    let again = processor.process_batch(ctx(alice()), [3u8; 32], vec![(h, 1, [5u8; 32], 80)], [4u8; 32]);
    assert_eq!(again.unwrap_err(), "Batch already exists");
}

#[test]
fn toggle_processing_gates_ingestion() {
    let mut processor = TelemetryProcessor::new(alice());
    let h = [1u8; 32];
    processor.authorize_vehicle(ctx(alice()), h).unwrap();

    let not_admin = processor.toggle_processing(ctx(bob()));
    assert_eq!(not_admin.unwrap_err(), "Unauthorized");

    processor.toggle_processing(ctx(alice())).unwrap();
    assert!(!processor.is_processing_enabled());

    let record = processor.process_record(ctx(alice()), h, 1, [2u8; 32], 80);
    assert_eq!(record.unwrap_err(), "Processing disabled");
    let batch = processor.process_batch(ctx(alice()), [3u8; 32], vec![(h, 1, [5u8; 32], 80)], [4u8; 32]);
    assert_eq!(batch.unwrap_err(), "Processing disabled");

    processor.toggle_processing(ctx(alice())).unwrap();
    assert!(processor.is_processing_enabled());
}

#[test]
fn validate_record_flow() {
    let mut processor = TelemetryProcessor::new(alice());
    let h = [1u8; 32];
    processor.authorize_vehicle(ctx(alice()), h).unwrap();
    let id = processor.process_record(ctx(alice()), h, 1, [2u8; 32], 80).unwrap();

    let not_admin = processor.validate_record(ctx(bob()), id);
    assert_eq!(not_admin.unwrap_err(), "Unauthorized");

    let missing = processor.validate_record(ctx(alice()), [42u8; 32]);
    assert_eq!(missing.unwrap_err(), "Record not found");

    processor.validate_record(ctx(alice()), id).unwrap();
    assert!(processor.get_record(&id).unwrap().validated);

    let twice = processor.validate_record(ctx(alice()), id);
    assert_eq!(twice.unwrap_err(), "Already validated");
}

#[test]
fn deauthorize_vehicle_blocks_new_records() {
    let mut processor = TelemetryProcessor::new(alice());
    let h = [1u8; 32];

    let not_admin = processor.authorize_vehicle(ctx(bob()), h);
    assert_eq!(not_admin.unwrap_err(), "Unauthorized");

    processor.authorize_vehicle(ctx(alice()), h).unwrap();
    processor.process_record(ctx(alice()), h, 1, [2u8; 32], 80).unwrap();

    processor.deauthorize_vehicle(ctx(alice()), h).unwrap();
    assert!(!processor.is_vehicle_authorized(&h));

    let rejected = processor.process_record(at_block(alice(), 8), h, 1, [2u8; 32], 80);
    assert_eq!(rejected.unwrap_err(), "Vehicle not authorized");
    // the earlier record and counter survive
    assert_eq!(processor.get_vehicle_counter(&h), 1);
    assert_eq!(processor.get_stats().total_records, 1);
    assert_eq!(processor.get_owner(), alice());
}

#[test]
fn anomalous_sensor_type_is_accepted() {
    let mut processor = TelemetryProcessor::new(alice());
    let h = [1u8; 32];
    processor.authorize_vehicle(ctx(alice()), h).unwrap();

    // a sensor code above 10 is flagged anomalous but still stored
    let id = processor.process_record(ctx(alice()), h, 11, [2u8; 32], 80).unwrap();
    let record = processor.get_record(&id).unwrap();
    assert_eq!(record.sensor_type, 11);
    assert_eq!(processor.get_stats().total_records, 1);
}
