use mobility_registry::host::{AccountId, HostContext};
use mobility_registry::identity::{
    DidRegistry, DidStatus, EngineType, SensorMetadata, VehicleMetadata,
};

fn ctx(caller: AccountId) -> HostContext {
    HostContext { caller, block_number: 1, block_timestamp: 1000 }
}

fn alice() -> AccountId {
    AccountId(1)
}

fn bob() -> AccountId {
    AccountId(2)
}

fn tesla_metadata() -> VehicleMetadata {
    VehicleMetadata {
        vin: String::from("TEST123456789"),
        make: String::from("Tesla"),
        model: String::from("Model 3"),
        year: 2023,
        license_plate: String::from("AXI001"),
        engine_type: EngineType::Electric,
    }
}

#[test]
fn new_works() {
    let registry = DidRegistry::new(alice());
    assert_eq!(registry.get_total_dids(), 0);
}

#[test]
fn create_vehicle_did_works() {
    let mut registry = DidRegistry::new(alice());
    let did_id = String::from("did:peaq:vehicle:test001");
    let public_key = [1u8; 32];
    let service_endpoint = String::from("https://api.aximobility.com/vehicle/test001");

    let metadata = tesla_metadata();

    let result = registry.create_vehicle_did(
        ctx(alice()),
        did_id.clone(),
        public_key,
        service_endpoint,
        metadata,
    );

    assert!(result.is_ok());
    assert!(registry.get_did(&did_id).is_some());
    assert_eq!(registry.get_total_dids(), 1);
}

#[test]
fn create_sensor_did_works() {
    let mut registry = DidRegistry::new(alice());
    let vehicle_did = String::from("did:peaq:vehicle:test001");
    let sensor_did = String::from("did:peaq:sensor:test001");

    let vehicle_metadata = tesla_metadata();

    registry
        .create_vehicle_did(
            ctx(alice()),
            vehicle_did.clone(),
            [1u8; 32],
            String::from("https://api.aximobility.com/vehicle/test001"),
            vehicle_metadata,
        )
        .unwrap();

    let sensor_metadata = SensorMetadata {
        sensor_type: String::from("GPS"),
        manufacturer: String::from("Bosch"),
        model: String::from("GPS-2023"),
        accuracy: String::from("Â±1m"),
        parent_vehicle_did: Some(vehicle_did),
    };

    let result = registry.create_sensor_did(
        ctx(alice()),
        sensor_did.clone(),
        [2u8; 32],
        String::from("https://api.aximobility.com/sensor/test001"),
        sensor_metadata,
    );

    assert!(result.is_ok());
    assert!(registry.get_did(&sensor_did).is_some());
    assert_eq!(registry.get_total_dids(), 2);
}

#[test]
fn duplicate_did_fails() {
    let mut registry = DidRegistry::new(alice());
    let did_id = String::from("did:peaq:vehicle:test001");
    let public_key = [1u8; 32];
    let service_endpoint = String::from("https://api.aximobility.com/vehicle/test001");

    let metadata = tesla_metadata();

    let result1 = registry.create_vehicle_did(
        ctx(alice()),
        did_id.clone(),
        public_key,
        service_endpoint.clone(),
        metadata,
    );
    assert!(result1.is_ok());

    let result2 = registry.create_vehicle_did(
        ctx(alice()),
        did_id,
        public_key,
        service_endpoint,
        tesla_metadata(),
    );
    assert!(result2.is_err());
    assert_eq!(result2.unwrap_err(), "DID already exists");
}

#[test]
fn authorization_works() {
    let mut registry = DidRegistry::new(alice());
    let did_id = String::from("did:peaq:vehicle:test001");

    let metadata = tesla_metadata();

    registry
        .create_vehicle_did(
            ctx(alice()),
            did_id.clone(),
            [1u8; 32],
            String::from("https://api.aximobility.com/vehicle/test001"),
            metadata,
        )
        .unwrap();

    registry
        .grant_authorization(ctx(alice()), did_id.clone(), bob())
        .unwrap();

    assert!(registry.verify_access(&did_id, &bob()));
}

#[test]
fn invalid_did_format_fails() {
    let mut registry = DidRegistry::new(alice());
    let invalid_did = String::from("invalid_did_format");

    let metadata = tesla_metadata();

    let result = registry.create_vehicle_did(
        ctx(alice()),
        invalid_did,
        [1u8; 32],
        String::from("https://api.aximobility.com/vehicle/test001"),
        metadata,
    );

    assert!(result.is_err());
    assert_eq!(result.unwrap_err(), "Invalid DID format");
}

#[test]
fn sensor_did_with_missing_parent_fails() {
    let mut registry = DidRegistry::new(alice());
    let vehicle_did = String::from("did:peaq:vehicle:v1");

    registry
        .create_vehicle_did(
            ctx(alice()),
            vehicle_did.clone(),
            [1u8; 32],
            String::from("https://example.test/v1"),
            tesla_metadata(),
        )
        .unwrap();

    let good = SensorMetadata {
        sensor_type: String::from("GPS"),
        manufacturer: String::from("Bosch"),
        model: String::from("GPS-2023"),
        accuracy: String::from("high"),
        parent_vehicle_did: Some(vehicle_did),
    };
    let result = registry.create_sensor_did(
        ctx(alice()),
        String::from("did:peaq:sensor:s1"),
        [2u8; 32],
        String::from("https://example.test/s1"),
        good,
    );
    assert!(result.is_ok());

    let orphan = SensorMetadata {
        sensor_type: String::from("GPS"),
        manufacturer: String::from("Bosch"),
        model: String::from("GPS-2023"),
        accuracy: String::from("high"),
        parent_vehicle_did: Some(String::from("did:peaq:vehicle:missing")),
    };
    let result = registry.create_sensor_did(
        ctx(alice()),
        String::from("did:peaq:sensor:s2"),
        [3u8; 32],
        String::from("https://example.test/s2"),
        orphan,
    );
    assert!(result.is_err());
    assert_eq!(result.unwrap_err(), "Parent vehicle DID not found");
}

#[test]
fn update_did_requires_access_and_active() {
    let mut registry = DidRegistry::new(alice());
    let did_id = String::from("did:peaq:vehicle:test001");

    let missing = registry.update_did(
        ctx(alice()),
        did_id.clone(),
        [9u8; 32],
        String::from("https://example.test/new"),
    );
    assert_eq!(missing.unwrap_err(), "DID not found");

    registry
        .create_vehicle_did(
            ctx(alice()),
            did_id.clone(),
            [1u8; 32],
            String::from("https://example.test/old"),
            tesla_metadata(),
        )
        .unwrap();

    let unauthorized = registry.update_did(
        ctx(bob()),
        did_id.clone(),
        [9u8; 32],
        String::from("https://example.test/new"),
    );
    assert_eq!(unauthorized.unwrap_err(), "Unauthorized");

    registry
        .grant_authorization(ctx(alice()), did_id.clone(), bob())
        .unwrap();
    let delegated = registry.update_did(
        ctx(bob()),
        did_id.clone(),
        [9u8; 32],
        String::from("https://example.test/new"),
    );
    assert!(delegated.is_ok());
    let doc = registry.get_did(&did_id).unwrap();
    assert_eq!(doc.public_key, [9u8; 32]);
    assert_eq!(doc.service_endpoint, "https://example.test/new");

    registry
        .revoke_did(ctx(alice()), did_id.clone(), String::from("retired"))
        .unwrap();
    assert!(matches!(
        registry.get_did(&did_id).unwrap().status,
        DidStatus::Revoked
    ));
    assert!(!registry.is_did_active(&did_id));

    let inactive = registry.update_did(
        ctx(alice()),
        did_id.clone(),
        [7u8; 32],
        String::from("https://example.test/other"),
    );
    assert_eq!(inactive.unwrap_err(), "DID not active");
}

#[test]
fn revoke_authorization_removes_access() {
    let mut registry = DidRegistry::new(alice());
    let did_id = String::from("did:peaq:vehicle:test001");

    registry
        .create_vehicle_did(
            ctx(alice()),
            did_id.clone(),
            [1u8; 32],
            String::from("https://example.test/v"),
            tesla_metadata(),
        )
        .unwrap();

    registry
        .grant_authorization(ctx(alice()), did_id.clone(), bob())
        .unwrap();
    // granting twice is a no-op
    registry
        .grant_authorization(ctx(alice()), did_id.clone(), bob())
        .unwrap();
    assert_eq!(registry.get_authorizations(&did_id).len(), 1);

    registry
        .revoke_authorization(ctx(alice()), did_id.clone(), bob())
        .unwrap();
    assert!(!registry.verify_access(&did_id, &bob()));
    assert_eq!(registry.get_authorizations(&did_id).len(), 0);

    let not_controller = registry.grant_authorization(ctx(bob()), did_id.clone(), bob());
    assert_eq!(not_controller.unwrap_err(), "Unauthorized");
}

#[test]
fn owner_dids_are_indexed_in_order() {
    let mut registry = DidRegistry::new(alice());
    let first = String::from("did:peaq:vehicle:a");
    let second = String::from("did:peaq:vehicle:b");

    registry
        .create_vehicle_did(
            ctx(alice()),
            first.clone(),
            [1u8; 32],
            String::from("https://example.test/a"),
            tesla_metadata(),
        )
        .unwrap();
    let mut other = tesla_metadata();
    other.vin = String::from("OTHERVIN");
    registry
        .create_vehicle_did(
            ctx(alice()),
            second.clone(),
            [2u8; 32],
            String::from("https://example.test/b"),
            other,
        )
        .unwrap();

    let owned = registry.get_owner_dids(&alice());
    assert_eq!(owned, vec![first, second]);
    assert!(registry.get_owner_dids(&bob()).is_empty());
}
