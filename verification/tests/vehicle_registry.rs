use mobility_registry::assets::{
    EngineType, SensorRegistration, SensorType, VehicleRegistration, VehicleRegistry,
    VehicleStatus,
};
use mobility_registry::host::{AccountId, HostContext};

fn ctx(caller: AccountId) -> HostContext {
    HostContext { caller, block_number: 1, block_timestamp: 1000 }
}

fn alice() -> AccountId {
    AccountId(1)
}

fn bob() -> AccountId {
    AccountId(2)
}

fn axi_registration() -> VehicleRegistration {
    VehicleRegistration {
        vehicle_id: String::from("AXI_001"),
        did_identifier: String::from("did:peaq:vehicle:axi_001"),
        vin: String::from("TEST123456789"),
        make: String::from("Tesla"),
        model: String::from("Model 3"),
        year: 2023,
        license_plate: String::from("AXI001"),
        engine_type: EngineType::Electric,
        battery_capacity: Some(75),
    }
}

#[test]
fn vehicle_new_works() {
    let registry = VehicleRegistry::new(alice());
    let stats = registry.get_stats();
    assert_eq!(stats.total_vehicles, 0);
    assert_eq!(stats.active_vehicles, 0);
}

#[test]
fn register_vehicle_works() {
    let mut registry = VehicleRegistry::new(alice());

    let registration = axi_registration();

    let result = registry.register_vehicle(ctx(alice()), registration);

    assert!(result.is_ok());
    assert!(registry.get_vehicle(&String::from("AXI_001")).is_some());

    let stats = registry.get_stats();
    assert_eq!(stats.total_vehicles, 1);
    assert_eq!(stats.active_vehicles, 1);
    assert_eq!(stats.electric_vehicles, 1);
}

#[test]
fn duplicate_vehicle_fails() {
    let mut registry = VehicleRegistry::new(alice());

    let registration1 = axi_registration();

    let registration2 = VehicleRegistration {
        vehicle_id: String::from("AXI_001"),
        did_identifier: String::from("did:peaq:vehicle:axi_002"),
        vin: String::from("TEST987654321"),
        make: String::from("BMW"),
        model: String::from("i3"),
        year: 2023,
        license_plate: String::from("AXI002"),
        engine_type: EngineType::Electric,
        battery_capacity: Some(42),
    };

    let result1 = registry.register_vehicle(ctx(alice()), registration1);
    assert!(result1.is_ok());

    let result2 = registry.register_vehicle(ctx(alice()), registration2);
    assert!(result2.is_err());
}

#[test]
fn register_sensor_works() {
    let mut registry = VehicleRegistry::new(alice());

    let vehicle_registration = axi_registration();

    registry
        .register_vehicle(ctx(alice()), vehicle_registration)
        .unwrap();

    let sensor_registration = SensorRegistration {
        sensor_id: String::from("GPS_001"),
        did_identifier: String::from("did:peaq:sensor:gps_001"),
        vehicle_id: String::from("AXI_001"),
        sensor_type: SensorType::Gps,
        manufacturer: String::from("Bosch"),
        model: String::from("GPS-2023"),
        accuracy: String::from("±1m"),
    };

    let result = registry.register_sensor(ctx(alice()), sensor_registration);

    assert!(result.is_ok());
    assert!(registry.get_sensor(&String::from("GPS_001")).is_some());

    let sensors = registry.get_vehicle_sensors(&String::from("AXI_001"));
    assert_eq!(sensors.len(), 1);
    assert_eq!(sensors[0], "GPS_001");
}

#[test]
fn operator_assignment_works() {
    let mut registry = VehicleRegistry::new(alice());

    let registration = axi_registration();

    registry.register_vehicle(ctx(alice()), registration).unwrap();
    registry.authorize_operator(ctx(alice()), bob()).unwrap();

    let result = registry.assign_operator(ctx(alice()), String::from("AXI_001"), bob());
    assert!(result.is_ok());

    let vehicle = registry.get_vehicle(&String::from("AXI_001")).unwrap();
    assert_eq!(vehicle.operator, Some(bob()));
}

#[test]
fn location_update_works() {
    let mut registry = VehicleRegistry::new(alice());

    let registration = axi_registration();

    registry.register_vehicle(ctx(alice()), registration).unwrap();

    let latitude = -1234567; // -1.234567 degrees scaled by 1000000
    let longitude = 36987654; // 36.987654 degrees scaled by 1000000

    let result =
        registry.update_location(ctx(alice()), String::from("AXI_001"), latitude, longitude);
    assert!(result.is_ok());

    let vehicle = registry.get_vehicle(&String::from("AXI_001")).unwrap();
    assert!(vehicle.location.is_some());

    let location = vehicle.location.unwrap();
    assert_eq!(location.latitude, latitude);
    assert_eq!(location.longitude, longitude);
}

#[test]
fn duplicate_vin_fails() {
    let mut registry = VehicleRegistry::new(alice());

    registry.register_vehicle(ctx(alice()), axi_registration()).unwrap();

    // every other field differs; only the VIN is reused
    let same_vin = VehicleRegistration {
        vehicle_id: String::from("AXI_002"),
        did_identifier: String::from("did:peaq:vehicle:axi_002"),
        vin: String::from("TEST123456789"),
        make: String::from("BMW"),
        model: String::from("i3"),
        year: 2020,
        license_plate: String::from("AXI002"),
        engine_type: EngineType::Gasoline,
        battery_capacity: None,
    };
    let result = registry.register_vehicle(ctx(bob()), same_vin);
    assert_eq!(result.unwrap_err(), "VIN already registered");

    let same_plate = VehicleRegistration {
        vehicle_id: String::from("AXI_003"),
        did_identifier: String::from("did:peaq:vehicle:axi_003"),
        vin: String::from("DIFFERENTVIN1"),
        make: String::from("BMW"),
        model: String::from("i3"),
        year: 2020,
        license_plate: String::from("AXI001"),
        engine_type: EngineType::Gasoline,
        battery_capacity: None,
    };
    let result = registry.register_vehicle(ctx(bob()), same_plate);
    assert_eq!(result.unwrap_err(), "License plate already registered");
}

#[test]
fn empty_required_field_fails() {
    let mut registry = VehicleRegistry::new(alice());

    let mut registration = axi_registration();
    registration.make = String::new();

    let result = registry.register_vehicle(ctx(alice()), registration);
    assert_eq!(result.unwrap_err(), "Invalid vehicle data");
    assert_eq!(registry.get_stats().total_vehicles, 0);
}

#[test]
fn deauthorized_operator_keeps_assignments() {
    let mut registry = VehicleRegistry::new(alice());

    registry.register_vehicle(ctx(alice()), axi_registration()).unwrap();
    registry.authorize_operator(ctx(alice()), bob()).unwrap();
    registry
        .assign_operator(ctx(alice()), String::from("AXI_001"), bob())
        .unwrap();

    registry.deauthorize_operator(ctx(alice()), bob()).unwrap();

    // the assignment and the operator index survive deauthorization
    assert!(!registry.is_operator_authorized(&bob()));
    let vehicle = registry.get_vehicle(&String::from("AXI_001")).unwrap();
    assert_eq!(vehicle.operator, Some(bob()));
    assert_eq!(
        registry.get_operator_vehicles(&bob()),
        vec![String::from("AXI_001")]
    );

    // but new assignments now fail
    let mut other = axi_registration();
    other.vehicle_id = String::from("AXI_002");
    other.vin = String::from("OTHERVIN00001");
    other.license_plate = String::from("AXI002");
    registry.register_vehicle(ctx(alice()), other).unwrap();
    let result = registry.assign_operator(ctx(alice()), String::from("AXI_002"), bob());
    assert_eq!(result.unwrap_err(), "Operator not authorized");
}

#[test]
fn active_counter_follows_status_changes() {
    let mut registry = VehicleRegistry::new(alice());

    registry.register_vehicle(ctx(alice()), axi_registration()).unwrap();
    let mut other = axi_registration();
    other.vehicle_id = String::from("AXI_002");
    other.vin = String::from("OTHERVIN00001");
    other.license_plate = String::from("AXI002");
    other.engine_type = EngineType::Diesel;
    registry.register_vehicle(ctx(alice()), other).unwrap();

    assert_eq!(registry.get_stats().total_vehicles, 2);
    assert_eq!(registry.get_stats().active_vehicles, 2);
    assert_eq!(registry.get_stats().electric_vehicles, 1);

    registry
        .update_vehicle_status(ctx(alice()), String::from("AXI_001"), VehicleStatus::Maintenance)
        .unwrap();
    assert_eq!(registry.get_stats().active_vehicles, 1);
    assert!(!registry.is_vehicle_active(&String::from("AXI_001")));

    // a transition that neither enters nor leaves Active moves nothing
    registry
        .update_vehicle_status(ctx(alice()), String::from("AXI_001"), VehicleStatus::Suspended)
        .unwrap();
    assert_eq!(registry.get_stats().active_vehicles, 1);

    registry
        .update_vehicle_status(ctx(alice()), String::from("AXI_001"), VehicleStatus::Active)
        .unwrap();
    assert_eq!(registry.get_stats().active_vehicles, 2);
    assert_eq!(registry.get_stats().total_vehicles, 2);
}

#[test]
fn mileage_is_monotonic() {
    let mut registry = VehicleRegistry::new(alice());
    registry.register_vehicle(ctx(alice()), axi_registration()).unwrap();

    registry
        .update_mileage(ctx(alice()), String::from("AXI_001"), 500)
        .unwrap();
    assert_eq!(registry.get_vehicle(&String::from("AXI_001")).unwrap().mileage, 500);

    let result = registry.update_mileage(ctx(alice()), String::from("AXI_001"), 499);
    assert_eq!(result.unwrap_err(), "Invalid mileage");

    let result = registry.update_mileage(ctx(bob()), String::from("AXI_001"), 600);
    assert_eq!(result.unwrap_err(), "Unauthorized");

    let result = registry.update_mileage(ctx(alice()), String::from("NOPE"), 600);
    assert_eq!(result.unwrap_err(), "Vehicle not found");
}

#[test]
fn vin_and_plate_indices_resolve() {
    let mut registry = VehicleRegistry::new(alice());
    registry.register_vehicle(ctx(alice()), axi_registration()).unwrap();

    let by_vin = registry.get_vehicle_by_vin(&String::from("TEST123456789"));
    assert_eq!(by_vin.unwrap().id, "AXI_001");
    let by_plate = registry.get_vehicle_by_license(&String::from("AXI001"));
    assert_eq!(by_plate.unwrap().id, "AXI_001");
    assert!(registry.get_vehicle_by_vin(&String::from("UNKNOWN")).is_none());

    assert_eq!(registry.get_owner_vehicles(&alice()), vec![String::from("AXI_001")]);
    assert_eq!(registry.get_owner(), alice());
}
