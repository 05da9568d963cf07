//! The asset registry: vehicles and sensors, their ownership and operator
//! relationships, uniqueness-constrained secondary indices (VIN, license
//! plate), and incrementally maintained aggregate statistics.
//!
//! Every aggregate counter is kept equal to the live count of entities
//! satisfying its predicate by applying exactly one delta per mutating
//! call, never by rescanning.

use vstd::prelude::*;
use vstd::string::StrSliceExecFns;
use vstd::string::StringExecFns;

use crate::arith::{sat_add32, sat_add_u32, sat_sub32, sat_sub_u32};
use crate::host::{AccountId, HostContext};
use crate::kv::KvMap;
use crate::multimap::{list_at, seq_remove_all, seq_view, ListMap};

verus! {

#[derive(Clone, Copy, PartialEq, Eq, Debug, Structural)]
pub enum EngineType {
    Electric,
    Hybrid,
    Gasoline,
    Diesel,
}

#[derive(Clone, Copy, PartialEq, Eq, Debug, Structural)]
pub enum VehicleStatus {
    Active,
    Inactive,
    Maintenance,
    Suspended,
    Deregistered,
}

/// A fixed-point geographic position, coordinates scaled by 1,000,000.
#[derive(Clone, Copy, PartialEq, Eq, Debug, Structural)]
pub struct Location {
    pub latitude: i32,
    pub longitude: i32,
    pub timestamp: u64,
}

#[derive(Clone, Copy, PartialEq, Eq, Debug, Structural)]
pub enum SensorType {
    Gps,
    Accelerometer,
    Gyroscope,
    Battery,
    Temperature,
    Speed,
    FuelLevel,
    EngineRpm,
}

#[derive(Clone, Copy, PartialEq, Eq, Debug, Structural)]
pub enum SensorStatus {
    Active,
    Inactive,
    Faulty,
    Calibrating,
}

/// A registered vehicle.
pub struct Vehicle {
    pub id: String,
    pub did_identifier: String,
    pub owner: AccountId,
    pub operator: Option<AccountId>,
    pub vin: String,
    pub make: String,
    pub model: String,
    pub year: u16,
    pub license_plate: String,
    pub engine_type: EngineType,
    pub battery_capacity: Option<u32>,
    pub status: VehicleStatus,
    pub registered_at: u64,
    pub last_updated: u64,
    pub mileage: u32,
    pub location: Option<Location>,
}

pub ghost struct VehicleView {
    pub id: Seq<char>,
    pub did_identifier: Seq<char>,
    pub owner: AccountId,
    pub operator: Option<AccountId>,
    pub vin: Seq<char>,
    pub make: Seq<char>,
    pub model: Seq<char>,
    pub year: u16,
    pub license_plate: Seq<char>,
    pub engine_type: EngineType,
    pub battery_capacity: Option<u32>,
    pub status: VehicleStatus,
    pub registered_at: u64,
    pub last_updated: u64,
    pub mileage: u32,
    pub location: Option<Location>,
}

impl View for Vehicle {
    type V = VehicleView;

    open spec fn view(&self) -> VehicleView {
        VehicleView {
            id: self.id@,
            did_identifier: self.did_identifier@,
            owner: self.owner,
            operator: self.operator,
            vin: self.vin@,
            make: self.make@,
            model: self.model@,
            year: self.year,
            license_plate: self.license_plate@,
            engine_type: self.engine_type,
            battery_capacity: self.battery_capacity,
            status: self.status,
            registered_at: self.registered_at,
            last_updated: self.last_updated,
            mileage: self.mileage,
            location: self.location,
        }
    }
}

/// A request to register a vehicle.
pub struct VehicleRegistration {
    pub vehicle_id: String,
    pub did_identifier: String,
    pub vin: String,
    pub make: String,
    pub model: String,
    pub year: u16,
    pub license_plate: String,
    pub engine_type: EngineType,
    pub battery_capacity: Option<u32>,
}

pub ghost struct VehicleRegistrationView {
    pub vehicle_id: Seq<char>,
    pub did_identifier: Seq<char>,
    pub vin: Seq<char>,
    pub make: Seq<char>,
    pub model: Seq<char>,
    pub year: u16,
    pub license_plate: Seq<char>,
    pub engine_type: EngineType,
    pub battery_capacity: Option<u32>,
}

impl View for VehicleRegistration {
    type V = VehicleRegistrationView;

    open spec fn view(&self) -> VehicleRegistrationView {
        VehicleRegistrationView {
            vehicle_id: self.vehicle_id@,
            did_identifier: self.did_identifier@,
            vin: self.vin@,
            make: self.make@,
            model: self.model@,
            year: self.year,
            license_plate: self.license_plate@,
            engine_type: self.engine_type,
            battery_capacity: self.battery_capacity,
        }
    }
}

/// A sensor installed on a vehicle.
pub struct Sensor {
    pub id: String,
    pub did_identifier: String,
    pub vehicle_id: String,
    pub sensor_type: SensorType,
    pub manufacturer: String,
    pub model: String,
    pub status: SensorStatus,
    pub installed_at: u64,
    pub last_calibrated: u64,
    pub accuracy: String,
}

pub ghost struct SensorView {
    pub id: Seq<char>,
    pub did_identifier: Seq<char>,
    pub vehicle_id: Seq<char>,
    pub sensor_type: SensorType,
    pub manufacturer: Seq<char>,
    pub model: Seq<char>,
    pub status: SensorStatus,
    pub installed_at: u64,
    pub last_calibrated: u64,
    pub accuracy: Seq<char>,
}

impl View for Sensor {
    type V = SensorView;

    open spec fn view(&self) -> SensorView {
        SensorView {
            id: self.id@,
            did_identifier: self.did_identifier@,
            vehicle_id: self.vehicle_id@,
            sensor_type: self.sensor_type,
            manufacturer: self.manufacturer@,
            model: self.model@,
            status: self.status,
            installed_at: self.installed_at,
            last_calibrated: self.last_calibrated,
            accuracy: self.accuracy@,
        }
    }
}

/// A request to register a sensor.
pub struct SensorRegistration {
    pub sensor_id: String,
    pub did_identifier: String,
    pub vehicle_id: String,
    pub sensor_type: SensorType,
    pub manufacturer: String,
    pub model: String,
    pub accuracy: String,
}

pub ghost struct SensorRegistrationView {
    pub sensor_id: Seq<char>,
    pub did_identifier: Seq<char>,
    pub vehicle_id: Seq<char>,
    pub sensor_type: SensorType,
    pub manufacturer: Seq<char>,
    pub model: Seq<char>,
    pub accuracy: Seq<char>,
}

impl View for SensorRegistration {
    type V = SensorRegistrationView;

    open spec fn view(&self) -> SensorRegistrationView {
        SensorRegistrationView {
            sensor_id: self.sensor_id@,
            did_identifier: self.did_identifier@,
            vehicle_id: self.vehicle_id@,
            sensor_type: self.sensor_type,
            manufacturer: self.manufacturer@,
            model: self.model@,
            accuracy: self.accuracy@,
        }
    }
}

/// Aggregate counts, maintained incrementally on every mutation.
#[derive(Clone, Copy, PartialEq, Eq, Debug, Structural)]
pub struct RegistryStats {
    pub total_vehicles: u32,
    pub active_vehicles: u32,
    pub total_sensors: u32,
    pub active_sensors: u32,
    pub electric_vehicles: u32,
}

/// Notification: a vehicle was registered.
pub struct VehicleRegistered {
    pub vehicle_id: String,
    pub owner: AccountId,
    pub vin: String,
    pub make: String,
    pub model: String,
}

/// Notification: a vehicle's status changed.
pub struct VehicleStatusChanged {
    pub vehicle_id: String,
    pub old_status: VehicleStatus,
    pub new_status: VehicleStatus,
    pub changed_by: AccountId,
}

/// Notification: a sensor was registered on a vehicle.
pub struct SensorRegistered {
    pub sensor_id: String,
    pub vehicle_id: String,
    pub sensor_type: SensorType,
    pub registered_by: AccountId,
}

/// Notification: an operator was assigned to a vehicle.
pub struct OperatorAssigned {
    pub vehicle_id: String,
    pub operator: AccountId,
    pub assigned_by: AccountId,
}

/// Notification: a vehicle's location was overwritten.
pub struct LocationUpdated {
    pub vehicle_id: String,
    pub latitude: i32,
    pub longitude: i32,
    pub timestamp: u64,
}

/// One entry of the asset registry's event log.
pub enum VehicleEvent {
    Registered(VehicleRegistered),
    StatusChanged(VehicleStatusChanged),
    SensorAdded(SensorRegistered),
    OperatorAssigned(OperatorAssigned),
    LocationUpdated(LocationUpdated),
}

pub ghost enum VehicleEventView {
    Registered { vehicle_id: Seq<char>, owner: AccountId, vin: Seq<char>, make: Seq<char>, model: Seq<char> },
    StatusChanged {
        vehicle_id: Seq<char>,
        old_status: VehicleStatus,
        new_status: VehicleStatus,
        changed_by: AccountId,
    },
    SensorAdded {
        sensor_id: Seq<char>,
        vehicle_id: Seq<char>,
        sensor_type: SensorType,
        registered_by: AccountId,
    },
    OperatorAssigned { vehicle_id: Seq<char>, operator: AccountId, assigned_by: AccountId },
    LocationUpdated { vehicle_id: Seq<char>, latitude: i32, longitude: i32, timestamp: u64 },
}

impl View for VehicleEvent {
    type V = VehicleEventView;

    open spec fn view(&self) -> VehicleEventView {
        match self {
            VehicleEvent::Registered(e) => VehicleEventView::Registered {
                vehicle_id: e.vehicle_id@,
                owner: e.owner,
                vin: e.vin@,
                make: e.make@,
                model: e.model@,
            },
            VehicleEvent::StatusChanged(e) => VehicleEventView::StatusChanged {
                vehicle_id: e.vehicle_id@,
                old_status: e.old_status,
                new_status: e.new_status,
                changed_by: e.changed_by,
            },
            VehicleEvent::SensorAdded(e) => VehicleEventView::SensorAdded {
                sensor_id: e.sensor_id@,
                vehicle_id: e.vehicle_id@,
                sensor_type: e.sensor_type,
                registered_by: e.registered_by,
            },
            VehicleEvent::OperatorAssigned(e) => VehicleEventView::OperatorAssigned {
                vehicle_id: e.vehicle_id@,
                operator: e.operator,
                assigned_by: e.assigned_by,
            },
            VehicleEvent::LocationUpdated(e) => VehicleEventView::LocationUpdated {
                vehicle_id: e.vehicle_id@,
                latitude: e.latitude,
                longitude: e.longitude,
                timestamp: e.timestamp,
            },
        }
    }
}

/// The asset registry's whole state, mathematically.
pub ghost struct VehicleRegistryView {
    pub vehicles: Map<Seq<char>, VehicleView>,
    pub sensors: Map<Seq<char>, SensorView>,
    pub owner_vehicles: Map<AccountId, Seq<Seq<char>>>,
    pub operator_vehicles: Map<AccountId, Seq<Seq<char>>>,
    pub vehicle_sensors: Map<Seq<char>, Seq<Seq<char>>>,
    pub vin_to_id: Map<Seq<char>, Seq<char>>,
    pub license_to_id: Map<Seq<char>, Seq<char>>,
    pub stats: RegistryStats,
    pub owner: AccountId,
    pub authorized_operators: Map<AccountId, bool>,
    pub events: Seq<VehicleEventView>,
}

/// `account` may manage `vid`: it is the vehicle's owner, its current
/// operator, or the registry administrator.
pub open spec fn vehicle_access(v: VehicleRegistryView, vid: Seq<char>, account: AccountId) -> bool {
    v.vehicles.contains_key(vid) && (v.vehicles[vid].owner == account || v.vehicles[vid].operator
        == Some(account) || account == v.owner)
}

/// `op` currently stands in the authorized-operator allow-list.
pub open spec fn operator_allowed(v: VehicleRegistryView, op: AccountId) -> bool {
    v.authorized_operators.contains_key(op) && v.authorized_operators[op]
}

/// A registration is accepted: fresh id, fresh VIN, fresh plate, and the
/// required fields are non-empty.
pub open spec fn register_ok(pre: VehicleRegistryView, reg: VehicleRegistrationView) -> bool {
    &&& !pre.vehicles.contains_key(reg.vehicle_id)
    &&& !pre.vin_to_id.contains_key(reg.vin)
    &&& !pre.license_to_id.contains_key(reg.license_plate)
    &&& reg.vehicle_id.len() > 0
    &&& reg.vin.len() > 0
    &&& reg.make.len() > 0
}

/// The state after a successful registration by `caller` at `ts`.
pub open spec fn register_post(
    pre: VehicleRegistryView,
    caller: AccountId,
    ts: u64,
    reg: VehicleRegistrationView,
) -> VehicleRegistryView {
    VehicleRegistryView {
        vehicles: pre.vehicles.insert(
            reg.vehicle_id,
            VehicleView {
                id: reg.vehicle_id,
                did_identifier: reg.did_identifier,
                owner: caller,
                operator: None,
                vin: reg.vin,
                make: reg.make,
                model: reg.model,
                year: reg.year,
                license_plate: reg.license_plate,
                engine_type: reg.engine_type,
                battery_capacity: reg.battery_capacity,
                status: VehicleStatus::Active,
                registered_at: ts,
                last_updated: ts,
                mileage: 0,
                location: None,
            },
        ),
        vin_to_id: pre.vin_to_id.insert(reg.vin, reg.vehicle_id),
        license_to_id: pre.license_to_id.insert(reg.license_plate, reg.vehicle_id),
        owner_vehicles: pre.owner_vehicles.insert(
            caller,
            list_at(pre.owner_vehicles, caller).push(reg.vehicle_id),
        ),
        stats: RegistryStats {
            total_vehicles: sat_add_u32(pre.stats.total_vehicles, 1),
            active_vehicles: sat_add_u32(pre.stats.active_vehicles, 1),
            electric_vehicles: if reg.engine_type == EngineType::Electric {
                sat_add_u32(pre.stats.electric_vehicles, 1)
            } else {
                pre.stats.electric_vehicles
            },
            ..pre.stats
        },
        events: pre.events.push(
            VehicleEventView::Registered {
                vehicle_id: reg.vehicle_id,
                owner: caller,
                vin: reg.vin,
                make: reg.make,
                model: reg.model,
            },
        ),
        ..pre
    }
}

/// The vehicles currently in status Active.
pub open spec fn active_vehicle_ids(m: Map<Seq<char>, VehicleView>) -> Set<Seq<char>> {
    m.dom().filter(|k: Seq<char>| m[k].status == VehicleStatus::Active)
}

/// The vehicles with an electric engine.
pub open spec fn electric_vehicle_ids(m: Map<Seq<char>, VehicleView>) -> Set<Seq<char>> {
    m.dom().filter(|k: Seq<char>| m[k].engine_type == EngineType::Electric)
}

/// The sensors currently in status Active.
pub open spec fn active_sensor_ids(m: Map<Seq<char>, SensorView>) -> Set<Seq<char>> {
    m.dom().filter(|k: Seq<char>| m[k].status == SensorStatus::Active)
}

/// Every aggregate counter equals the live count of entities satisfying
/// its predicate.
pub open spec fn stats_consistent(v: VehicleRegistryView) -> bool {
    &&& v.stats.total_vehicles == v.vehicles.dom().len()
    &&& v.stats.active_vehicles == active_vehicle_ids(v.vehicles).len()
    &&& v.stats.electric_vehicles == electric_vehicle_ids(v.vehicles).len()
    &&& v.stats.total_sensors == v.sensors.dom().len()
    &&& v.stats.active_sensors == active_sensor_ids(v.sensors).len()
}

/// The asset registry.
pub struct VehicleRegistry {
    vehicles: KvMap<String, Vehicle>,
    sensors: KvMap<String, Sensor>,
    owner_vehicles: ListMap<AccountId, String>,
    operator_vehicles: ListMap<AccountId, String>,
    vehicle_sensors: ListMap<String, String>,
    vin_to_id: KvMap<String, String>,
    license_to_id: KvMap<String, String>,
    stats: RegistryStats,
    owner: AccountId,
    authorized_operators: KvMap<AccountId, bool>,
    events: Vec<VehicleEvent>,
}

impl View for VehicleRegistry {
    type V = VehicleRegistryView;

    closed spec fn view(&self) -> VehicleRegistryView {
        VehicleRegistryView {
            vehicles: self.vehicles@,
            sensors: self.sensors@,
            owner_vehicles: self.owner_vehicles@,
            operator_vehicles: self.operator_vehicles@,
            vehicle_sensors: self.vehicle_sensors@,
            vin_to_id: self.vin_to_id@,
            license_to_id: self.license_to_id@,
            stats: self.stats,
            owner: self.owner,
            authorized_operators: self.authorized_operators@,
            events: seq_view(self.events@),
        }
    }
}

impl VehicleRegistry {
    pub closed spec fn wf(self) -> bool {
        &&& self.vehicles.wf()
        &&& self.sensors.wf()
        &&& self.owner_vehicles.wf()
        &&& self.operator_vehicles.wf()
        &&& self.vehicle_sensors.wf()
        &&& self.vin_to_id.wf()
        &&& self.license_to_id.wf()
        &&& self.authorized_operators.wf()
    }

    /// A fresh registry administered by `owner`.
    pub fn new(owner: AccountId) -> (r: Self)
        ensures
            r.wf(),
            r@ == (VehicleRegistryView {
                vehicles: Map::empty(),
                sensors: Map::empty(),
                owner_vehicles: Map::empty(),
                operator_vehicles: Map::empty(),
                vehicle_sensors: Map::empty(),
                vin_to_id: Map::empty(),
                license_to_id: Map::empty(),
                stats: RegistryStats {
                    total_vehicles: 0,
                    active_vehicles: 0,
                    total_sensors: 0,
                    active_sensors: 0,
                    electric_vehicles: 0,
                },
                owner: owner,
                authorized_operators: Map::empty(),
                events: Seq::empty(),
            }),
            stats_consistent(r@),
    {
        let r = VehicleRegistry {
            vehicles: KvMap::new(),
            sensors: KvMap::new(),
            owner_vehicles: ListMap::new(),
            operator_vehicles: ListMap::new(),
            vehicle_sensors: ListMap::new(),
            vin_to_id: KvMap::new(),
            license_to_id: KvMap::new(),
            stats: RegistryStats {
                total_vehicles: 0,
                active_vehicles: 0,
                total_sensors: 0,
                active_sensors: 0,
                electric_vehicles: 0,
            },
            owner,
            authorized_operators: KvMap::new(),
            events: Vec::new(),
        };
        proof {
            assert(seq_view(r.events@) =~= Seq::<VehicleEventView>::empty());
            assert(Map::<Seq<char>, VehicleView>::empty().dom() =~= Set::empty());
            assert(Map::<Seq<char>, SensorView>::empty().dom() =~= Set::empty());
            assert(active_vehicle_ids(r@.vehicles) =~= Set::empty());
            assert(electric_vehicle_ids(r@.vehicles) =~= Set::empty());
            assert(active_sensor_ids(r@.sensors) =~= Set::empty());
        }
        r
    }

    /// Register a vehicle: id, VIN and plate must be fresh and the
    /// required fields non-empty. The caller becomes the owner; the
    /// vehicle starts Active with mileage 0, no operator, no location.
    pub fn register_vehicle(&mut self, ctx: HostContext, registration: VehicleRegistration) -> (r:
        Result<(), String>)
        requires
            old(self).wf(),
        ensures
            final(self).wf(),
            r is Ok <==> register_ok(old(self)@, registration@),
            r is Ok ==> final(self)@ == register_post(
                old(self)@,
                ctx.caller,
                ctx.block_timestamp,
                registration@,
            ),
            r is Err ==> final(self)@ == old(self)@,
            old(self)@.vehicles.contains_key(registration@.vehicle_id) ==> (r matches Err(e) && e@
                == "Vehicle already registered"@),
            !old(self)@.vehicles.contains_key(registration@.vehicle_id) && old(
                self,
            )@.vin_to_id.contains_key(registration@.vin) ==> (r matches Err(e) && e@
                == "VIN already registered"@),
            !old(self)@.vehicles.contains_key(registration@.vehicle_id) && !old(
                self,
            )@.vin_to_id.contains_key(registration@.vin) && old(self)@.license_to_id.contains_key(
                registration@.license_plate,
            ) ==> (r matches Err(e) && e@ == "License plate already registered"@),
            !old(self)@.vehicles.contains_key(registration@.vehicle_id) && !old(
                self,
            )@.vin_to_id.contains_key(registration@.vin) && !old(self)@.license_to_id.contains_key(
                registration@.license_plate,
            ) && (registration@.vehicle_id.len() == 0 || registration@.vin.len() == 0
                || registration@.make.len() == 0) ==> (r matches Err(e) && e@
                == "Invalid vehicle data"@),
            stats_consistent(old(self)@) && old(self)@.vehicles.dom().len() < u32::MAX
                ==> stats_consistent(final(self)@),
    {
        if self.vehicles.contains(&registration.vehicle_id) {
            return Err(String::from_str("Vehicle already registered"));
        }
        if self.vin_to_id.contains(&registration.vin) {
            return Err(String::from_str("VIN already registered"));
        }
        if self.license_to_id.contains(&registration.license_plate) {
            return Err(String::from_str("License plate already registered"));
        }
        if registration.vehicle_id.as_str().is_empty() || registration.vin.as_str().is_empty()
            || registration.make.as_str().is_empty() {
            return Err(String::from_str("Invalid vehicle data"));
        }

        let ghost pre = self@;
        let ghost reg = registration@;
        let caller = ctx.caller;
        let timestamp = ctx.block_timestamp;

        let vehicle = Vehicle {
            id: registration.vehicle_id.clone(),
            did_identifier: registration.did_identifier,
            owner: caller,
            operator: None,
            vin: registration.vin.clone(),
            make: registration.make.clone(),
            model: registration.model.clone(),
            year: registration.year,
            license_plate: registration.license_plate.clone(),
            engine_type: registration.engine_type,
            battery_capacity: registration.battery_capacity,
            status: VehicleStatus::Active,
            registered_at: timestamp,
            last_updated: timestamp,
            mileage: 0,
            location: None,
        };

        proof {
            self.vehicles.lemma_dom();
            self.sensors.lemma_dom();
        }
        self.vehicles.insert(registration.vehicle_id.clone(), vehicle);
        self.vin_to_id.insert(registration.vin.clone(), registration.vehicle_id.clone());
        self.license_to_id.insert(registration.license_plate, registration.vehicle_id.clone());
        self.owner_vehicles.push_value(caller, registration.vehicle_id.clone());

        self.stats.total_vehicles = sat_add32(self.stats.total_vehicles, 1);
        self.stats.active_vehicles = sat_add32(self.stats.active_vehicles, 1);
        if let EngineType::Electric = registration.engine_type {
            self.stats.electric_vehicles = sat_add32(self.stats.electric_vehicles, 1);
        }

        self.events.push(
            VehicleEvent::Registered(
                VehicleRegistered {
                    vehicle_id: registration.vehicle_id,
                    owner: caller,
                    vin: registration.vin,
                    make: registration.make,
                    model: registration.model,
                },
            ),
        );
        proof {
            assert(seq_view(self.events@) =~= pre.events.push(
                VehicleEventView::Registered {
                    vehicle_id: reg.vehicle_id,
                    owner: caller,
                    vin: reg.vin,
                    make: reg.make,
                    model: reg.model,
                },
            ));
            assert(self@ == register_post(pre, caller, timestamp, reg));
            if stats_consistent(pre) && pre.vehicles.dom().len() < u32::MAX {
                lemma_register_preserves_consistency(pre, caller, timestamp, reg);
            }
        }
        Ok(())
    }

    /// Assign an operator: caller must be the vehicle's owner or the
    /// administrator, and the operator must stand in the allow-list. The
    /// vehicle leaves any previous operator's index.
    pub fn assign_operator(&mut self, ctx: HostContext, vehicle_id: String, operator: AccountId)
        -> (r: Result<(), String>)
        requires
            old(self).wf(),
        ensures
            final(self).wf(),
            r is Ok <==> old(self)@.vehicles.contains_key(vehicle_id@) && (old(self)@.vehicles[vehicle_id@].owner
                == ctx.caller || ctx.caller == old(self)@.owner) && operator_allowed(
                old(self)@,
                operator,
            ),
            r is Err ==> final(self)@ == old(self)@,
            !old(self)@.vehicles.contains_key(vehicle_id@) ==> (r matches Err(e) && e@
                == "Vehicle not found"@),
            old(self)@.vehicles.contains_key(vehicle_id@) && old(self)@.vehicles[vehicle_id@].owner
                != ctx.caller && ctx.caller != old(self)@.owner ==> (r matches Err(e) && e@
                == "Unauthorized"@),
            old(self)@.vehicles.contains_key(vehicle_id@) && (old(self)@.vehicles[vehicle_id@].owner
                == ctx.caller || ctx.caller == old(self)@.owner) && !operator_allowed(
                old(self)@,
                operator,
            ) ==> (r matches Err(e) && e@ == "Operator not authorized"@),
            r is Ok ==> final(self)@ == (VehicleRegistryView {
                vehicles: old(self)@.vehicles.insert(
                    vehicle_id@,
                    VehicleView {
                        operator: Some(operator),
                        last_updated: ctx.block_timestamp,
                        ..old(self)@.vehicles[vehicle_id@]
                    },
                ),
                operator_vehicles: (match old(self)@.vehicles[vehicle_id@].operator {
                    Some(old_op) => old(self)@.operator_vehicles.insert(
                        old_op,
                        seq_remove_all(list_at(old(self)@.operator_vehicles, old_op), vehicle_id@),
                    ),
                    None => old(self)@.operator_vehicles,
                }).insert(
                    operator,
                    list_at(
                        (match old(self)@.vehicles[vehicle_id@].operator {
                            Some(old_op) => old(self)@.operator_vehicles.insert(
                                old_op,
                                seq_remove_all(
                                    list_at(old(self)@.operator_vehicles, old_op),
                                    vehicle_id@,
                                ),
                            ),
                            None => old(self)@.operator_vehicles,
                        }),
                        operator,
                    ).push(vehicle_id@),
                ),
                events: old(self)@.events.push(
                    VehicleEventView::OperatorAssigned {
                        vehicle_id: vehicle_id@,
                        operator: operator,
                        assigned_by: ctx.caller,
                    },
                ),
                ..old(self)@
            }),
            stats_consistent(old(self)@) ==> stats_consistent(final(self)@),
    {
        let caller = ctx.caller;
        let veh_opt = self.vehicles.get(&vehicle_id);
        match veh_opt {
            None => Err(String::from_str("Vehicle not found")),
            Some(vehicle) => {
                if vehicle.owner != caller && caller != self.owner {
                    return Err(String::from_str("Unauthorized"));
                }
                let allowed = match self.authorized_operators.get(&operator) {
                    Some(b) => *b,
                    None => false,
                };
                if !allowed {
                    return Err(String::from_str("Operator not authorized"));
                }
                let ghost pre = self@;
                let ghost vid = vehicle_id@;
                let old_operator = vehicle.operator;

                let updated = Vehicle {
                    id: vehicle.id.clone(),
                    did_identifier: vehicle.did_identifier.clone(),
                    owner: vehicle.owner,
                    operator: Some(operator),
                    vin: vehicle.vin.clone(),
                    make: vehicle.make.clone(),
                    model: vehicle.model.clone(),
                    year: vehicle.year,
                    license_plate: vehicle.license_plate.clone(),
                    engine_type: vehicle.engine_type,
                    battery_capacity: vehicle.battery_capacity,
                    status: vehicle.status,
                    registered_at: vehicle.registered_at,
                    last_updated: ctx.block_timestamp,
                    mileage: vehicle.mileage,
                    location: vehicle.location,
                };

                if let Some(old_op) = old_operator {
                    self.operator_vehicles.remove_value(&old_op, &vehicle_id);
                }
                self.vehicles.insert(vehicle_id.clone(), updated);
                self.operator_vehicles.push_value(operator, vehicle_id.clone());
                self.events.push(
                    VehicleEvent::OperatorAssigned(
                        OperatorAssigned { vehicle_id, operator, assigned_by: caller },
                    ),
                );
                proof {
                    assert(seq_view(self.events@) =~= pre.events.push(
                        VehicleEventView::OperatorAssigned {
                            vehicle_id: vid,
                            operator: operator,
                            assigned_by: caller,
                        },
                    ));
                    if stats_consistent(pre) {
                        assert(self@.vehicles.dom() =~= pre.vehicles.dom());
                        assert(active_vehicle_ids(self@.vehicles) =~= active_vehicle_ids(
                            pre.vehicles,
                        ));
                        assert(electric_vehicle_ids(self@.vehicles) =~= electric_vehicle_ids(
                            pre.vehicles,
                        ));
                    }
                }
                Ok(())
            },
        }
    }

    /// Register a sensor: the parent vehicle must exist, the sensor id be
    /// unused, and the caller be the vehicle's owner, its operator, or the
    /// administrator.
    pub fn register_sensor(&mut self, ctx: HostContext, registration: SensorRegistration) -> (r:
        Result<(), String>)
        requires
            old(self).wf(),
        ensures
            final(self).wf(),
            r is Ok <==> old(self)@.vehicles.contains_key(registration@.vehicle_id) && !old(
                self,
            )@.sensors.contains_key(registration@.sensor_id) && vehicle_access(
                old(self)@,
                registration@.vehicle_id,
                ctx.caller,
            ),
            r is Err ==> final(self)@ == old(self)@,
            !old(self)@.vehicles.contains_key(registration@.vehicle_id) ==> (r matches Err(e) && e@
                == "Vehicle not found"@),
            old(self)@.vehicles.contains_key(registration@.vehicle_id) && old(
                self,
            )@.sensors.contains_key(registration@.sensor_id) ==> (r matches Err(e) && e@
                == "Sensor already registered"@),
            old(self)@.vehicles.contains_key(registration@.vehicle_id) && !old(
                self,
            )@.sensors.contains_key(registration@.sensor_id) && !vehicle_access(
                old(self)@,
                registration@.vehicle_id,
                ctx.caller,
            ) ==> (r matches Err(e) && e@ == "Unauthorized"@),
            r is Ok ==> final(self)@ == (VehicleRegistryView {
                sensors: old(self)@.sensors.insert(
                    registration@.sensor_id,
                    SensorView {
                        id: registration@.sensor_id,
                        did_identifier: registration@.did_identifier,
                        vehicle_id: registration@.vehicle_id,
                        sensor_type: registration@.sensor_type,
                        manufacturer: registration@.manufacturer,
                        model: registration@.model,
                        status: SensorStatus::Active,
                        installed_at: ctx.block_timestamp,
                        last_calibrated: ctx.block_timestamp,
                        accuracy: registration@.accuracy,
                    },
                ),
                vehicle_sensors: old(self)@.vehicle_sensors.insert(
                    registration@.vehicle_id,
                    list_at(old(self)@.vehicle_sensors, registration@.vehicle_id).push(
                        registration@.sensor_id,
                    ),
                ),
                stats: RegistryStats {
                    total_sensors: sat_add_u32(old(self)@.stats.total_sensors, 1),
                    active_sensors: sat_add_u32(old(self)@.stats.active_sensors, 1),
                    ..old(self)@.stats
                },
                events: old(self)@.events.push(
                    VehicleEventView::SensorAdded {
                        sensor_id: registration@.sensor_id,
                        vehicle_id: registration@.vehicle_id,
                        sensor_type: registration@.sensor_type,
                        registered_by: ctx.caller,
                    },
                ),
                ..old(self)@
            }),
            stats_consistent(old(self)@) && old(self)@.sensors.dom().len() < u32::MAX
                ==> stats_consistent(final(self)@),
    {
        if !self.vehicles.contains(&registration.vehicle_id) {
            return Err(String::from_str("Vehicle not found"));
        }
        if self.sensors.contains(&registration.sensor_id) {
            return Err(String::from_str("Sensor already registered"));
        }
        let caller = ctx.caller;
        let authorized = match self.vehicles.get(&registration.vehicle_id) {
            Some(vehicle) => {
                vehicle.owner == caller || vehicle.operator == Some(caller) || caller == self.owner
            },
            None => false,
        };
        if !authorized {
            return Err(String::from_str("Unauthorized"));
        }

        let ghost pre = self@;
        let ghost reg = registration@;
        let timestamp = ctx.block_timestamp;

        let sensor = Sensor {
            id: registration.sensor_id.clone(),
            did_identifier: registration.did_identifier,
            vehicle_id: registration.vehicle_id.clone(),
            sensor_type: registration.sensor_type,
            manufacturer: registration.manufacturer,
            model: registration.model,
            status: SensorStatus::Active,
            installed_at: timestamp,
            last_calibrated: timestamp,
            accuracy: registration.accuracy,
        };

        proof {
            self.sensors.lemma_dom();
        }
        self.sensors.insert(registration.sensor_id.clone(), sensor);
        self.vehicle_sensors.push_value(registration.vehicle_id.clone(), registration.sensor_id.clone());
        self.stats.total_sensors = sat_add32(self.stats.total_sensors, 1);
        self.stats.active_sensors = sat_add32(self.stats.active_sensors, 1);
        self.events.push(
            VehicleEvent::SensorAdded(
                SensorRegistered {
                    sensor_id: registration.sensor_id,
                    vehicle_id: registration.vehicle_id,
                    sensor_type: registration.sensor_type,
                    registered_by: caller,
                },
            ),
        );
        proof {
            assert(seq_view(self.events@) =~= pre.events.push(
                VehicleEventView::SensorAdded {
                    sensor_id: reg.sensor_id,
                    vehicle_id: reg.vehicle_id,
                    sensor_type: reg.sensor_type,
                    registered_by: caller,
                },
            ));
            if stats_consistent(pre) && pre.sensors.dom().len() < u32::MAX {
                let k = reg.sensor_id;
                let post_sensors = self@.sensors;
                assert(active_sensor_ids(pre.sensors).subset_of(pre.sensors.dom()));
                vstd::set_lib::lemma_len_subset(active_sensor_ids(pre.sensors), pre.sensors.dom());
                assert(post_sensors.dom() =~= pre.sensors.dom().insert(k));
                assert(active_sensor_ids(post_sensors) =~= active_sensor_ids(pre.sensors).insert(
                    k,
                ));
                assert(!active_sensor_ids(pre.sensors).contains(k));
            }
        }
        Ok(())
    }

    /// Change a vehicle's status. The active counter moves by one exactly
    /// when the transition enters or leaves Active.
    pub fn update_vehicle_status(
        &mut self,
        ctx: HostContext,
        vehicle_id: String,
        new_status: VehicleStatus,
    ) -> (r: Result<(), String>)
        requires
            old(self).wf(),
        ensures
            final(self).wf(),
            r is Ok <==> vehicle_access(old(self)@, vehicle_id@, ctx.caller),
            r is Err ==> final(self)@ == old(self)@,
            !old(self)@.vehicles.contains_key(vehicle_id@) ==> (r matches Err(e) && e@
                == "Vehicle not found"@),
            old(self)@.vehicles.contains_key(vehicle_id@) && !vehicle_access(
                old(self)@,
                vehicle_id@,
                ctx.caller,
            ) ==> (r matches Err(e) && e@ == "Unauthorized"@),
            r is Ok ==> final(self)@ == (VehicleRegistryView {
                vehicles: old(self)@.vehicles.insert(
                    vehicle_id@,
                    VehicleView {
                        status: new_status,
                        last_updated: ctx.block_timestamp,
                        ..old(self)@.vehicles[vehicle_id@]
                    },
                ),
                stats: RegistryStats {
                    active_vehicles: status_delta(
                        old(self)@.stats.active_vehicles,
                        old(self)@.vehicles[vehicle_id@].status,
                        new_status,
                    ),
                    ..old(self)@.stats
                },
                events: old(self)@.events.push(
                    VehicleEventView::StatusChanged {
                        vehicle_id: vehicle_id@,
                        old_status: old(self)@.vehicles[vehicle_id@].status,
                        new_status: new_status,
                        changed_by: ctx.caller,
                    },
                ),
                ..old(self)@
            }),
            stats_consistent(old(self)@) ==> stats_consistent(final(self)@),
    {
        let caller = ctx.caller;
        let veh_opt = self.vehicles.get(&vehicle_id);
        match veh_opt {
            None => Err(String::from_str("Vehicle not found")),
            Some(vehicle) => {
                if vehicle.owner != caller && vehicle.operator != Some(caller) && caller
                    != self.owner {
                    return Err(String::from_str("Unauthorized"));
                }
                let ghost pre = self@;
                let ghost vid = vehicle_id@;
                proof {
                    self.vehicles.lemma_dom();
                }
                let old_status = vehicle.status;

                let updated = Vehicle {
                    id: vehicle.id.clone(),
                    did_identifier: vehicle.did_identifier.clone(),
                    owner: vehicle.owner,
                    operator: vehicle.operator,
                    vin: vehicle.vin.clone(),
                    make: vehicle.make.clone(),
                    model: vehicle.model.clone(),
                    year: vehicle.year,
                    license_plate: vehicle.license_plate.clone(),
                    engine_type: vehicle.engine_type,
                    battery_capacity: vehicle.battery_capacity,
                    status: new_status,
                    registered_at: vehicle.registered_at,
                    last_updated: ctx.block_timestamp,
                    mileage: vehicle.mileage,
                    location: vehicle.location,
                };

                let is_active_old = matches!(old_status, VehicleStatus::Active);
                let is_active_new = matches!(new_status, VehicleStatus::Active);
                if is_active_old && !is_active_new {
                    self.stats.active_vehicles = sat_sub32(self.stats.active_vehicles, 1);
                } else if !is_active_old && is_active_new {
                    self.stats.active_vehicles = sat_add32(self.stats.active_vehicles, 1);
                }

                self.vehicles.insert(vehicle_id.clone(), updated);
                self.events.push(
                    VehicleEvent::StatusChanged(
                        VehicleStatusChanged {
                            vehicle_id,
                            old_status,
                            new_status,
                            changed_by: caller,
                        },
                    ),
                );
                proof {
                    assert(seq_view(self.events@) =~= pre.events.push(
                        VehicleEventView::StatusChanged {
                            vehicle_id: vid,
                            old_status: old_status,
                            new_status: new_status,
                            changed_by: caller,
                        },
                    ));
                    if stats_consistent(pre) {
                        lemma_status_change_consistency(
                            pre.vehicles,
                            self@.vehicles,
                            vid,
                            new_status,
                            ctx.block_timestamp,
                        );
                    }
                }
                Ok(())
            },
        }
    }

    /// Overwrite the stored location unconditionally and notify on every
    /// call.
    pub fn update_location(
        &mut self,
        ctx: HostContext,
        vehicle_id: String,
        latitude: i32,
        longitude: i32,
    ) -> (r: Result<(), String>)
        requires
            old(self).wf(),
        ensures
            final(self).wf(),
            r is Ok <==> vehicle_access(old(self)@, vehicle_id@, ctx.caller),
            r is Err ==> final(self)@ == old(self)@,
            !old(self)@.vehicles.contains_key(vehicle_id@) ==> (r matches Err(e) && e@
                == "Vehicle not found"@),
            old(self)@.vehicles.contains_key(vehicle_id@) && !vehicle_access(
                old(self)@,
                vehicle_id@,
                ctx.caller,
            ) ==> (r matches Err(e) && e@ == "Unauthorized"@),
            r is Ok ==> final(self)@ == (VehicleRegistryView {
                vehicles: old(self)@.vehicles.insert(
                    vehicle_id@,
                    VehicleView {
                        location: Some(
                            Location {
                                latitude: latitude,
                                longitude: longitude,
                                timestamp: ctx.block_timestamp,
                            },
                        ),
                        last_updated: ctx.block_timestamp,
                        ..old(self)@.vehicles[vehicle_id@]
                    },
                ),
                events: old(self)@.events.push(
                    VehicleEventView::LocationUpdated {
                        vehicle_id: vehicle_id@,
                        latitude: latitude,
                        longitude: longitude,
                        timestamp: ctx.block_timestamp,
                    },
                ),
                ..old(self)@
            }),
            stats_consistent(old(self)@) ==> stats_consistent(final(self)@),
    {
        let caller = ctx.caller;
        let veh_opt = self.vehicles.get(&vehicle_id);
        match veh_opt {
            None => Err(String::from_str("Vehicle not found")),
            Some(vehicle) => {
                if vehicle.owner != caller && vehicle.operator != Some(caller) && caller
                    != self.owner {
                    return Err(String::from_str("Unauthorized"));
                }
                let ghost pre = self@;
                let ghost vid = vehicle_id@;
                let timestamp = ctx.block_timestamp;
                let updated = Vehicle {
                    id: vehicle.id.clone(),
                    did_identifier: vehicle.did_identifier.clone(),
                    owner: vehicle.owner,
                    operator: vehicle.operator,
                    vin: vehicle.vin.clone(),
                    make: vehicle.make.clone(),
                    model: vehicle.model.clone(),
                    year: vehicle.year,
                    license_plate: vehicle.license_plate.clone(),
                    engine_type: vehicle.engine_type,
                    battery_capacity: vehicle.battery_capacity,
                    status: vehicle.status,
                    registered_at: vehicle.registered_at,
                    last_updated: timestamp,
                    mileage: vehicle.mileage,
                    location: Some(Location { latitude, longitude, timestamp }),
                };
                self.vehicles.insert(vehicle_id.clone(), updated);
                self.events.push(
                    VehicleEvent::LocationUpdated(
                        LocationUpdated { vehicle_id, latitude, longitude, timestamp },
                    ),
                );
                proof {
                    assert(seq_view(self.events@) =~= pre.events.push(
                        VehicleEventView::LocationUpdated {
                            vehicle_id: vid,
                            latitude: latitude,
                            longitude: longitude,
                            timestamp: timestamp,
                        },
                    ));
                    if stats_consistent(pre) {
                        assert(self@.vehicles.dom() =~= pre.vehicles.dom());
                        assert(active_vehicle_ids(self@.vehicles) =~= active_vehicle_ids(
                            pre.vehicles,
                        ));
                        assert(electric_vehicle_ids(self@.vehicles) =~= electric_vehicle_ids(
                            pre.vehicles,
                        ));
                    }
                }
                Ok(())
            },
        }
    }

    /// Record new mileage; the value is monotonic non-decreasing.
    pub fn update_mileage(&mut self, ctx: HostContext, vehicle_id: String, mileage: u32) -> (r:
        Result<(), String>)
        requires
            old(self).wf(),
        ensures
            final(self).wf(),
            r is Ok <==> vehicle_access(old(self)@, vehicle_id@, ctx.caller) && mileage >= old(
                self,
            )@.vehicles[vehicle_id@].mileage,
            r is Err ==> final(self)@ == old(self)@,
            !old(self)@.vehicles.contains_key(vehicle_id@) ==> (r matches Err(e) && e@
                == "Vehicle not found"@),
            old(self)@.vehicles.contains_key(vehicle_id@) && !vehicle_access(
                old(self)@,
                vehicle_id@,
                ctx.caller,
            ) ==> (r matches Err(e) && e@ == "Unauthorized"@),
            vehicle_access(old(self)@, vehicle_id@, ctx.caller) && mileage < old(
                self,
            )@.vehicles[vehicle_id@].mileage ==> (r matches Err(e) && e@ == "Invalid mileage"@),
            r is Ok ==> final(self)@ == (VehicleRegistryView {
                vehicles: old(self)@.vehicles.insert(
                    vehicle_id@,
                    VehicleView {
                        mileage: mileage,
                        last_updated: ctx.block_timestamp,
                        ..old(self)@.vehicles[vehicle_id@]
                    },
                ),
                ..old(self)@
            }),
            stats_consistent(old(self)@) ==> stats_consistent(final(self)@),
    {
        let caller = ctx.caller;
        let veh_opt = self.vehicles.get(&vehicle_id);
        match veh_opt {
            None => Err(String::from_str("Vehicle not found")),
            Some(vehicle) => {
                if vehicle.owner != caller && vehicle.operator != Some(caller) && caller
                    != self.owner {
                    return Err(String::from_str("Unauthorized"));
                }
                if mileage < vehicle.mileage {
                    return Err(String::from_str("Invalid mileage"));
                }
                let ghost pre = self@;
                let updated = Vehicle {
                    id: vehicle.id.clone(),
                    did_identifier: vehicle.did_identifier.clone(),
                    owner: vehicle.owner,
                    operator: vehicle.operator,
                    vin: vehicle.vin.clone(),
                    make: vehicle.make.clone(),
                    model: vehicle.model.clone(),
                    year: vehicle.year,
                    license_plate: vehicle.license_plate.clone(),
                    engine_type: vehicle.engine_type,
                    battery_capacity: vehicle.battery_capacity,
                    status: vehicle.status,
                    registered_at: vehicle.registered_at,
                    last_updated: ctx.block_timestamp,
                    mileage,
                    location: vehicle.location,
                };
                self.vehicles.insert(vehicle_id, updated);
                proof {
                    if stats_consistent(pre) {
                        assert(self@.vehicles.dom() =~= pre.vehicles.dom());
                        assert(active_vehicle_ids(self@.vehicles) =~= active_vehicle_ids(
                            pre.vehicles,
                        ));
                        assert(electric_vehicle_ids(self@.vehicles) =~= electric_vehicle_ids(
                            pre.vehicles,
                        ));
                    }
                }
                Ok(())
            },
        }
    }

    /// Add `operator` to the allow-list: administrator-only.
    pub fn authorize_operator(&mut self, ctx: HostContext, operator: AccountId) -> (r: Result<
        (),
        String,
    >)
        requires
            old(self).wf(),
        ensures
            final(self).wf(),
            r is Ok <==> ctx.caller == old(self)@.owner,
            r is Err ==> final(self)@ == old(self)@ && (r matches Err(e) && e@ == "Unauthorized"@),
            r is Ok ==> final(self)@ == (VehicleRegistryView {
                authorized_operators: old(self)@.authorized_operators.insert(operator, true),
                ..old(self)@
            }),
            stats_consistent(old(self)@) ==> stats_consistent(final(self)@),
    {
        if ctx.caller != self.owner {
            return Err(String::from_str("Unauthorized"));
        }
        self.authorized_operators.insert(operator, true);
        Ok(())
    }

    /// Remove `operator` from the allow-list: administrator-only. Existing
    /// assignments are kept; deauthorization is not retroactive.
    pub fn deauthorize_operator(&mut self, ctx: HostContext, operator: AccountId) -> (r: Result<
        (),
        String,
    >)
        requires
            old(self).wf(),
        ensures
            final(self).wf(),
            r is Ok <==> ctx.caller == old(self)@.owner,
            r is Err ==> final(self)@ == old(self)@ && (r matches Err(e) && e@ == "Unauthorized"@),
            r is Ok ==> final(self)@ == (VehicleRegistryView {
                authorized_operators: old(self)@.authorized_operators.insert(operator, false),
                ..old(self)@
            }),
            stats_consistent(old(self)@) ==> stats_consistent(final(self)@),
    {
        if ctx.caller != self.owner {
            return Err(String::from_str("Unauthorized"));
        }
        self.authorized_operators.insert(operator, false);
        Ok(())
    }

    pub fn get_vehicle(&self, vehicle_id: &String) -> (r: Option<&Vehicle>)
        requires
            self.wf(),
        ensures
            match r {
                Some(v) => self@.vehicles.contains_key(vehicle_id@) && v@
                    == self@.vehicles[vehicle_id@],
                None => !self@.vehicles.contains_key(vehicle_id@),
            },
    {
        self.vehicles.get(vehicle_id)
    }

    /// Look a vehicle up through the VIN index.
    pub fn get_vehicle_by_vin(&self, vin: &String) -> (r: Option<&Vehicle>)
        requires
            self.wf(),
        ensures
            match r {
                Some(v) => self@.vin_to_id.contains_key(vin@) && self@.vehicles.contains_key(
                    self@.vin_to_id[vin@],
                ) && v@ == self@.vehicles[self@.vin_to_id[vin@]],
                None => !self@.vin_to_id.contains_key(vin@) || !self@.vehicles.contains_key(
                    self@.vin_to_id[vin@],
                ),
            },
    {
        match self.vin_to_id.get(vin) {
            Some(vehicle_id) => self.vehicles.get(vehicle_id),
            None => None,
        }
    }

    /// Look a vehicle up through the license-plate index.
    pub fn get_vehicle_by_license(&self, license_plate: &String) -> (r: Option<&Vehicle>)
        requires
            self.wf(),
        ensures
            match r {
                Some(v) => self@.license_to_id.contains_key(license_plate@)
                    && self@.vehicles.contains_key(self@.license_to_id[license_plate@]) && v@
                    == self@.vehicles[self@.license_to_id[license_plate@]],
                None => !self@.license_to_id.contains_key(license_plate@)
                    || !self@.vehicles.contains_key(self@.license_to_id[license_plate@]),
            },
    {
        match self.license_to_id.get(license_plate) {
            Some(vehicle_id) => self.vehicles.get(vehicle_id),
            None => None,
        }
    }

    pub fn get_sensor(&self, sensor_id: &String) -> (r: Option<&Sensor>)
        requires
            self.wf(),
        ensures
            match r {
                Some(s) => self@.sensors.contains_key(sensor_id@) && s@
                    == self@.sensors[sensor_id@],
                None => !self@.sensors.contains_key(sensor_id@),
            },
    {
        self.sensors.get(sensor_id)
    }

    /// The sensors installed on a vehicle, in installation order.
    pub fn get_vehicle_sensors(&self, vehicle_id: &String) -> (r: Vec<String>)
        requires
            self.wf(),
        ensures
            seq_view(r@) == list_at(self@.vehicle_sensors, vehicle_id@),
    {
        self.vehicle_sensors.values(vehicle_id)
    }

    /// The vehicles registered by `owner`, in registration order.
    pub fn get_owner_vehicles(&self, owner: &AccountId) -> (r: Vec<String>)
        requires
            self.wf(),
        ensures
            seq_view(r@) == list_at(self@.owner_vehicles, *owner),
    {
        self.owner_vehicles.values(owner)
    }

    /// The vehicles currently assigned to `operator`.
    pub fn get_operator_vehicles(&self, operator: &AccountId) -> (r: Vec<String>)
        requires
            self.wf(),
        ensures
            seq_view(r@) == list_at(self@.operator_vehicles, *operator),
    {
        self.operator_vehicles.values(operator)
    }

    pub fn get_stats(&self) -> (r: RegistryStats)
        ensures
            r == self@.stats,
    {
        self.stats
    }

    pub fn is_operator_authorized(&self, operator: &AccountId) -> (r: bool)
        requires
            self.wf(),
        ensures
            r == operator_allowed(self@, *operator),
    {
        match self.authorized_operators.get(operator) {
            Some(b) => *b,
            None => false,
        }
    }

    pub fn is_vehicle_active(&self, vehicle_id: &String) -> (r: bool)
        requires
            self.wf(),
        ensures
            r == (self@.vehicles.contains_key(vehicle_id@) && self@.vehicles[vehicle_id@].status
                == VehicleStatus::Active),
    {
        match self.vehicles.get(vehicle_id) {
            Some(vehicle) => matches!(vehicle.status, VehicleStatus::Active),
            None => false,
        }
    }

    pub fn get_owner(&self) -> (r: AccountId)
        ensures
            r == self@.owner,
    {
        self.owner
    }
}

/// The active counter's movement on a status transition: one step exactly
/// when Active is entered or left.
pub open spec fn status_delta(active: u32, old_status: VehicleStatus, new_status: VehicleStatus) -> u32 {
    if old_status == VehicleStatus::Active && new_status != VehicleStatus::Active {
        sat_sub_u32(active, 1)
    } else if old_status != VehicleStatus::Active && new_status == VehicleStatus::Active {
        sat_add_u32(active, 1)
    } else {
        active
    }
}

/// A successful registration moves every counter it touches by exactly
/// the live count's change.
proof fn lemma_register_preserves_consistency(
    pre: VehicleRegistryView,
    caller: AccountId,
    ts: u64,
    reg: VehicleRegistrationView,
)
    requires
        stats_consistent(pre),
        register_ok(pre, reg),
        pre.vehicles.dom().finite(),
        pre.vehicles.dom().len() < u32::MAX,
    ensures
        stats_consistent(register_post(pre, caller, ts, reg)),
{
    let post = register_post(pre, caller, ts, reg);
    let k = reg.vehicle_id;
    assert(active_vehicle_ids(pre.vehicles).subset_of(pre.vehicles.dom()));
    vstd::set_lib::lemma_len_subset(active_vehicle_ids(pre.vehicles), pre.vehicles.dom());
    assert(electric_vehicle_ids(pre.vehicles).subset_of(pre.vehicles.dom()));
    vstd::set_lib::lemma_len_subset(electric_vehicle_ids(pre.vehicles), pre.vehicles.dom());
    assert(post.vehicles.dom() =~= pre.vehicles.dom().insert(k));
    assert(active_vehicle_ids(post.vehicles) =~= active_vehicle_ids(pre.vehicles).insert(k));
    assert(!active_vehicle_ids(pre.vehicles).contains(k));
    assert(!electric_vehicle_ids(pre.vehicles).contains(k));
    if reg.engine_type == EngineType::Electric {
        assert(electric_vehicle_ids(post.vehicles) =~= electric_vehicle_ids(pre.vehicles).insert(
            k,
        ));
    } else {
        assert(electric_vehicle_ids(post.vehicles) =~= electric_vehicle_ids(pre.vehicles));
    }
}

/// A status change moves the active-vehicle count exactly as the delta
/// rule says; the other counts are untouched.
proof fn lemma_status_change_consistency(
    pre: Map<Seq<char>, VehicleView>,
    post: Map<Seq<char>, VehicleView>,
    vid: Seq<char>,
    new_status: VehicleStatus,
    ts: u64,
)
    requires
        pre.contains_key(vid),
        pre.dom().finite(),
        post == pre.insert(
            vid,
            VehicleView { status: new_status, last_updated: ts, ..pre[vid] },
        ),
    ensures
        post.dom() == pre.dom(),
        electric_vehicle_ids(post) == electric_vehicle_ids(pre),
        active_vehicle_ids(pre).len() <= pre.dom().len(),
        active_vehicle_ids(post).len() <= pre.dom().len(),
        pre[vid].status == VehicleStatus::Active && new_status != VehicleStatus::Active
            ==> active_vehicle_ids(pre).len() >= 1 && active_vehicle_ids(post).len()
            == active_vehicle_ids(pre).len() - 1,
        pre[vid].status != VehicleStatus::Active && new_status == VehicleStatus::Active
            ==> active_vehicle_ids(post).len() == active_vehicle_ids(pre).len() + 1,
        (pre[vid].status == VehicleStatus::Active) == (new_status == VehicleStatus::Active)
            ==> active_vehicle_ids(post).len() == active_vehicle_ids(pre).len(),
{
    assert(post.dom() =~= pre.dom());
    assert(electric_vehicle_ids(post) =~= electric_vehicle_ids(pre));
    assert(active_vehicle_ids(pre).subset_of(pre.dom()));
    vstd::set_lib::lemma_len_subset(active_vehicle_ids(pre), pre.dom());
    assert(active_vehicle_ids(post).subset_of(pre.dom()));
    vstd::set_lib::lemma_len_subset(active_vehicle_ids(post), pre.dom());
    let was_active = pre[vid].status == VehicleStatus::Active;
    let now_active = new_status == VehicleStatus::Active;
    if was_active && !now_active {
        assert(active_vehicle_ids(post) =~= active_vehicle_ids(pre).remove(vid));
        assert(active_vehicle_ids(pre).contains(vid));
    } else if !was_active && now_active {
        assert(active_vehicle_ids(post) =~= active_vehicle_ids(pre).insert(vid));
        assert(!active_vehicle_ids(pre).contains(vid));
    } else {
        assert(active_vehicle_ids(post) =~= active_vehicle_ids(pre));
    }
}

/// Registering a second vehicle with a VIN already in use fails, whatever
/// its other fields.
pub proof fn lemma_vin_uniqueness(
    pre: VehicleRegistryView,
    caller: AccountId,
    ts: u64,
    reg1: VehicleRegistrationView,
    reg2: VehicleRegistrationView,
)
    requires
        register_ok(pre, reg1),
        reg2.vin == reg1.vin,
    ensures
        !register_ok(register_post(pre, caller, ts, reg1), reg2),
{
}

/// Deauthorizing an operator does not remove it from vehicles already
/// assigned to it, nor from its assignment index.
pub proof fn lemma_deauthorize_keeps_assignments(
    pre: VehicleRegistryView,
    post: VehicleRegistryView,
    op: AccountId,
    vid: Seq<char>,
)
    requires
        post == (VehicleRegistryView {
            authorized_operators: pre.authorized_operators.insert(op, false),
            ..pre
        }),
        pre.vehicles.contains_key(vid),
        pre.vehicles[vid].operator == Some(op),
    ensures
        post.vehicles.contains_key(vid),
        post.vehicles[vid].operator == Some(op),
        list_at(post.operator_vehicles, op) == list_at(pre.operator_vehicles, op),
        !operator_allowed(post, op),
{
}

} // verus!
