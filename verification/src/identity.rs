//! The identity registry: decentralized identifiers for vehicles and
//! sensors, their type metadata, and delegated authorization.
//!
//! Every identifier is globally unique and immutable once created; an
//! Active identity can be updated by its controller or a delegate, and
//! moves only to Revoked. Each mutating operation takes the host context
//! explicitly and appends the notifications it emits to the registry's
//! event log.

use vstd::prelude::*;
use vstd::string::StrSliceExecFns;
use vstd::string::StringExecFns;

use crate::arith::{sat_add32, sat_add_u32};
use crate::host::{AccountId, HostContext};
use crate::kv::KvMap;
use crate::multimap::{list_at, seq_remove_all, seq_view, ListMap};

verus! {

#[derive(Clone, Copy, PartialEq, Eq, Debug, Structural)]
pub enum DidStatus {
    Active,
    Revoked,
    Suspended,
}

#[derive(Clone, Copy, PartialEq, Eq, Debug, Structural)]
pub enum EntityType {
    Vehicle,
    Sensor,
    User,
    Service,
}

#[derive(Clone, Copy, PartialEq, Eq, Debug, Structural)]
pub enum EngineType {
    Electric,
    Hybrid,
    Gasoline,
    Diesel,
}

/// A DID document: controller, key material, endpoint, lifecycle.
pub struct DidDocument {
    pub id: String,
    pub controller: AccountId,
    pub public_key: [u8; 32],
    pub service_endpoint: String,
    pub created: u64,
    pub updated: u64,
    pub status: DidStatus,
    pub entity_type: EntityType,
}

pub ghost struct DidDocumentView {
    pub id: Seq<char>,
    pub controller: AccountId,
    pub public_key: Seq<u8>,
    pub service_endpoint: Seq<char>,
    pub created: u64,
    pub updated: u64,
    pub status: DidStatus,
    pub entity_type: EntityType,
}

impl View for DidDocument {
    type V = DidDocumentView;

    open spec fn view(&self) -> DidDocumentView {
        DidDocumentView {
            id: self.id@,
            controller: self.controller,
            public_key: self.public_key@,
            service_endpoint: self.service_endpoint@,
            created: self.created,
            updated: self.updated,
            status: self.status,
            entity_type: self.entity_type,
        }
    }
}

/// Vehicle-typed metadata attached to a vehicle identity.
pub struct VehicleMetadata {
    pub vin: String,
    pub make: String,
    pub model: String,
    pub year: u16,
    pub license_plate: String,
    pub engine_type: EngineType,
}

pub ghost struct VehicleMetadataView {
    pub vin: Seq<char>,
    pub make: Seq<char>,
    pub model: Seq<char>,
    pub year: u16,
    pub license_plate: Seq<char>,
    pub engine_type: EngineType,
}

impl View for VehicleMetadata {
    type V = VehicleMetadataView;

    open spec fn view(&self) -> VehicleMetadataView {
        VehicleMetadataView {
            vin: self.vin@,
            make: self.make@,
            model: self.model@,
            year: self.year,
            license_plate: self.license_plate@,
            engine_type: self.engine_type,
        }
    }
}

/// Sensor-typed metadata attached to a sensor identity.
pub struct SensorMetadata {
    pub sensor_type: String,
    pub manufacturer: String,
    pub model: String,
    pub accuracy: String,
    pub parent_vehicle_did: Option<String>,
}

pub ghost struct SensorMetadataView {
    pub sensor_type: Seq<char>,
    pub manufacturer: Seq<char>,
    pub model: Seq<char>,
    pub accuracy: Seq<char>,
    pub parent_vehicle_did: Option<Seq<char>>,
}

impl View for SensorMetadata {
    type V = SensorMetadataView;

    open spec fn view(&self) -> SensorMetadataView {
        SensorMetadataView {
            sensor_type: self.sensor_type@,
            manufacturer: self.manufacturer@,
            model: self.model@,
            accuracy: self.accuracy@,
            parent_vehicle_did: match self.parent_vehicle_did {
                Some(p) => Some(p@),
                None => None,
            },
        }
    }
}

/// Notification: an identity was created.
pub struct DidCreated {
    pub did: String,
    pub controller: AccountId,
    pub entity_type: EntityType,
}

/// Notification: an identity's key or endpoint was updated.
pub struct DidUpdated {
    pub did: String,
    pub controller: AccountId,
}

/// Notification: an identity was revoked, with the stated reason.
pub struct DidRevoked {
    pub did: String,
    pub controller: AccountId,
    pub reason: String,
}

/// Notification: an account was granted delegated authorization.
pub struct AuthorizationGranted {
    pub did: String,
    pub authorized_account: AccountId,
    pub grantor: AccountId,
}

/// One entry of the identity registry's event log.
pub enum DidEvent {
    Created(DidCreated),
    Updated(DidUpdated),
    Revoked(DidRevoked),
    Granted(AuthorizationGranted),
}

pub ghost enum DidEventView {
    Created { did: Seq<char>, controller: AccountId, entity_type: EntityType },
    Updated { did: Seq<char>, controller: AccountId },
    Revoked { did: Seq<char>, controller: AccountId, reason: Seq<char> },
    Granted { did: Seq<char>, authorized_account: AccountId, grantor: AccountId },
}

impl View for DidEvent {
    type V = DidEventView;

    open spec fn view(&self) -> DidEventView {
        match self {
            DidEvent::Created(e) => DidEventView::Created {
                did: e.did@,
                controller: e.controller,
                entity_type: e.entity_type,
            },
            DidEvent::Updated(e) => DidEventView::Updated { did: e.did@, controller: e.controller },
            DidEvent::Revoked(e) => DidEventView::Revoked {
                did: e.did@,
                controller: e.controller,
                reason: e.reason@,
            },
            DidEvent::Granted(e) => DidEventView::Granted {
                did: e.did@,
                authorized_account: e.authorized_account,
                grantor: e.grantor,
            },
        }
    }
}

/// A DID must carry the required prefix scheme and be longer than it.
pub open spec fn valid_did(s: Seq<char>) -> bool {
    s.len() > 9 && s.subrange(0, 9) == "did:peaq:"@
}

/// The identity registry's whole state, mathematically.
pub ghost struct DidRegistryView {
    pub dids: Map<Seq<char>, DidDocumentView>,
    pub vehicle_metadata: Map<Seq<char>, VehicleMetadataView>,
    pub sensor_metadata: Map<Seq<char>, SensorMetadataView>,
    pub owner_dids: Map<AccountId, Seq<Seq<char>>>,
    pub authorizations: Map<Seq<char>, Seq<AccountId>>,
    pub owner: AccountId,
    pub total_dids: u32,
    pub events: Seq<DidEventView>,
}

/// `account` may act on `id`: it is the controller or holds a delegation.
pub open spec fn did_access(v: DidRegistryView, id: Seq<char>, account: AccountId) -> bool {
    v.dids.contains_key(id) && (v.dids[id].controller == account || list_at(
        v.authorizations,
        id,
    ).contains(account))
}

/// The identity registry.
pub struct DidRegistry {
    dids: KvMap<String, DidDocument>,
    vehicle_metadata: KvMap<String, VehicleMetadata>,
    sensor_metadata: KvMap<String, SensorMetadata>,
    owner_dids: ListMap<AccountId, String>,
    authorizations: ListMap<String, AccountId>,
    owner: AccountId,
    total_dids: u32,
    events: Vec<DidEvent>,
}

impl View for DidRegistry {
    type V = DidRegistryView;

    closed spec fn view(&self) -> DidRegistryView {
        DidRegistryView {
            dids: self.dids@,
            vehicle_metadata: self.vehicle_metadata@,
            sensor_metadata: self.sensor_metadata@,
            owner_dids: self.owner_dids@,
            authorizations: self.authorizations@,
            owner: self.owner,
            total_dids: self.total_dids,
            events: seq_view(self.events@),
        }
    }
}

impl DidRegistry {
    pub closed spec fn wf(self) -> bool {
        &&& self.dids.wf()
        &&& self.vehicle_metadata.wf()
        &&& self.sensor_metadata.wf()
        &&& self.owner_dids.wf()
        &&& self.authorizations.wf()
    }

    /// A fresh registry administered by `owner` (on the ledger, the
    /// deployer).
    pub fn new(owner: AccountId) -> (r: Self)
        ensures
            r.wf(),
            r@ == (DidRegistryView {
                dids: Map::empty(),
                vehicle_metadata: Map::empty(),
                sensor_metadata: Map::empty(),
                owner_dids: Map::empty(),
                authorizations: Map::empty(),
                owner: owner,
                total_dids: 0,
                events: Seq::empty(),
            }),
    {
        let r = DidRegistry {
            dids: KvMap::new(),
            vehicle_metadata: KvMap::new(),
            sensor_metadata: KvMap::new(),
            owner_dids: ListMap::new(),
            authorizations: ListMap::new(),
            owner,
            total_dids: 0,
            events: Vec::new(),
        };
        proof {
            assert(seq_view(r.events@) =~= Seq::<DidEventView>::empty());
        }
        r
    }

    /// Register a vehicle identity: the id must carry the required prefix
    /// and be unused; the caller becomes its controller.
    pub fn create_vehicle_did(
        &mut self,
        ctx: HostContext,
        did_id: String,
        public_key: [u8; 32],
        service_endpoint: String,
        metadata: VehicleMetadata,
    ) -> (r: Result<(), String>)
        requires
            old(self).wf(),
        ensures
            final(self).wf(),
            r is Ok <==> valid_did(did_id@) && !old(self)@.dids.contains_key(did_id@),
            !valid_did(did_id@) ==> final(self)@ == old(self)@ && (r matches Err(e) && e@
                == "Invalid DID format"@),
            valid_did(did_id@) && old(self)@.dids.contains_key(did_id@) ==> final(self)@
                == old(self)@ && (r matches Err(e) && e@ == "DID already exists"@),
            r is Ok ==> final(self)@ == (DidRegistryView {
                dids: old(self)@.dids.insert(
                    did_id@,
                    DidDocumentView {
                        id: did_id@,
                        controller: ctx.caller,
                        public_key: public_key@,
                        service_endpoint: service_endpoint@,
                        created: ctx.block_timestamp,
                        updated: ctx.block_timestamp,
                        status: DidStatus::Active,
                        entity_type: EntityType::Vehicle,
                    },
                ),
                vehicle_metadata: old(self)@.vehicle_metadata.insert(did_id@, metadata@),
                owner_dids: old(self)@.owner_dids.insert(
                    ctx.caller,
                    list_at(old(self)@.owner_dids, ctx.caller).push(did_id@),
                ),
                total_dids: sat_add_u32(old(self)@.total_dids, 1),
                events: old(self)@.events.push(
                    DidEventView::Created {
                        did: did_id@,
                        controller: ctx.caller,
                        entity_type: EntityType::Vehicle,
                    },
                ),
                ..old(self)@
            }),
    {
        if !is_valid_did_format(&did_id) {
            return Err(String::from_str("Invalid DID format"));
        }
        if self.dids.contains(&did_id) {
            return Err(String::from_str("DID already exists"));
        }
        let ghost pre = self@;
        let caller = ctx.caller;
        let timestamp = ctx.block_timestamp;

        let did_doc = DidDocument {
            id: did_id.clone(),
            controller: caller,
            public_key,
            service_endpoint,
            created: timestamp,
            updated: timestamp,
            status: DidStatus::Active,
            entity_type: EntityType::Vehicle,
        };

        self.dids.insert(did_id.clone(), did_doc);
        self.vehicle_metadata.insert(did_id.clone(), metadata);
        self.owner_dids.push_value(caller, did_id.clone());
        self.total_dids = sat_add32(self.total_dids, 1);
        self.events.push(
            DidEvent::Created(
                DidCreated { did: did_id, controller: caller, entity_type: EntityType::Vehicle },
            ),
        );
        proof {
            assert(seq_view(self.events@) =~= pre.events.push(
                DidEventView::Created {
                    did: did_id@,
                    controller: caller,
                    entity_type: EntityType::Vehicle,
                },
            ));
        }
        Ok(())
    }

    /// Register a sensor identity; a declared parent vehicle DID must
    /// already exist (its status is not checked).
    pub fn create_sensor_did(
        &mut self,
        ctx: HostContext,
        did_id: String,
        public_key: [u8; 32],
        service_endpoint: String,
        metadata: SensorMetadata,
    ) -> (r: Result<(), String>)
        requires
            old(self).wf(),
        ensures
            final(self).wf(),
            r is Ok <==> valid_did(did_id@) && !old(self)@.dids.contains_key(did_id@) && (match
                metadata@.parent_vehicle_did {
                Some(p) => old(self)@.dids.contains_key(p),
                None => true,
            }),
            !valid_did(did_id@) ==> final(self)@ == old(self)@ && (r matches Err(e) && e@
                == "Invalid DID format"@),
            valid_did(did_id@) && old(self)@.dids.contains_key(did_id@) ==> final(self)@
                == old(self)@ && (r matches Err(e) && e@ == "DID already exists"@),
            valid_did(did_id@) && !old(self)@.dids.contains_key(did_id@) && (metadata@.parent_vehicle_did
                matches Some(p) && !old(self)@.dids.contains_key(p)) ==> final(self)@ == old(self)@
                && (r matches Err(e) && e@ == "Parent vehicle DID not found"@),
            r is Ok ==> final(self)@ == (DidRegistryView {
                dids: old(self)@.dids.insert(
                    did_id@,
                    DidDocumentView {
                        id: did_id@,
                        controller: ctx.caller,
                        public_key: public_key@,
                        service_endpoint: service_endpoint@,
                        created: ctx.block_timestamp,
                        updated: ctx.block_timestamp,
                        status: DidStatus::Active,
                        entity_type: EntityType::Sensor,
                    },
                ),
                sensor_metadata: old(self)@.sensor_metadata.insert(did_id@, metadata@),
                owner_dids: old(self)@.owner_dids.insert(
                    ctx.caller,
                    list_at(old(self)@.owner_dids, ctx.caller).push(did_id@),
                ),
                total_dids: sat_add_u32(old(self)@.total_dids, 1),
                events: old(self)@.events.push(
                    DidEventView::Created {
                        did: did_id@,
                        controller: ctx.caller,
                        entity_type: EntityType::Sensor,
                    },
                ),
                ..old(self)@
            }),
    {
        if !is_valid_did_format(&did_id) {
            return Err(String::from_str("Invalid DID format"));
        }
        if self.dids.contains(&did_id) {
            return Err(String::from_str("DID already exists"));
        }
        match &metadata.parent_vehicle_did {
            Some(parent_did) => {
                if !self.dids.contains(parent_did) {
                    return Err(String::from_str("Parent vehicle DID not found"));
                }
            },
            None => {},
        }
        let ghost pre = self@;
        let caller = ctx.caller;
        let timestamp = ctx.block_timestamp;

        let did_doc = DidDocument {
            id: did_id.clone(),
            controller: caller,
            public_key,
            service_endpoint,
            created: timestamp,
            updated: timestamp,
            status: DidStatus::Active,
            entity_type: EntityType::Sensor,
        };

        self.dids.insert(did_id.clone(), did_doc);
        self.sensor_metadata.insert(did_id.clone(), metadata);
        self.owner_dids.push_value(caller, did_id.clone());
        self.total_dids = sat_add32(self.total_dids, 1);
        self.events.push(
            DidEvent::Created(
                DidCreated { did: did_id, controller: caller, entity_type: EntityType::Sensor },
            ),
        );
        proof {
            assert(seq_view(self.events@) =~= pre.events.push(
                DidEventView::Created {
                    did: did_id@,
                    controller: caller,
                    entity_type: EntityType::Sensor,
                },
            ));
        }
        Ok(())
    }

    /// Update key material and endpoint: caller must be the controller or
    /// a delegate, and the identity must be Active.
    pub fn update_did(
        &mut self,
        ctx: HostContext,
        did_id: String,
        public_key: [u8; 32],
        service_endpoint: String,
    ) -> (r: Result<(), String>)
        requires
            old(self).wf(),
        ensures
            final(self).wf(),
            r is Ok <==> did_access(old(self)@, did_id@, ctx.caller) && old(self)@.dids[did_id@].status
                == DidStatus::Active,
            !old(self)@.dids.contains_key(did_id@) ==> final(self)@ == old(self)@ && (r matches Err(e)
                && e@ == "DID not found"@),
            old(self)@.dids.contains_key(did_id@) && !did_access(old(self)@, did_id@, ctx.caller)
                ==> final(self)@ == old(self)@ && (r matches Err(e) && e@ == "Unauthorized"@),
            did_access(old(self)@, did_id@, ctx.caller) && old(self)@.dids[did_id@].status
                != DidStatus::Active ==> final(self)@ == old(self)@ && (r matches Err(e) && e@
                == "DID not active"@),
            r is Ok ==> final(self)@ == (DidRegistryView {
                dids: old(self)@.dids.insert(
                    did_id@,
                    DidDocumentView {
                        public_key: public_key@,
                        service_endpoint: service_endpoint@,
                        updated: ctx.block_timestamp,
                        ..old(self)@.dids[did_id@]
                    },
                ),
                events: old(self)@.events.push(
                    DidEventView::Updated { did: did_id@, controller: ctx.caller },
                ),
                ..old(self)@
            }),
    {
        let caller = ctx.caller;
        let doc_opt = self.dids.get(&did_id);
        match doc_opt {
            None => Err(String::from_str("DID not found")),
            Some(did_doc) => {
                let controller = did_doc.controller;
                let status = did_doc.status;
                let created = did_doc.created;
                let entity_type = did_doc.entity_type;
                let id_copy = did_doc.id.clone();
                if controller != caller && !self.is_authorized(&did_id, &caller) {
                    return Err(String::from_str("Unauthorized"));
                }
                if status != DidStatus::Active {
                    return Err(String::from_str("DID not active"));
                }
                let ghost pre = self@;
                let updated_doc = DidDocument {
                    id: id_copy,
                    controller,
                    public_key,
                    service_endpoint,
                    created,
                    updated: ctx.block_timestamp,
                    status,
                    entity_type,
                };
                self.dids.insert(did_id.clone(), updated_doc);
                self.events.push(
                    DidEvent::Updated(DidUpdated { did: did_id, controller: caller }),
                );
                proof {
                    assert(seq_view(self.events@) =~= pre.events.push(
                        DidEventView::Updated { did: did_id@, controller: caller },
                    ));
                    assert(self@.dids =~= pre.dids.insert(
                        did_id@,
                        DidDocumentView {
                            public_key: public_key@,
                            service_endpoint: service_endpoint@,
                            updated: ctx.block_timestamp,
                            ..pre.dids[did_id@]
                        },
                    ));
                }
                Ok(())
            },
        }
    }

    /// Revoke an identity: caller must be the controller or the registry
    /// administrator. Repeat revocations by an authorized caller are
    /// accepted.
    pub fn revoke_did(&mut self, ctx: HostContext, did_id: String, reason: String) -> (r: Result<
        (),
        String,
    >)
        requires
            old(self).wf(),
        ensures
            final(self).wf(),
            r is Ok <==> old(self)@.dids.contains_key(did_id@) && (old(self)@.dids[did_id@].controller
                == ctx.caller || ctx.caller == old(self)@.owner),
            !old(self)@.dids.contains_key(did_id@) ==> final(self)@ == old(self)@ && (r matches Err(e)
                && e@ == "DID not found"@),
            old(self)@.dids.contains_key(did_id@) && old(self)@.dids[did_id@].controller != ctx.caller
                && ctx.caller != old(self)@.owner ==> final(self)@ == old(self)@ && (r matches Err(e)
                && e@ == "Unauthorized"@),
            r is Ok ==> final(self)@ == (DidRegistryView {
                dids: old(self)@.dids.insert(
                    did_id@,
                    DidDocumentView {
                        status: DidStatus::Revoked,
                        updated: ctx.block_timestamp,
                        ..old(self)@.dids[did_id@]
                    },
                ),
                events: old(self)@.events.push(
                    DidEventView::Revoked {
                        did: did_id@,
                        controller: ctx.caller,
                        reason: reason@,
                    },
                ),
                ..old(self)@
            }),
    {
        let caller = ctx.caller;
        let doc_opt = self.dids.get(&did_id);
        match doc_opt {
            None => Err(String::from_str("DID not found")),
            Some(did_doc) => {
                let controller = did_doc.controller;
                if controller != caller && caller != self.owner {
                    return Err(String::from_str("Unauthorized"));
                }
                let ghost pre = self@;
                let updated_doc = DidDocument {
                    id: did_doc.id.clone(),
                    controller,
                    public_key: did_doc.public_key,
                    service_endpoint: did_doc.service_endpoint.clone(),
                    created: did_doc.created,
                    updated: ctx.block_timestamp,
                    status: DidStatus::Revoked,
                    entity_type: did_doc.entity_type,
                };
                self.dids.insert(did_id.clone(), updated_doc);
                self.events.push(
                    DidEvent::Revoked(DidRevoked { did: did_id, controller: caller, reason }),
                );
                proof {
                    assert(seq_view(self.events@) =~= pre.events.push(
                        self.events@.last()@,
                    ));
                }
                Ok(())
            },
        }
    }

    /// Grant delegated authorization on `did_id` to `account`:
    /// controller-only, idempotent (set semantics).
    pub fn grant_authorization(&mut self, ctx: HostContext, did_id: String, account: AccountId)
        -> (r: Result<(), String>)
        requires
            old(self).wf(),
        ensures
            final(self).wf(),
            r is Ok <==> old(self)@.dids.contains_key(did_id@) && old(self)@.dids[did_id@].controller
                == ctx.caller,
            !old(self)@.dids.contains_key(did_id@) ==> final(self)@ == old(self)@ && (r matches Err(e)
                && e@ == "DID not found"@),
            old(self)@.dids.contains_key(did_id@) && old(self)@.dids[did_id@].controller != ctx.caller
                ==> final(self)@ == old(self)@ && (r matches Err(e) && e@ == "Unauthorized"@),
            r is Ok && list_at(old(self)@.authorizations, did_id@).contains(account) ==> final(self)@
                == old(self)@,
            r is Ok && !list_at(old(self)@.authorizations, did_id@).contains(account)
                ==> final(self)@ == (DidRegistryView {
                authorizations: old(self)@.authorizations.insert(
                    did_id@,
                    list_at(old(self)@.authorizations, did_id@).push(account),
                ),
                events: old(self)@.events.push(
                    DidEventView::Granted {
                        did: did_id@,
                        authorized_account: account,
                        grantor: ctx.caller,
                    },
                ),
                ..old(self)@
            }),
    {
        let caller = ctx.caller;
        let doc_opt = self.dids.get(&did_id);
        match doc_opt {
            None => Err(String::from_str("DID not found")),
            Some(did_doc) => {
                if did_doc.controller != caller {
                    return Err(String::from_str("Unauthorized"));
                }
                let ghost pre = self@;
                let ghost didv = did_id@;
                if !self.authorizations.contains_value(&did_id, &account) {
                    self.authorizations.push_value(did_id.clone(), account);
                    self.events.push(
                        DidEvent::Granted(
                            AuthorizationGranted {
                                did: did_id,
                                authorized_account: account,
                                grantor: caller,
                            },
                        ),
                    );
                    proof {
                        assert(seq_view(self.events@) =~= pre.events.push(
                            DidEventView::Granted {
                                did: didv,
                                authorized_account: account,
                                grantor: caller,
                            },
                        ));
                    }
                }
                Ok(())
            },
        }
    }

    /// Withdraw delegated authorization: controller-only, a no-op when the
    /// delegation is absent.
    pub fn revoke_authorization(&mut self, ctx: HostContext, did_id: String, account: AccountId)
        -> (r: Result<(), String>)
        requires
            old(self).wf(),
        ensures
            final(self).wf(),
            r is Ok <==> old(self)@.dids.contains_key(did_id@) && old(self)@.dids[did_id@].controller
                == ctx.caller,
            !old(self)@.dids.contains_key(did_id@) ==> final(self)@ == old(self)@ && (r matches Err(e)
                && e@ == "DID not found"@),
            old(self)@.dids.contains_key(did_id@) && old(self)@.dids[did_id@].controller != ctx.caller
                ==> final(self)@ == old(self)@ && (r matches Err(e) && e@ == "Unauthorized"@),
            r is Ok ==> final(self)@ == (DidRegistryView {
                authorizations: old(self)@.authorizations.insert(
                    did_id@,
                    seq_remove_all(list_at(old(self)@.authorizations, did_id@), account),
                ),
                ..old(self)@
            }),
    {
        let caller = ctx.caller;
        let doc_opt = self.dids.get(&did_id);
        match doc_opt {
            None => Err(String::from_str("DID not found")),
            Some(did_doc) => {
                if did_doc.controller != caller {
                    return Err(String::from_str("Unauthorized"));
                }
                self.authorizations.remove_value(&did_id, &account);
                Ok(())
            },
        }
    }

    pub fn get_did(&self, did_id: &String) -> (r: Option<&DidDocument>)
        requires
            self.wf(),
        ensures
            match r {
                Some(d) => self@.dids.contains_key(did_id@) && d@ == self@.dids[did_id@],
                None => !self@.dids.contains_key(did_id@),
            },
    {
        self.dids.get(did_id)
    }

    pub fn get_vehicle_metadata(&self, did_id: &String) -> (r: Option<&VehicleMetadata>)
        requires
            self.wf(),
        ensures
            match r {
                Some(m) => self@.vehicle_metadata.contains_key(did_id@) && m@
                    == self@.vehicle_metadata[did_id@],
                None => !self@.vehicle_metadata.contains_key(did_id@),
            },
    {
        self.vehicle_metadata.get(did_id)
    }

    pub fn get_sensor_metadata(&self, did_id: &String) -> (r: Option<&SensorMetadata>)
        requires
            self.wf(),
        ensures
            match r {
                Some(m) => self@.sensor_metadata.contains_key(did_id@) && m@
                    == self@.sensor_metadata[did_id@],
                None => !self@.sensor_metadata.contains_key(did_id@),
            },
    {
        self.sensor_metadata.get(did_id)
    }

    /// The ids controlled by `owner`, in insertion order.
    pub fn get_owner_dids(&self, owner: &AccountId) -> (r: Vec<String>)
        requires
            self.wf(),
        ensures
            seq_view(r@) == list_at(self@.owner_dids, *owner),
    {
        self.owner_dids.values(owner)
    }

    pub fn get_total_dids(&self) -> (r: u32)
        ensures
            r == self@.total_dids,
    {
        self.total_dids
    }

    /// True iff `account` is the id's controller or holds a delegation.
    pub fn verify_access(&self, did_id: &String, account: &AccountId) -> (r: bool)
        requires
            self.wf(),
        ensures
            r == did_access(self@, did_id@, *account),
    {
        match self.dids.get(did_id) {
            Some(did_doc) => {
                did_doc.controller == *account || self.is_authorized(did_id, account)
            },
            None => false,
        }
    }

    pub fn is_did_active(&self, did_id: &String) -> (r: bool)
        requires
            self.wf(),
        ensures
            r == (self@.dids.contains_key(did_id@) && self@.dids[did_id@].status
                == DidStatus::Active),
    {
        match self.dids.get(did_id) {
            Some(did_doc) => did_doc.status == DidStatus::Active,
            None => false,
        }
    }

    /// The accounts holding a delegation on `did_id`.
    pub fn get_authorizations(&self, did_id: &String) -> (r: Vec<AccountId>)
        requires
            self.wf(),
        ensures
            seq_view(r@) == list_at(self@.authorizations, did_id@),
    {
        self.authorizations.values(did_id)
    }

    fn is_authorized(&self, did_id: &String, account: &AccountId) -> (r: bool)
        requires
            self.wf(),
        ensures
            r == list_at(self@.authorizations, did_id@).contains(*account),
    {
        self.authorizations.contains_value(did_id, account)
    }
}

/// The required prefix scheme, checked character by character.
fn is_valid_did_format(did_id: &String) -> (r: bool)
    ensures
        r == valid_did(did_id@),
{
    let n = did_id.as_str().unicode_len();
    if n <= 9 {
        return false;
    }
    let prefix = "did:peaq:";
    proof {
        reveal_strlit("did:peaq:");
    }
    let mut i: usize = 0;
    while i < 9
        invariant
            did_id@.len() > 9,
            0 <= i <= 9,
            prefix@ == "did:peaq:"@,
            forall|j: int| 0 <= j < i ==> did_id@[j] == "did:peaq:"@[j],
        decreases 9 - i,
    {
        proof {
            reveal_strlit("did:peaq:");
        }
        if did_id.as_str().get_char(i) != prefix.get_char(i) {
            proof {
                if did_id@.subrange(0, 9) == "did:peaq:"@ {
                    assert(did_id@.subrange(0, 9)[i as int] == "did:peaq:"@[i as int]);
                }
            }
            return false;
        }
        i = i + 1;
    }
    proof {
        assert(did_id@.subrange(0, 9) =~= "did:peaq:"@);
    }
    true
}

} // verus!
