//! The telemetry processor: quality-gated, deduplicated ingestion of
//! sensor records, idempotent batch ingestion with anomaly flagging, and
//! incrementally maintained running statistics.
//!
//! Record ids are derived deterministically from the record's identifying
//! fields and the current block, so replays within one block are rejected
//! as duplicates. All statistics use saturating integer arithmetic.

use vstd::prelude::*;
use vstd::string::StringExecFns;

use crate::arith::{
    sat_add16, sat_add32, sat_add64, sat_add_u16, sat_add_u32, sat_add_u64, sat_mul32, sat_mul64,
    sat_mul_u32, sat_mul_u64, sat_sub64, sat_sub_u64,
};
use crate::hashing::{batch_item_digest, derive_batch_record_id, derive_record_id, record_digest};
use crate::host::{AccountId, HostContext};
use crate::kv::KvMap;
use crate::multimap::seq_view;

verus! {

/// Running totals over all accepted records.
#[derive(Clone, Copy, PartialEq, Eq, Debug, Structural)]
pub struct ProcessingStats {
    pub total_records: u64,
    pub valid_records: u64,
    pub avg_quality_score: u16,
    pub last_processed_block: u32,
}

#[derive(Clone, Copy, PartialEq, Eq, Debug, Structural)]
pub enum BatchStatus {
    Pending,
    Processing,
    Completed,
    Failed,
}

/// One accepted telemetry record.
#[derive(Clone, Copy, Debug)]
pub struct TelemetryRecord {
    pub id: [u8; 32],
    pub vehicle_hash: [u8; 32],
    pub sensor_type: u8,
    pub timestamp: u64,
    pub data_hash: [u8; 32],
    pub quality_score: u8,
    pub processed: bool,
    pub validated: bool,
}

pub ghost struct TelemetryRecordView {
    pub id: Seq<u8>,
    pub vehicle_hash: Seq<u8>,
    pub sensor_type: u8,
    pub timestamp: u64,
    pub data_hash: Seq<u8>,
    pub quality_score: u8,
    pub processed: bool,
    pub validated: bool,
}

impl View for TelemetryRecord {
    type V = TelemetryRecordView;

    open spec fn view(&self) -> TelemetryRecordView {
        TelemetryRecordView {
            id: self.id@,
            vehicle_hash: self.vehicle_hash@,
            sensor_type: self.sensor_type,
            timestamp: self.timestamp,
            data_hash: self.data_hash@,
            quality_score: self.quality_score,
            processed: self.processed,
            validated: self.validated,
        }
    }
}

/// One processed batch's bookkeeping.
#[derive(Clone, Copy, Debug)]
pub struct BatchRecord {
    pub batch_id: [u8; 32],
    pub record_count: u16,
    pub merkle_root: [u8; 32],
    pub processed_count: u16,
    pub timestamp: u64,
    pub status: BatchStatus,
}

pub ghost struct BatchRecordView {
    pub batch_id: Seq<u8>,
    pub record_count: u16,
    pub merkle_root: Seq<u8>,
    pub processed_count: u16,
    pub timestamp: u64,
    pub status: BatchStatus,
}

impl View for BatchRecord {
    type V = BatchRecordView;

    open spec fn view(&self) -> BatchRecordView {
        BatchRecordView {
            batch_id: self.batch_id@,
            record_count: self.record_count,
            merkle_root: self.merkle_root@,
            processed_count: self.processed_count,
            timestamp: self.timestamp,
            status: self.status,
        }
    }
}

/// Notification: a record was accepted.
#[derive(Clone, Copy, Debug)]
pub struct RecordProcessed {
    pub record_id: [u8; 32],
    pub vehicle_hash: [u8; 32],
    pub sensor_type: u8,
    pub quality_score: u8,
}

/// Notification: a batch completed or failed.
#[derive(Clone, Copy, Debug)]
pub struct BatchProcessed {
    pub batch_id: [u8; 32],
    pub record_count: u16,
    pub processed_count: u16,
    pub status: BatchStatus,
}

/// Notification: a vehicle hash was allow-listed.
#[derive(Clone, Copy, Debug)]
pub struct VehicleAuthorized {
    pub vehicle_hash: [u8; 32],
    pub authorized_by: AccountId,
}

/// Notification: an accepted record looked anomalous. Cause 1 flags low
/// quality, cause 2 an unrecognized sensor type; low quality wins when
/// both hold.
#[derive(Clone, Copy, Debug)]
pub struct AnomalyDetected {
    pub record_id: [u8; 32],
    pub vehicle_hash: [u8; 32],
    pub anomaly_type: u8,
}

/// One entry of the telemetry processor's event log.
#[derive(Clone, Copy, Debug)]
pub enum TelemetryEvent {
    RecordProcessed(RecordProcessed),
    BatchProcessed(BatchProcessed),
    VehicleAuthorized(VehicleAuthorized),
    AnomalyDetected(AnomalyDetected),
}

pub ghost enum TelemetryEventView {
    RecordProcessed {
        record_id: Seq<u8>,
        vehicle_hash: Seq<u8>,
        sensor_type: u8,
        quality_score: u8,
    },
    BatchProcessed { batch_id: Seq<u8>, record_count: u16, processed_count: u16, status: BatchStatus },
    VehicleAuthorized { vehicle_hash: Seq<u8>, authorized_by: AccountId },
    AnomalyDetected { record_id: Seq<u8>, vehicle_hash: Seq<u8>, anomaly_type: u8 },
}

impl View for TelemetryEvent {
    type V = TelemetryEventView;

    open spec fn view(&self) -> TelemetryEventView {
        match self {
            TelemetryEvent::RecordProcessed(e) => TelemetryEventView::RecordProcessed {
                record_id: e.record_id@,
                vehicle_hash: e.vehicle_hash@,
                sensor_type: e.sensor_type,
                quality_score: e.quality_score,
            },
            TelemetryEvent::BatchProcessed(e) => TelemetryEventView::BatchProcessed {
                batch_id: e.batch_id@,
                record_count: e.record_count,
                processed_count: e.processed_count,
                status: e.status,
            },
            TelemetryEvent::VehicleAuthorized(e) => TelemetryEventView::VehicleAuthorized {
                vehicle_hash: e.vehicle_hash@,
                authorized_by: e.authorized_by,
            },
            TelemetryEvent::AnomalyDetected(e) => TelemetryEventView::AnomalyDetected {
                record_id: e.record_id@,
                vehicle_hash: e.vehicle_hash@,
                anomaly_type: e.anomaly_type,
            },
        }
    }
}

/// One batch item: vehicle hash, sensor type code, data hash, quality.
pub type BatchItem = ([u8; 32], u8, [u8; 32], u8);

/// The telemetry processor's whole state, mathematically.
pub ghost struct TelemetryProcessorView {
    pub stats: ProcessingStats,
    pub owner: AccountId,
    pub processing_enabled: bool,
    pub authorized_vehicles: Map<Seq<u8>, bool>,
    pub records: Map<Seq<u8>, TelemetryRecordView>,
    pub batches: Map<Seq<u8>, BatchRecordView>,
    pub vehicle_counters: Map<Seq<u8>, u32>,
    pub events: Seq<TelemetryEventView>,
}

/// The allow flag for `vh`, absent meaning false.
pub open spec fn vehicle_allowed(m: Map<Seq<u8>, bool>, vh: Seq<u8>) -> bool {
    m.contains_key(vh) && m[vh]
}

/// The per-vehicle counter, absent meaning zero.
pub open spec fn counter_of(m: Map<Seq<u8>, u32>, vh: Seq<u8>) -> u32 {
    if m.contains_key(vh) {
        m[vh]
    } else {
        0
    }
}

/// The running average after folding one more sample in: the prior mean
/// is scaled back up, the sample added, and the sum divided by the new
/// count, all saturating.
pub open spec fn folded_avg(avg: u16, valid_new: u64, q: u8) -> u16
    recommends
        valid_new > 0,
{
    let total = sat_add_u64(sat_mul_u64(avg as u64, sat_sub_u64(valid_new, 1)), q as u64);
    let na = total / valid_new;
    if na > u16::MAX as u64 {
        u16::MAX
    } else {
        na as u16
    }
}

/// The running average after merging a batch's internal mean with the
/// prior mean: a two-step mean of means, not a per-item fold.
pub open spec fn merged_avg(avg: u16, valid_new: u64, processed: u16, total_q: u32) -> u16 {
    if processed > 0 && valid_new > 0 {
        let avg_q = total_q / (processed as u32);
        let cur = sat_add_u64(
            sat_mul_u64(avg as u64, sat_sub_u64(valid_new, processed as u64)),
            sat_mul_u32(avg_q, processed as u32) as u64,
        );
        let na = cur / valid_new;
        if na > u16::MAX as u64 {
            u16::MAX
        } else {
            na as u16
        }
    } else {
        avg
    }
}

/// A single ingestion is accepted: processing on, vehicle allow-listed,
/// quality at least 50, and the derived id not yet present.
pub open spec fn record_ok(
    v: TelemetryProcessorView,
    vh: Seq<u8>,
    sensor_type: u8,
    bn: u32,
    ts: u64,
    q: u8,
) -> bool {
    &&& v.processing_enabled
    &&& vehicle_allowed(v.authorized_vehicles, vh)
    &&& q >= 50
    &&& !v.records.contains_key(record_digest(vh, sensor_type, bn, ts))
}

/// The state after one accepted single ingestion.
pub open spec fn record_step(
    v: TelemetryProcessorView,
    vh: Seq<u8>,
    sensor_type: u8,
    bn: u32,
    ts: u64,
    dh: Seq<u8>,
    q: u8,
) -> TelemetryProcessorView {
    let id = record_digest(vh, sensor_type, bn, ts);
    let valid_new = sat_add_u64(v.stats.valid_records, 1);
    let base = v.events.push(
        TelemetryEventView::RecordProcessed {
            record_id: id,
            vehicle_hash: vh,
            sensor_type: sensor_type,
            quality_score: q,
        },
    );
    TelemetryProcessorView {
        records: v.records.insert(
            id,
            TelemetryRecordView {
                id: id,
                vehicle_hash: vh,
                sensor_type: sensor_type,
                timestamp: ts,
                data_hash: dh,
                quality_score: q,
                processed: true,
                validated: false,
            },
        ),
        stats: ProcessingStats {
            total_records: sat_add_u64(v.stats.total_records, 1),
            valid_records: valid_new,
            avg_quality_score: folded_avg(v.stats.avg_quality_score, valid_new, q),
            last_processed_block: bn,
        },
        vehicle_counters: v.vehicle_counters.insert(
            vh,
            sat_add_u32(counter_of(v.vehicle_counters, vh), 1),
        ),
        events: if q < 30 || sensor_type > 10 {
            base.push(
                TelemetryEventView::AnomalyDetected {
                    record_id: id,
                    vehicle_hash: vh,
                    anomaly_type: if q < 30 {
                        1
                    } else {
                        2
                    },
                },
            )
        } else {
            base
        },
        ..v
    }
}

/// The per-item loop state of a batch: records and counters so far, the
/// accepted count, and the accepted items' summed quality.
pub ghost struct BatchFold {
    pub records: Map<Seq<u8>, TelemetryRecordView>,
    pub counters: Map<Seq<u8>, u32>,
    pub processed: u16,
    pub total_quality: u32,
}

/// One batch item is accepted exactly when its vehicle is allow-listed,
/// its quality is at least 50, and its derived id is still fresh.
pub open spec fn batch_item_ok(
    auth: Map<Seq<u8>, bool>,
    st: BatchFold,
    item: BatchItem,
    bn: u32,
    ts: u64,
) -> bool {
    &&& vehicle_allowed(auth, item.0@)
    &&& item.3 >= 50
    &&& !st.records.contains_key(batch_item_digest(item.0@, item.1, bn, ts, st.processed))
}

/// Folding a batch's items in order: accepted items are stored validated
/// and counted; rejected items are skipped.
pub open spec fn batch_fold(
    auth: Map<Seq<u8>, bool>,
    init: BatchFold,
    items: Seq<BatchItem>,
    bn: u32,
    ts: u64,
) -> BatchFold
    decreases items.len(),
{
    if items.len() == 0 {
        init
    } else {
        let st = batch_fold(auth, init, items.drop_last(), bn, ts);
        let item = items.last();
        let id = batch_item_digest(item.0@, item.1, bn, ts, st.processed);
        if batch_item_ok(auth, st, item, bn, ts) {
            BatchFold {
                records: st.records.insert(
                    id,
                    TelemetryRecordView {
                        id: id,
                        vehicle_hash: item.0@,
                        sensor_type: item.1,
                        timestamp: ts,
                        data_hash: item.2@,
                        quality_score: item.3,
                        processed: true,
                        validated: true,
                    },
                ),
                counters: st.counters.insert(
                    item.0@,
                    sat_add_u32(counter_of(st.counters, item.0@), 1),
                ),
                processed: sat_add_u16(st.processed, 1),
                total_quality: sat_add_u32(st.total_quality, item.3 as u32),
            }
        } else {
            st
        }
    }
}

/// The initial loop state of a batch over `v`.
pub open spec fn batch_init(v: TelemetryProcessorView) -> BatchFold {
    BatchFold { records: v.records, counters: v.vehicle_counters, processed: 0, total_quality: 0 }
}

/// A batch call is accepted as a whole: processing on, at most 1000
/// items, fresh batch id. Item-level failures are skips, never fatal.
pub open spec fn batch_ok(
    v: TelemetryProcessorView,
    batch_id: Seq<u8>,
    n_items: nat,
) -> bool {
    &&& v.processing_enabled
    &&& n_items <= 1000
    &&& !v.batches.contains_key(batch_id)
}

/// The state after an accepted batch call.
pub open spec fn batch_post(
    v: TelemetryProcessorView,
    batch_id: Seq<u8>,
    merkle_root: Seq<u8>,
    items: Seq<BatchItem>,
    bn: u32,
    ts: u64,
) -> TelemetryProcessorView {
    let fold = batch_fold(v.authorized_vehicles, batch_init(v), items, bn, ts);
    let rc: u16 = if items.len() > u16::MAX {
        u16::MAX
    } else {
        items.len() as u16
    };
    let status = if fold.processed > 0 {
        BatchStatus::Completed
    } else {
        BatchStatus::Failed
    };
    let valid_new = sat_add_u64(v.stats.valid_records, fold.processed as u64);
    TelemetryProcessorView {
        records: fold.records,
        vehicle_counters: fold.counters,
        batches: v.batches.insert(
            batch_id,
            BatchRecordView {
                batch_id: batch_id,
                record_count: rc,
                merkle_root: merkle_root,
                processed_count: fold.processed,
                timestamp: ts,
                status: status,
            },
        ),
        stats: ProcessingStats {
            total_records: sat_add_u64(v.stats.total_records, fold.processed as u64),
            valid_records: valid_new,
            avg_quality_score: merged_avg(
                v.stats.avg_quality_score,
                valid_new,
                fold.processed,
                fold.total_quality,
            ),
            last_processed_block: bn,
        },
        events: v.events.push(
            TelemetryEventView::BatchProcessed {
                batch_id: batch_id,
                record_count: rc,
                processed_count: fold.processed,
                status: status,
            },
        ),
        ..v
    }
}

/// The telemetry processor.
pub struct TelemetryProcessor {
    stats: ProcessingStats,
    owner: AccountId,
    processing_enabled: bool,
    authorized_vehicles: KvMap<[u8; 32], bool>,
    records: KvMap<[u8; 32], TelemetryRecord>,
    batches: KvMap<[u8; 32], BatchRecord>,
    vehicle_counters: KvMap<[u8; 32], u32>,
    events: Vec<TelemetryEvent>,
}

impl View for TelemetryProcessor {
    type V = TelemetryProcessorView;

    closed spec fn view(&self) -> TelemetryProcessorView {
        TelemetryProcessorView {
            stats: self.stats,
            owner: self.owner,
            processing_enabled: self.processing_enabled,
            authorized_vehicles: self.authorized_vehicles@,
            records: self.records@,
            batches: self.batches@,
            vehicle_counters: self.vehicle_counters@,
            events: seq_view(self.events@),
        }
    }
}

impl TelemetryProcessor {
    pub closed spec fn wf(self) -> bool {
        &&& self.authorized_vehicles.wf()
        &&& self.records.wf()
        &&& self.batches.wf()
        &&& self.vehicle_counters.wf()
    }

    /// A fresh processor administered by `owner`, with processing on.
    pub fn new(owner: AccountId) -> (r: Self)
        ensures
            r.wf(),
            r@ == (TelemetryProcessorView {
                stats: ProcessingStats {
                    total_records: 0,
                    valid_records: 0,
                    avg_quality_score: 0,
                    last_processed_block: 0,
                },
                owner: owner,
                processing_enabled: true,
                authorized_vehicles: Map::empty(),
                records: Map::empty(),
                batches: Map::empty(),
                vehicle_counters: Map::empty(),
                events: Seq::empty(),
            }),
    {
        let r = TelemetryProcessor {
            stats: ProcessingStats {
                total_records: 0,
                valid_records: 0,
                avg_quality_score: 0,
                last_processed_block: 0,
            },
            owner,
            processing_enabled: true,
            authorized_vehicles: KvMap::new(),
            records: KvMap::new(),
            batches: KvMap::new(),
            vehicle_counters: KvMap::new(),
            events: Vec::new(),
        };
        proof {
            assert(seq_view(r.events@) =~= Seq::<TelemetryEventView>::empty());
        }
        r
    }

    /// Ingest one record. Validation order, first failure wins:
    /// processing enabled, vehicle authorized, quality at least 50,
    /// derived id fresh. An accepted record is stored processed and not
    /// yet validated, and the running statistics fold the sample in.
    pub fn process_record(
        &mut self,
        ctx: HostContext,
        vehicle_hash: [u8; 32],
        sensor_type: u8,
        data_hash: [u8; 32],
        quality_score: u8,
    ) -> (r: Result<[u8; 32], String>)
        requires
            old(self).wf(),
        ensures
            final(self).wf(),
            r is Ok <==> record_ok(
                old(self)@,
                vehicle_hash@,
                sensor_type,
                ctx.block_number,
                ctx.block_timestamp,
                quality_score,
            ),
            r is Err ==> final(self)@ == old(self)@,
            !old(self)@.processing_enabled ==> (r matches Err(e) && e@ == "Processing disabled"@),
            old(self)@.processing_enabled && !vehicle_allowed(
                old(self)@.authorized_vehicles,
                vehicle_hash@,
            ) ==> (r matches Err(e) && e@ == "Vehicle not authorized"@),
            old(self)@.processing_enabled && vehicle_allowed(
                old(self)@.authorized_vehicles,
                vehicle_hash@,
            ) && quality_score < 50 ==> (r matches Err(e) && e@ == "Quality score too low"@),
            old(self)@.processing_enabled && vehicle_allowed(
                old(self)@.authorized_vehicles,
                vehicle_hash@,
            ) && quality_score >= 50 && old(self)@.records.contains_key(
                record_digest(vehicle_hash@, sensor_type, ctx.block_number, ctx.block_timestamp),
            ) ==> (r matches Err(e) && e@ == "Duplicate record"@),
            r matches Ok(id) ==> id@ == record_digest(
                vehicle_hash@,
                sensor_type,
                ctx.block_number,
                ctx.block_timestamp,
            ) && final(self)@ == record_step(
                old(self)@,
                vehicle_hash@,
                sensor_type,
                ctx.block_number,
                ctx.block_timestamp,
                data_hash@,
                quality_score,
            ),
    {
        if !self.processing_enabled {
            return Err(String::from_str("Processing disabled"));
        }
        let allowed = match self.authorized_vehicles.get(&vehicle_hash) {
            Some(b) => *b,
            None => false,
        };
        if !allowed {
            return Err(String::from_str("Vehicle not authorized"));
        }
        if quality_score < 50 {
            return Err(String::from_str("Quality score too low"));
        }

        let block_number = ctx.block_number;
        let timestamp = ctx.block_timestamp;
        let record_id = derive_record_id(&vehicle_hash, sensor_type, block_number, timestamp);
        if self.records.contains(&record_id) {
            return Err(String::from_str("Duplicate record"));
        }

        let ghost pre = self@;
        let record = TelemetryRecord {
            id: record_id,
            vehicle_hash,
            sensor_type,
            timestamp,
            data_hash,
            quality_score,
            processed: true,
            validated: false,
        };
        self.records.insert(record_id, record);

        self.stats.total_records = sat_add64(self.stats.total_records, 1);
        self.stats.valid_records = sat_add64(self.stats.valid_records, 1);
        self.stats.last_processed_block = block_number;

        if self.stats.valid_records > 0 {
            let total_quality = sat_add64(
                sat_mul64(
                    self.stats.avg_quality_score as u64,
                    sat_sub64(self.stats.valid_records, 1),
                ),
                quality_score as u64,
            );
            let new_avg = total_quality / self.stats.valid_records;
            self.stats.avg_quality_score = if new_avg > u16::MAX as u64 {
                u16::MAX
            } else {
                new_avg as u16
            };
        }

        let current_counter = match self.vehicle_counters.get(&vehicle_hash) {
            Some(c) => *c,
            None => 0,
        };
        self.vehicle_counters.insert(vehicle_hash, sat_add32(current_counter, 1));

        self.events.push(
            TelemetryEvent::RecordProcessed(
                RecordProcessed { record_id, vehicle_hash, sensor_type, quality_score },
            ),
        );
        let ghost mid_events = seq_view(self.events@);
        if quality_score < 30 || sensor_type > 10 {
            let anomaly_type: u8 = if quality_score < 30 {
                1
            } else {
                2
            };
            self.events.push(
                TelemetryEvent::AnomalyDetected(
                    AnomalyDetected { record_id, vehicle_hash, anomaly_type },
                ),
            );
            proof {
                assert(seq_view(self.events@) =~= mid_events.push(
                    TelemetryEventView::AnomalyDetected {
                        record_id: record_id@,
                        vehicle_hash: vehicle_hash@,
                        anomaly_type: anomaly_type,
                    },
                ));
            }
        }
        proof {
            assert(mid_events =~= pre.events.push(
                TelemetryEventView::RecordProcessed {
                    record_id: record_id@,
                    vehicle_hash: vehicle_hash@,
                    sensor_type: sensor_type,
                    quality_score: quality_score,
                },
            ));
            assert(self@ == record_step(
                pre,
                vehicle_hash@,
                sensor_type,
                block_number,
                timestamp,
                data_hash@,
                quality_score,
            ));
        }
        Ok(record_id)
    }

    /// Ingest a batch. Whole-call failures: processing off, more than
    /// 1000 items, batch id already used. Items failing the per-record
    /// rules are skipped, never fatal; accepted items are stored
    /// validated. The call returns the accepted count, zero included.
    pub fn process_batch(
        &mut self,
        ctx: HostContext,
        batch_id: [u8; 32],
        records: Vec<BatchItem>,
        merkle_root: [u8; 32],
    ) -> (r: Result<u16, String>)
        requires
            old(self).wf(),
        ensures
            final(self).wf(),
            r is Ok <==> batch_ok(old(self)@, batch_id@, records@.len()),
            r is Err ==> final(self)@ == old(self)@,
            !old(self)@.processing_enabled ==> (r matches Err(e) && e@ == "Processing disabled"@),
            old(self)@.processing_enabled && records@.len() > 1000 ==> (r matches Err(e) && e@
                == "Batch too large"@),
            old(self)@.processing_enabled && records@.len() <= 1000
                && old(self)@.batches.contains_key(batch_id@) ==> (r matches Err(e) && e@
                == "Batch already exists"@),
            r matches Ok(n) ==> n == batch_fold(
                old(self)@.authorized_vehicles,
                batch_init(old(self)@),
                records@,
                ctx.block_number,
                ctx.block_timestamp,
            ).processed && final(self)@ == batch_post(
                old(self)@,
                batch_id@,
                merkle_root@,
                records@,
                ctx.block_number,
                ctx.block_timestamp,
            ),
    {
        if !self.processing_enabled {
            return Err(String::from_str("Processing disabled"));
        }
        if records.len() > 1000 {
            return Err(String::from_str("Batch too large"));
        }
        if self.batches.contains(&batch_id) {
            return Err(String::from_str("Batch already exists"));
        }

        let ghost pre = self@;
        let block_number = ctx.block_number;
        let timestamp = ctx.block_timestamp;
        let ghost auth = self.authorized_vehicles@;
        let ghost init = batch_init(pre);

        let n = records.len();
        let record_count: u16 = if n > u16::MAX as usize {
            u16::MAX
        } else {
            n as u16
        };

        let mut processed_count: u16 = 0;
        let mut total_quality: u32 = 0;
        let mut i: usize = 0;
        proof {
            assert(records@.subrange(0, 0) =~= Seq::<BatchItem>::empty());
        }
        while i < n
            invariant
                n == records@.len(),
                0 <= i <= n,
                self.authorized_vehicles.wf(),
                self.records.wf(),
                self.batches.wf(),
                self.vehicle_counters.wf(),
                self.authorized_vehicles@ == auth,
                auth == pre.authorized_vehicles,
                self.processing_enabled == pre.processing_enabled,
                self.stats == pre.stats,
                self.batches@ == pre.batches,
                seq_view(self.events@) == pre.events,
                self.owner == pre.owner,
                (BatchFold {
                    records: self.records@,
                    counters: self.vehicle_counters@,
                    processed: processed_count,
                    total_quality: total_quality,
                }) == batch_fold(
                    auth,
                    init,
                    records@.subrange(0, i as int),
                    block_number,
                    timestamp,
                ),
            decreases n - i,
        {
            let ghost fold_pre = batch_fold(
                auth,
                init,
                records@.subrange(0, i as int),
                block_number,
                timestamp,
            );
            let (vehicle_hash, sensor_type, data_hash, quality_score) = records[i];
            let allowed = match self.authorized_vehicles.get(&vehicle_hash) {
                Some(b) => *b,
                None => false,
            };
            if allowed && quality_score >= 50 {
                let record_id = derive_batch_record_id(
                    &vehicle_hash,
                    sensor_type,
                    block_number,
                    timestamp,
                    processed_count,
                );
                if !self.records.contains(&record_id) {
                    let record = TelemetryRecord {
                        id: record_id,
                        vehicle_hash,
                        sensor_type,
                        timestamp,
                        data_hash,
                        quality_score,
                        processed: true,
                        validated: true,
                    };
                    self.records.insert(record_id, record);
                    processed_count = sat_add16(processed_count, 1);
                    total_quality = sat_add32(total_quality, quality_score as u32);
                    let current_counter = match self.vehicle_counters.get(&vehicle_hash) {
                        Some(c) => *c,
                        None => 0,
                    };
                    self.vehicle_counters.insert(vehicle_hash, sat_add32(current_counter, 1));
                }
            }
            i = i + 1;
            proof {
                let prefix = records@.subrange(0, i as int);
                assert(prefix.drop_last() =~= records@.subrange(0, i - 1));
                assert(prefix.last() == records@[i - 1]);
            }
        }
        proof {
            assert(records@.subrange(0, n as int) =~= records@);
        }

        let status = if processed_count > 0 {
            BatchStatus::Completed
        } else {
            BatchStatus::Failed
        };
        let batch = BatchRecord {
            batch_id,
            record_count,
            merkle_root,
            processed_count,
            timestamp,
            status,
        };
        self.batches.insert(batch_id, batch);

        self.stats.total_records = sat_add64(self.stats.total_records, processed_count as u64);
        self.stats.valid_records = sat_add64(self.stats.valid_records, processed_count as u64);
        self.stats.last_processed_block = block_number;

        if processed_count > 0 && self.stats.valid_records > 0 {
            let avg_quality = total_quality / (processed_count as u32);
            let scaled = sat_mul32(avg_quality, processed_count as u32);
            let current_total = sat_add64(
                sat_mul64(
                    self.stats.avg_quality_score as u64,
                    sat_sub64(self.stats.valid_records, processed_count as u64),
                ),
                scaled as u64,
            );
            let new_avg = current_total / self.stats.valid_records;
            self.stats.avg_quality_score = if new_avg > u16::MAX as u64 {
                u16::MAX
            } else {
                new_avg as u16
            };
        }

        self.events.push(
            TelemetryEvent::BatchProcessed(
                BatchProcessed {
                    batch_id,
                    record_count,
                    processed_count,
                    status,
                },
            ),
        );
        proof {
            assert(seq_view(self.events@) =~= pre.events.push(
                TelemetryEventView::BatchProcessed {
                    batch_id: batch_id@,
                    record_count: record_count,
                    processed_count: processed_count,
                    status: status,
                },
            ));
            assert(self@ == batch_post(
                pre,
                batch_id@,
                merkle_root@,
                records@,
                block_number,
                timestamp,
            ));
        }
        Ok(processed_count)
    }

    /// Allow-list a vehicle hash: administrator-only.
    pub fn authorize_vehicle(&mut self, ctx: HostContext, vehicle_hash: [u8; 32]) -> (r: Result<
        (),
        String,
    >)
        requires
            old(self).wf(),
        ensures
            final(self).wf(),
            r is Ok <==> ctx.caller == old(self)@.owner,
            r is Err ==> final(self)@ == old(self)@ && (r matches Err(e) && e@ == "Unauthorized"@),
            r is Ok ==> final(self)@ == (TelemetryProcessorView {
                authorized_vehicles: old(self)@.authorized_vehicles.insert(vehicle_hash@, true),
                events: old(self)@.events.push(
                    TelemetryEventView::VehicleAuthorized {
                        vehicle_hash: vehicle_hash@,
                        authorized_by: ctx.caller,
                    },
                ),
                ..old(self)@
            }),
    {
        if ctx.caller != self.owner {
            return Err(String::from_str("Unauthorized"));
        }
        let ghost pre = self@;
        self.authorized_vehicles.insert(vehicle_hash, true);
        self.events.push(
            TelemetryEvent::VehicleAuthorized(
                VehicleAuthorized { vehicle_hash, authorized_by: ctx.caller },
            ),
        );
        proof {
            assert(seq_view(self.events@) =~= pre.events.push(
                TelemetryEventView::VehicleAuthorized {
                    vehicle_hash: vehicle_hash@,
                    authorized_by: ctx.caller,
                },
            ));
        }
        Ok(())
    }

    /// Clear a vehicle hash's allow flag: administrator-only.
    pub fn deauthorize_vehicle(&mut self, ctx: HostContext, vehicle_hash: [u8; 32]) -> (r: Result<
        (),
        String,
    >)
        requires
            old(self).wf(),
        ensures
            final(self).wf(),
            r is Ok <==> ctx.caller == old(self)@.owner,
            r is Err ==> final(self)@ == old(self)@ && (r matches Err(e) && e@ == "Unauthorized"@),
            r is Ok ==> final(self)@ == (TelemetryProcessorView {
                authorized_vehicles: old(self)@.authorized_vehicles.insert(vehicle_hash@, false),
                ..old(self)@
            }),
    {
        if ctx.caller != self.owner {
            return Err(String::from_str("Unauthorized"));
        }
        self.authorized_vehicles.insert(vehicle_hash, false);
        Ok(())
    }

    /// Flip a stored record's validated flag from false to true:
    /// administrator-only.
    pub fn validate_record(&mut self, ctx: HostContext, record_id: [u8; 32]) -> (r: Result<
        (),
        String,
    >)
        requires
            old(self).wf(),
        ensures
            final(self).wf(),
            r is Ok <==> ctx.caller == old(self)@.owner && old(self)@.records.contains_key(
                record_id@,
            ) && !old(self)@.records[record_id@].validated,
            r is Err ==> final(self)@ == old(self)@,
            ctx.caller != old(self)@.owner ==> (r matches Err(e) && e@ == "Unauthorized"@),
            ctx.caller == old(self)@.owner && !old(self)@.records.contains_key(record_id@) ==> (r
                matches Err(e) && e@ == "Record not found"@),
            ctx.caller == old(self)@.owner && old(self)@.records.contains_key(record_id@) && old(
                self,
            )@.records[record_id@].validated ==> (r matches Err(e) && e@ == "Already validated"@),
            r is Ok ==> final(self)@ == (TelemetryProcessorView {
                records: old(self)@.records.insert(
                    record_id@,
                    TelemetryRecordView { validated: true, ..old(self)@.records[record_id@] },
                ),
                ..old(self)@
            }),
    {
        if ctx.caller != self.owner {
            return Err(String::from_str("Unauthorized"));
        }
        let rec_opt = self.records.get(&record_id);
        match rec_opt {
            None => Err(String::from_str("Record not found")),
            Some(record) => {
                if record.validated {
                    return Err(String::from_str("Already validated"));
                }
                let updated = TelemetryRecord {
                    id: record.id,
                    vehicle_hash: record.vehicle_hash,
                    sensor_type: record.sensor_type,
                    timestamp: record.timestamp,
                    data_hash: record.data_hash,
                    quality_score: record.quality_score,
                    processed: record.processed,
                    validated: true,
                };
                self.records.insert(record_id, updated);
                Ok(())
            },
        }
    }

    pub fn is_vehicle_authorized(&self, vehicle_hash: &[u8; 32]) -> (r: bool)
        requires
            self.wf(),
        ensures
            r == vehicle_allowed(self@.authorized_vehicles, vehicle_hash@),
    {
        match self.authorized_vehicles.get(vehicle_hash) {
            Some(b) => *b,
            None => false,
        }
    }

    /// Flip the global processing switch: administrator-only.
    pub fn toggle_processing(&mut self, ctx: HostContext) -> (r: Result<(), String>)
        requires
            old(self).wf(),
        ensures
            final(self).wf(),
            r is Ok <==> ctx.caller == old(self)@.owner,
            r is Err ==> final(self)@ == old(self)@ && (r matches Err(e) && e@ == "Unauthorized"@),
            r is Ok ==> final(self)@ == (TelemetryProcessorView {
                processing_enabled: !old(self)@.processing_enabled,
                ..old(self)@
            }),
    {
        if ctx.caller != self.owner {
            return Err(String::from_str("Unauthorized"));
        }
        self.processing_enabled = !self.processing_enabled;
        Ok(())
    }

    pub fn get_stats(&self) -> (r: ProcessingStats)
        ensures
            r == self@.stats,
    {
        self.stats
    }

    pub fn get_record(&self, record_id: &[u8; 32]) -> (r: Option<&TelemetryRecord>)
        requires
            self.wf(),
        ensures
            match r {
                Some(rec) => self@.records.contains_key(record_id@) && rec@
                    == self@.records[record_id@],
                None => !self@.records.contains_key(record_id@),
            },
    {
        self.records.get(record_id)
    }

    pub fn get_batch(&self, batch_id: &[u8; 32]) -> (r: Option<&BatchRecord>)
        requires
            self.wf(),
        ensures
            match r {
                Some(b) => self@.batches.contains_key(batch_id@) && b@ == self@.batches[batch_id@],
                None => !self@.batches.contains_key(batch_id@),
            },
    {
        self.batches.get(batch_id)
    }

    pub fn get_vehicle_counter(&self, vehicle_hash: &[u8; 32]) -> (r: u32)
        requires
            self.wf(),
        ensures
            r == counter_of(self@.vehicle_counters, vehicle_hash@),
    {
        match self.vehicle_counters.get(vehicle_hash) {
            Some(c) => *c,
            None => 0,
        }
    }

    pub fn is_processing_enabled(&self) -> (r: bool)
        ensures
            r == self@.processing_enabled,
    {
        self.processing_enabled
    }

    pub fn get_owner(&self) -> (r: AccountId)
        ensures
            r == self@.owner,
    {
        self.owner
    }
}

/// Two single ingestions of the same vehicle and sensor within one block
/// collide: after the first is accepted, the second is rejected as a
/// duplicate, whatever its quality.
pub proof fn lemma_duplicate_rejection(
    pre: TelemetryProcessorView,
    vh: Seq<u8>,
    sensor_type: u8,
    bn: u32,
    ts: u64,
    dh: Seq<u8>,
    q1: u8,
    q2: u8,
)
    requires
        record_ok(pre, vh, sensor_type, bn, ts, q1),
    ensures
        !record_ok(record_step(pre, vh, sensor_type, bn, ts, dh, q1), vh, sensor_type, bn, ts, q2),
        record_step(pre, vh, sensor_type, bn, ts, dh, q1).processing_enabled,
        vehicle_allowed(
            record_step(pre, vh, sensor_type, bn, ts, dh, q1).authorized_vehicles,
            vh,
        ),
        record_step(pre, vh, sensor_type, bn, ts, dh, q1).records.contains_key(
            record_digest(vh, sensor_type, bn, ts),
        ),
{
}

/// Folding one sample with quality in [50, 100] into a running average
/// that is itself in [50, 100] (or into an empty history) keeps the
/// average in [50, 100], while the record count stays clear of the
/// saturation range of the scaled-back sum.
pub proof fn lemma_average_bounds_single(avg: u16, valid_new: u64, q: u8)
    requires
        1 <= valid_new,
        valid_new <= u64::MAX / 100,
        50 <= q <= 100,
        valid_new == 1 || (50 <= avg <= 100),
    ensures
        50 <= folded_avg(avg, valid_new, q) <= 100,
{
    let n = valid_new as int;
    let a = avg as int;
    let qq = q as int;
    vstd::arithmetic::div_mod::lemma_fundamental_div_mod(u64::MAX as int, 100);
    assert(100 * n <= u64::MAX) by {
        vstd::arithmetic::mul::lemma_mul_inequality(n, u64::MAX as int / 100, 100);
    }
    if valid_new == 1 {
        assert(sat_sub_u64(valid_new, 1) == 0);
        assert(sat_mul_u64(avg as u64, 0) == 0);
        assert(sat_add_u64(0, q as u64) == q);
        assert(qq / 1 == qq);
        assert(folded_avg(avg, valid_new, q) == q);
    } else {
        vstd::arithmetic::mul::lemma_mul_inequality(a, 100, n - 1);
        vstd::arithmetic::mul::lemma_mul_inequality(50, a, n - 1);
        let product = a * (n - 1);
        assert(product <= 100 * (n - 1));
        assert(product + qq <= 100 * n);
        assert(50 * n <= product + qq);
        assert(sat_mul_u64(avg as u64, sat_sub_u64(valid_new, 1)) == product);
        let total = sat_add_u64(sat_mul_u64(avg as u64, sat_sub_u64(valid_new, 1)), q as u64);
        assert(total == product + qq);
        vstd::arithmetic::div_mod::lemma_div_is_ordered(50 * n, total as int, n);
        vstd::arithmetic::div_mod::lemma_div_is_ordered(total as int, 100 * n, n);
        vstd::arithmetic::div_mod::lemma_div_multiples_vanish(50, n);
        vstd::arithmetic::div_mod::lemma_div_multiples_vanish(100, n);
        assert(n * 50 == 50 * n);
        assert(n * 100 == 100 * n);
        assert(50 <= total as int / n <= 100);
    }
}

/// Merging a batch mean built from accepted samples in [50, 100] with a
/// prior average in [50, 100] (or with an empty history) keeps the
/// average in [50, 100], under the same saturation headroom.
pub proof fn lemma_average_bounds_batch(avg: u16, valid_new: u64, processed: u16, total_q: u32)
    requires
        1 <= processed,
        processed as u64 <= valid_new,
        valid_new <= u64::MAX / 100,
        50 * (processed as int) <= total_q as int,
        total_q as int <= 100 * (processed as int),
        valid_new == processed as u64 || (50 <= avg <= 100),
    ensures
        50 <= merged_avg(avg, valid_new, processed, total_q) <= 100,
{
    let p = processed as int;
    let n = valid_new as int;
    let a = avg as int;
    let tq = total_q as int;
    vstd::arithmetic::div_mod::lemma_fundamental_div_mod(u64::MAX as int, 100);
    assert(100 * n <= u64::MAX) by {
        vstd::arithmetic::mul::lemma_mul_inequality(n, u64::MAX as int / 100, 100);
    }

    let avg_q = tq / p;
    vstd::arithmetic::div_mod::lemma_div_is_ordered(50 * p, tq, p);
    vstd::arithmetic::div_mod::lemma_div_is_ordered(tq, 100 * p, p);
    vstd::arithmetic::div_mod::lemma_div_multiples_vanish(50, p);
    vstd::arithmetic::div_mod::lemma_div_multiples_vanish(100, p);
    assert(p * 50 == 50 * p);
    assert(p * 100 == 100 * p);
    assert(50 <= avg_q <= 100);
    assert(total_q / (processed as u32) == avg_q);

    vstd::arithmetic::mul::lemma_mul_inequality(avg_q, 100, p);
    vstd::arithmetic::mul::lemma_mul_inequality(50, avg_q, p);
    assert(100 * p <= 100 * n) by {
        vstd::arithmetic::mul::lemma_mul_inequality(p, n, 100);
    }
    assert(sat_mul_u32(avg_q as u32, processed as u32) == avg_q * p);

    let rest = n - p;
    let scaled_old = a * rest;
    if valid_new == processed as u64 {
        assert(rest == 0);
        assert(scaled_old == 0);
        assert(50 * rest <= scaled_old <= 100 * rest);
    } else {
        vstd::arithmetic::mul::lemma_mul_inequality(a, 100, rest);
        vstd::arithmetic::mul::lemma_mul_inequality(50, a, rest);
        assert(50 * rest <= scaled_old <= 100 * rest);
    }
    assert(sat_sub_u64(valid_new, processed as u64) == rest);
    assert(sat_mul_u64(avg as u64, sat_sub_u64(valid_new, processed as u64)) == scaled_old) by {
        assert(100 * rest <= 100 * n) by {
            vstd::arithmetic::mul::lemma_mul_inequality(rest, n, 100);
        }
    }
    let cur = sat_add_u64(
        sat_mul_u64(avg as u64, sat_sub_u64(valid_new, processed as u64)),
        sat_mul_u32(avg_q as u32, processed as u32) as u64,
    );
    assert(scaled_old + avg_q * p <= 100 * rest + 100 * p);
    assert(100 * rest + 100 * p == 100 * n);
    assert(50 * rest + 50 * p == 50 * n);
    assert(cur == scaled_old + avg_q * p);
    vstd::arithmetic::div_mod::lemma_div_is_ordered(50 * n, cur as int, n);
    vstd::arithmetic::div_mod::lemma_div_is_ordered(cur as int, 100 * n, n);
    vstd::arithmetic::div_mod::lemma_div_multiples_vanish(50, n);
    vstd::arithmetic::div_mod::lemma_div_multiples_vanish(100, n);
    assert(n * 50 == 50 * n);
    assert(n * 100 == 100 * n);
    assert(50 <= cur as int / n <= 100);
}

/// Within a batch of at most 1000 items whose qualities are at most 100,
/// the fold accepts at most one record per item, and the accepted
/// qualities sum to between 50 and 100 per accepted record: exactly the
/// bounds under which the merged mean stays in [50, 100].
pub proof fn lemma_batch_fold_quality(
    auth: Map<Seq<u8>, bool>,
    init: BatchFold,
    items: Seq<BatchItem>,
    bn: u32,
    ts: u64,
)
    requires
        init.processed == 0,
        init.total_quality == 0,
        items.len() <= 1000,
        forall|i: int| 0 <= i < items.len() ==> (#[trigger] items[i]).3 <= 100,
    ensures
        batch_fold(auth, init, items, bn, ts).processed as int <= items.len(),
        50 * (batch_fold(auth, init, items, bn, ts).processed as int) <= batch_fold(
            auth,
            init,
            items,
            bn,
            ts,
        ).total_quality as int,
        batch_fold(auth, init, items, bn, ts).total_quality as int <= 100 * (batch_fold(
            auth,
            init,
            items,
            bn,
            ts,
        ).processed as int),
    decreases items.len(),
{
    if items.len() > 0 {
        assert forall|i: int| 0 <= i < items.drop_last().len() implies (#[trigger] items.drop_last()[
            i
        ]).3 <= 100 by {
            assert(items.drop_last()[i] == items[i]);
        }
        lemma_batch_fold_quality(auth, init, items.drop_last(), bn, ts);
        let st = batch_fold(auth, init, items.drop_last(), bn, ts);
        if batch_item_ok(auth, st, items.last(), bn, ts) {
            assert(items.last() == items[items.len() - 1]);
            assert(items.last().3 <= 100);
            assert(st.processed < 1000);
            assert(sat_add_u16(st.processed, 1) == st.processed + 1);
            assert(st.total_quality <= 100 * 1000) by {
                vstd::arithmetic::mul::lemma_mul_inequality(
                    st.processed as int,
                    1000,
                    100,
                );
            }
            assert(sat_add_u32(st.total_quality, items.last().3 as u32) == st.total_quality
                + items.last().3);
        }
    }
}

/// A batch whose every item is unauthorized or below quality 50 accepts
/// nothing: the records, the counters and the record statistics are left
/// as they were, and the batch is marked Failed.
pub proof fn lemma_batch_all_rejected(
    pre: TelemetryProcessorView,
    batch_id: Seq<u8>,
    merkle_root: Seq<u8>,
    items: Seq<BatchItem>,
    bn: u32,
    ts: u64,
)
    requires
        forall|i: int| 0 <= i < items.len() ==> !vehicle_allowed(
            pre.authorized_vehicles,
            #[trigger] items[i].0@,
        ) || items[i].3 < 50,
    ensures
        batch_fold(pre.authorized_vehicles, batch_init(pre), items, bn, ts) == batch_init(pre),
        batch_post(pre, batch_id, merkle_root, items, bn, ts).records == pre.records,
        batch_post(pre, batch_id, merkle_root, items, bn, ts).vehicle_counters
            == pre.vehicle_counters,
        batch_post(pre, batch_id, merkle_root, items, bn, ts).stats.total_records
            == pre.stats.total_records,
        batch_post(pre, batch_id, merkle_root, items, bn, ts).stats.valid_records
            == pre.stats.valid_records,
        batch_post(pre, batch_id, merkle_root, items, bn, ts).stats.avg_quality_score
            == pre.stats.avg_quality_score,
        batch_post(pre, batch_id, merkle_root, items, bn, ts).batches[batch_id].status
            == BatchStatus::Failed,
        batch_post(pre, batch_id, merkle_root, items, bn, ts).batches[batch_id].processed_count
            == 0,
    decreases items.len(),
{
    if items.len() > 0 {
        lemma_batch_all_rejected(pre, batch_id, merkle_root, items.drop_last(), bn, ts);
        assert(items.drop_last().len() == items.len() - 1);
        assert(forall|i: int| 0 <= i < items.drop_last().len() ==> items.drop_last()[i]
            == items[i]);
        assert(!batch_item_ok(
            pre.authorized_vehicles,
            batch_init(pre),
            items.last(),
            bn,
            ts,
        ));
    }
}

} // verus!
