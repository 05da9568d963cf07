//! Deterministic record-identity derivation.
//!
//! A telemetry record's 32-byte id is the content hash of its identifying
//! fields; the hash primitive is the host environment's. Both digests are
//! deterministic functions of their fields alone, so they carry names
//! here and the processor's contracts speak of those names.

use vstd::prelude::*;

verus! {

/// The digest identifying a single-ingestion record: a function of the
/// identifying fields alone. Two calls for the same vehicle and sensor
/// within one block therefore collide, and the second is a duplicate.
pub uninterp spec fn record_digest(
    vehicle_hash: Seq<u8>,
    sensor_type: u8,
    block_number: u32,
    timestamp: u64,
) -> Seq<u8>;

/// The digest identifying one batch item; the per-batch sequence number
/// keeps accepted items of one block distinct from each other.
pub uninterp spec fn batch_item_digest(
    vehicle_hash: Seq<u8>,
    sensor_type: u8,
    block_number: u32,
    timestamp: u64,
    seq_no: u16,
) -> Seq<u8>;

/// Relies on ink::env::hash_encoded with the Sha2x256 hasher: the SHA-256
/// digest of the SCALE encoding of the given tuple, a deterministic
/// function of the tuple's fields alone.
#[verifier::external_body]
pub(crate) fn derive_record_id(
    vehicle_hash: &[u8; 32],
    sensor_type: u8,
    block_number: u32,
    timestamp: u64,
) -> (r: [u8; 32])
    ensures
        r@ == record_digest(vehicle_hash@, sensor_type, block_number, timestamp),
{
    let mut output = [0u8; 32];
    ink::env::hash_encoded::<ink::env::hash::Sha2x256, _>(
        &(vehicle_hash, sensor_type, block_number, timestamp),
        &mut output,
    );
    output
}

/// Relies on ink::env::hash_encoded with the Sha2x256 hasher, over the
/// tuple extended by the per-batch sequence number.
#[verifier::external_body]
pub(crate) fn derive_batch_record_id(
    vehicle_hash: &[u8; 32],
    sensor_type: u8,
    block_number: u32,
    timestamp: u64,
    seq_no: u16,
) -> (r: [u8; 32])
    ensures
        r@ == batch_item_digest(vehicle_hash@, sensor_type, block_number, timestamp, seq_no),
{
    let mut output = [0u8; 32];
    ink::env::hash_encoded::<ink::env::hash::Sha2x256, _>(
        &(vehicle_hash, sensor_type, block_number, timestamp, seq_no),
        &mut output,
    );
    output
}

} // verus!
