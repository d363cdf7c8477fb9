//! The weight charged for dispatching the benchmarked call of the execution pallet.

use vstd::prelude::*;

verus! {

/// A cost in two dimensions: computation time and proof size.
#[derive(Clone, Copy, Debug, PartialEq, Eq, Structural)]
pub struct Weight {
    /// Computation time, in picoseconds.
    pub ref_time: u64,
    /// Proof size, in bytes.
    pub proof_size: u64,
}

/// The measured computation time of the call, without its database reads.
pub const INFINITE_LOOP_REF_TIME: u64 = 4_599_155_000_000;

/// The estimated proof size of the call.
pub const INFINITE_LOOP_PROOF_SIZE: u64 = 41949044;

/// The number of database reads that the call makes.
pub const INFINITE_LOOP_READS: u64 = 8;

/// Weight functions of the pallet, over the cost of one database read.
#[derive(Clone, Copy, Debug, PartialEq, Eq, Structural)]
pub struct WeightInfo {
    /// The computation time of one database read.
    pub db_read: u64,
}

/// The computation time of `reads` database reads, held at the largest amount.
pub open spec fn reads_ref_time(db_read: u64, reads: u64) -> u64 {
    if db_read * reads > u64::MAX {
        u64::MAX
    } else {
        (db_read * reads) as u64
    }
}

impl WeightInfo {
    /// The weight of the benchmarked call: its measured time plus that of its reads, held
    /// at the largest amount, and its estimated proof size.
    pub fn infinite_loop(&self) -> (weight: Weight)
        ensures
            weight.proof_size == INFINITE_LOOP_PROOF_SIZE,
            weight.ref_time == (if INFINITE_LOOP_REF_TIME + reads_ref_time(
                self.db_read,
                INFINITE_LOOP_READS,
            ) > u64::MAX {
                u64::MAX
            } else {
                (INFINITE_LOOP_REF_TIME + reads_ref_time(self.db_read, INFINITE_LOOP_READS)) as u64
            }),
    {
        let reads = match self.db_read.checked_mul(INFINITE_LOOP_READS) {
            Some(time) => time,
            None => u64::MAX,
        };
        Weight {
            ref_time: INFINITE_LOOP_REF_TIME.saturating_add(reads),
            proof_size: 0u64.saturating_add(INFINITE_LOOP_PROOF_SIZE),
        }
    }
}

} // verus!
