//! Weights for pallet_preimage: what each call of the pallet costs, in
//! computation time and in proof size, given what a read and a write of the
//! database cost.

use vstd::prelude::*;

verus! {

/// The greatest number that a part of a weight can hold, which every sum
/// and product that would exceed it is cut down to.
pub open spec fn saturated(x: int) -> int {
    if x > u64::MAX {
        u64::MAX as int
    } else {
        x
    }
}

/// A weight: the time that a computation takes, in picoseconds on the
/// reference hardware, and the size of the proof that it needs, in bytes.
#[derive(Clone, Copy, PartialEq, Eq, Structural, Debug)]
pub struct Weight {
    pub ref_time: u64,
    pub proof_size: u64,
}

impl Weight {
    /// Construct [`Weight`] from weight parts, namely reference time and proof size weights.
    pub fn from_parts(ref_time: u64, proof_size: u64) -> (weight: Self)
        ensures
            weight == (Weight { ref_time, proof_size }),
    {
        Weight { ref_time, proof_size }
    }

    /// Saturating [`Weight`] addition. Computes `self + rhs`, saturating at the numeric bounds of
    /// all fields instead of overflowing.
    pub fn saturating_add(self, rhs: Self) -> (sum: Self)
        ensures
            sum.ref_time == saturated(self.ref_time + rhs.ref_time),
            sum.proof_size == saturated(self.proof_size + rhs.proof_size),
    {
        Weight {
            ref_time: self.ref_time.saturating_add(rhs.ref_time),
            proof_size: self.proof_size.saturating_add(rhs.proof_size),
        }
    }

    /// Saturating [`Weight`] scalar multiplication. Computes `self.field * scalar` for all fields,
    /// saturating at the numeric bounds of all fields instead of overflowing.
    pub fn saturating_mul(self, scalar: u64) -> (product: Self)
        ensures
            product.ref_time == saturated(self.ref_time * scalar),
            product.proof_size == saturated(self.proof_size * scalar),
    {
        Weight {
            ref_time: times(self.ref_time, scalar),
            proof_size: times(self.proof_size, scalar),
        }
    }
}

/// The product of two numbers, cut down to the greatest number.
fn times(a: u64, b: u64) -> (product: u64)
    ensures
        product == saturated(a * b),
{
    match a.checked_mul(b) {
        Some(product) => product,
        None => u64::MAX,
    }
}

/// The weight of database operations that the runtime can invoke.
#[derive(Clone, Copy, PartialEq, Eq, Structural, Debug)]
pub struct RuntimeDbWeight {
    /// The time that one read takes.
    pub read: u64,
    /// The time that one write takes.
    pub write: u64,
}

impl RuntimeDbWeight {
    /// The weight of `r` reads.
    pub fn reads(self, r: u64) -> (weight: Weight)
        ensures
            weight.ref_time == saturated(self.read * r),
            weight.proof_size == 0,
    {
        Weight::from_parts(times(self.read, r), 0)
    }

    /// The weight of `w` writes.
    pub fn writes(self, w: u64) -> (weight: Weight)
        ensures
            weight.ref_time == saturated(self.write * w),
            weight.proof_size == 0,
    {
        Weight::from_parts(times(self.write, w), 0)
    }
}

/// The size of the proof that every call of the pallet needs.
pub open spec fn proof_size() -> u64 {
    3556
}

/// The weight of a call that takes `base` picoseconds, `per_byte` more for
/// each of the `s` bytes of the preimage, and reads and writes the database
/// as often as `reads` and `writes` say.
pub open spec fn preimage_weight(
    db: RuntimeDbWeight,
    base: int,
    per_byte: int,
    s: int,
    reads: int,
    writes: int,
) -> Weight {
    Weight {
        ref_time: saturated(base + per_byte * s + db.read * reads + db.write * writes) as u64,
        proof_size: proof_size(),
    }
}

/// Weight functions needed for pallet_preimage.
pub trait WeightInfo {
    fn note_preimage(&self, s: u32) -> Weight;

    fn note_requested_preimage(&self, s: u32) -> Weight;

    fn note_no_deposit_preimage(&self, s: u32) -> Weight;

    fn unnote_preimage(&self) -> Weight;

    fn unnote_no_deposit_preimage(&self) -> Weight;

    fn request_preimage(&self) -> Weight;

    fn request_no_deposit_preimage(&self) -> Weight;

    fn request_unnoted_preimage(&self) -> Weight;

    fn request_requested_preimage(&self) -> Weight;

    fn unrequest_preimage(&self) -> Weight;

    fn unrequest_unnoted_preimage(&self) -> Weight;

    fn unrequest_multi_referenced_preimage(&self) -> Weight;
}

/// Weights for pallet_preimage using the Substrate node and recommended hardware.
#[derive(Clone, Copy, PartialEq, Eq, Structural, Debug)]
pub struct SubstrateWeight {
    /// What the reads and writes of the database cost in the runtime.
    pub db_weight: RuntimeDbWeight,
}

impl SubstrateWeight {
    /// The weight of a call, put together from its parts.
    fn weigh(&self, base: u64, per_byte: u64, s: u32, reads: u64, writes: u64) -> (weight: Weight)
        ensures
            weight == preimage_weight(
                self.db_weight,
                base as int,
                per_byte as int,
                s as int,
                reads as int,
                writes as int,
            ),
    {
        assert(per_byte * s >= 0 && self.db_weight.read * reads >= 0 && self.db_weight.write
            * writes >= 0) by (nonlinear_arith);
        Weight::from_parts(base, 3556).saturating_add(
            Weight::from_parts(per_byte, 0).saturating_mul(s as u64),
        ).saturating_add(self.db_weight.reads(reads)).saturating_add(self.db_weight.writes(writes))
    }
}

impl WeightInfo for SubstrateWeight {
    /// Storage: Preimage StatusFor (r:1 w:1)
    /// Storage: Preimage PreimageFor (r:0 w:1)
    /// The range of component `s` is `[0, 4194304]`.
    fn note_preimage(&self, s: u32) -> (weight: Weight)
        ensures
            weight == preimage_weight(self.db_weight, 23_381_775, 1_670, s as int, 1, 2),
    {
        self.weigh(23_381_775, 1_670, s, 1, 2)
    }

    /// Storage: Preimage StatusFor (r:1 w:1)
    /// Storage: Preimage PreimageFor (r:0 w:1)
    /// The range of component `s` is `[0, 4194304]`.
    fn note_requested_preimage(&self, s: u32) -> (weight: Weight)
        ensures
            weight == preimage_weight(self.db_weight, 18_393_879, 1_669, s as int, 1, 2),
    {
        self.weigh(18_393_879, 1_669, s, 1, 2)
    }

    /// Storage: Preimage StatusFor (r:1 w:1)
    /// Storage: Preimage PreimageFor (r:0 w:1)
    /// The range of component `s` is `[0, 4194304]`.
    fn note_no_deposit_preimage(&self, s: u32) -> (weight: Weight)
        ensures
            weight == preimage_weight(self.db_weight, 22_031_627, 1_672, s as int, 1, 2),
    {
        self.weigh(22_031_627, 1_672, s, 1, 2)
    }

    /// Storage: Preimage StatusFor (r:1 w:1)
    /// Storage: Preimage PreimageFor (r:0 w:1)
    fn unnote_preimage(&self) -> (weight: Weight)
        ensures
            weight == preimage_weight(self.db_weight, 40_247_000, 0, 0, 1, 2),
    {
        self.weigh(40_247_000, 0, 0, 1, 2)
    }

    /// Storage: Preimage StatusFor (r:1 w:1)
    /// Storage: Preimage PreimageFor (r:0 w:1)
    fn unnote_no_deposit_preimage(&self) -> (weight: Weight)
        ensures
            weight == preimage_weight(self.db_weight, 21_572_000, 0, 0, 1, 2),
    {
        self.weigh(21_572_000, 0, 0, 1, 2)
    }

    /// Storage: Preimage StatusFor (r:1 w:1)
    fn request_preimage(&self) -> (weight: Weight)
        ensures
            weight == preimage_weight(self.db_weight, 18_899_000, 0, 0, 1, 1),
    {
        self.weigh(18_899_000, 0, 0, 1, 1)
    }

    /// Storage: Preimage StatusFor (r:1 w:1)
    fn request_no_deposit_preimage(&self) -> (weight: Weight)
        ensures
            weight == preimage_weight(self.db_weight, 11_667_000, 0, 0, 1, 1),
    {
        self.weigh(11_667_000, 0, 0, 1, 1)
    }

    /// Storage: Preimage StatusFor (r:1 w:1)
    fn request_unnoted_preimage(&self) -> (weight: Weight)
        ensures
            weight == preimage_weight(self.db_weight, 14_652_000, 0, 0, 1, 1),
    {
        self.weigh(14_652_000, 0, 0, 1, 1)
    }

    /// Storage: Preimage StatusFor (r:1 w:1)
    fn request_requested_preimage(&self) -> (weight: Weight)
        ensures
            weight == preimage_weight(self.db_weight, 8_969_000, 0, 0, 1, 1),
    {
        self.weigh(8_969_000, 0, 0, 1, 1)
    }

    /// Storage: Preimage StatusFor (r:1 w:1)
    /// Storage: Preimage PreimageFor (r:0 w:1)
    fn unrequest_preimage(&self) -> (weight: Weight)
        ensures
            weight == preimage_weight(self.db_weight, 18_946_000, 0, 0, 1, 2),
    {
        self.weigh(18_946_000, 0, 0, 1, 2)
    }

    /// Storage: Preimage StatusFor (r:1 w:1)
    fn unrequest_unnoted_preimage(&self) -> (weight: Weight)
        ensures
            weight == preimage_weight(self.db_weight, 8_272_000, 0, 0, 1, 1),
    {
        self.weigh(8_272_000, 0, 0, 1, 1)
    }

    /// Storage: Preimage StatusFor (r:1 w:1)
    fn unrequest_multi_referenced_preimage(&self) -> (weight: Weight)
        ensures
            weight == preimage_weight(self.db_weight, 8_504_000, 0, 0, 1, 1),
    {
        self.weigh(8_504_000, 0, 0, 1, 1)
    }
}

} // verus!
