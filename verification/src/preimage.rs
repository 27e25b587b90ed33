//! The preimage pallet.

pub mod weights;
