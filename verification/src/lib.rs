//! Logic of a Substrate node, stated and proved: the front end of the pallet
//! macro, the weights of the preimage pallet, and the replies of the Serai
//! RPC.

pub mod pallet;
pub mod preimage;
pub mod serai;
