//! Builds the instructions of a multi-hop swap demonstration: token mints,
//! constant-product pools between neighbouring mints, a swap chain through
//! them, and an address lookup table that shortens the final v0 message.
pub mod sdk;
pub mod token_helpers;
pub mod token_swap_harness;
pub mod workflow;
