//! Register-level codec, validation and transaction logic for Morningstar charge
//! controllers, with every function proved against its contract.
//!
//! The crate performs no input or output. A transport moves register words to and
//! from the device; this crate says which words to move and what they mean.

pub mod binary16;
pub mod prostar_mppt;
