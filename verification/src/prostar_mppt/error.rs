//! What can go wrong, and during which operation.

use vstd::prelude::*;
use crate::prostar_mppt::coil::Coil;
use crate::prostar_mppt::field::Field;
use crate::prostar_mppt::field::Range;

verus! {

/// An exchange with the controller.
#[derive(Debug, Clone, Copy, PartialEq, Eq, Structural)]
pub enum Operation {
    /// Reading the telemetry block.
    ReadStats,
    /// Reading the configuration block, to learn the configuration.
    ReadSettings,
    /// Reading the configuration block, to find what a new configuration changes.
    ReadCurrentSettings,
    /// Writing the register of one field of the configuration.
    WriteSetting(Field),
    ReadCoil(Coil),
    WriteCoil(Coil),
}

/// Why an operation did not succeed.
#[derive(Debug, Clone, Copy, PartialEq, Eq, Structural)]
pub enum Error {
    /// The transport reported a failure.
    Transport(Operation),
    /// The transport answered with another number of registers or bits than asked for.
    WrongSize { operation: Operation, expected: usize, found: usize },
    /// A field of a configuration has a value outside the range that the field requires.
    OutOfRange { field: Field, range: Range },
}

} // verus!
