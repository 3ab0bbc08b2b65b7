//! The coils of the controller: single bits that command an action or hold a switch.

use vstd::prelude::*;

verus! {

/// A coil of the controller.
#[derive(Debug, Clone, Copy, PartialEq, Eq, Structural, Hash)]
pub enum Coil {
    EqualizeTriggered,
    LoadDisconnect,
    ChargeDisconnect,
    ClearAhResettable,
    ClearAhTotal,
    ClearKwhResettable,
    ClearFaults,
    ClearAlarms,
    ForceEEPROMUpdate,
    ClearKwhTotal,
    ClearVbMinMax,
    LightingModeTest,
    FactoryReset,
    ResetControl,
}

impl Coil {
    /// The address of the coil's bit.
    pub open spec fn spec_address(&self) -> u16 {
        match self {
            Coil::EqualizeTriggered => 0x0000,
            Coil::LoadDisconnect => 0x0001,
            Coil::ChargeDisconnect => 0x0002,
            Coil::ClearAhResettable => 0x0010,
            Coil::ClearAhTotal => 0x0011,
            Coil::ClearKwhResettable => 0x0012,
            Coil::ClearFaults => 0x0014,
            Coil::ClearAlarms => 0x0015,
            Coil::ForceEEPROMUpdate => 0x0016,
            Coil::ClearKwhTotal => 0x0018,
            Coil::ClearVbMinMax => 0x0019,
            Coil::LightingModeTest => 0x0020,
            Coil::FactoryReset => 0x00FE,
            Coil::ResetControl => 0x00FF,
        }
    }

    /// The address of the coil's bit.
    #[verifier::when_used_as_spec(spec_address)]
    pub fn address(&self) -> (address: u16)
        ensures
            address == self.spec_address(),
            address <= 0x00FF,
    {
        match self {
            Coil::EqualizeTriggered => 0x0000,
            Coil::LoadDisconnect => 0x0001,
            Coil::ChargeDisconnect => 0x0002,
            Coil::ClearAhResettable => 0x0010,
            Coil::ClearAhTotal => 0x0011,
            Coil::ClearKwhResettable => 0x0012,
            Coil::ClearFaults => 0x0014,
            Coil::ClearAlarms => 0x0015,
            Coil::ForceEEPROMUpdate => 0x0016,
            Coil::ClearKwhTotal => 0x0018,
            Coil::ClearVbMinMax => 0x0019,
            Coil::LightingModeTest => 0x0020,
            Coil::FactoryReset => 0x00FE,
            Coil::ResetControl => 0x00FF,
        }
    }

    /// No two coils share an address.
    pub proof fn lemma_addresses_differ(self, other: Coil)
        ensures
            self.spec_address() == other.spec_address() ==> self == other,
    {
    }
}

} // verus!
