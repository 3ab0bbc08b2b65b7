//! The operating states that the controller reports for its charger and for its load
//! output.
//!
//! The controller reports a state as a small code. Firmware may report a code that
//! this crate has no name for; such a code is kept, never refused.

use vstd::prelude::*;
use vstd::std_specs::convert::FromSpecImpl;

verus! {

/// The state of the battery charger.
#[derive(Debug, Clone, Copy, PartialEq, Eq, Structural, PartialOrd, Ord, Hash)]
pub enum ChargeState {
    /// A code without a name, carried as reported.
    UnknownState(u16),
    Start,
    NightCheck,
    Disconnect,
    Night,
    Fault,
    BulkMPPT,
    Absorption,
    Float,
    Equalize,
    Slave,
    Fixed,
}

/// The state of the load output.
#[derive(Debug, Clone, Copy, PartialEq, Eq, Structural, PartialOrd, Ord, Hash)]
pub enum LoadState {
    /// A code without a name, carried as reported.
    Unknown(u16),
    Start,
    LVDWarning,
    LVD,
    Fault,
    Disconnect,
    NormalOff,
    Override,
    Normal,
    NotUsed,
}

impl ChargeState {
    /// The state that the controller means by `code`.
    pub open spec fn of_code(code: u16) -> ChargeState {
        if code == 0 {
            ChargeState::Start
        } else if code == 1 {
            ChargeState::NightCheck
        } else if code == 2 {
            ChargeState::Disconnect
        } else if code == 3 {
            ChargeState::Night
        } else if code == 4 {
            ChargeState::Fault
        } else if code == 5 {
            ChargeState::BulkMPPT
        } else if code == 6 {
            ChargeState::Absorption
        } else if code == 7 {
            ChargeState::Float
        } else if code == 8 {
            ChargeState::Equalize
        } else if code == 9 {
            ChargeState::Slave
        } else if code == 10 {
            ChargeState::Fixed
        } else {
            ChargeState::UnknownState(code)
        }
    }

    /// The code that the controller reports for a state.
    pub open spec fn code_of(self) -> u16 {
        match self {
            ChargeState::UnknownState(code) => code,
            ChargeState::Start => 0,
            ChargeState::NightCheck => 1,
            ChargeState::Disconnect => 2,
            ChargeState::Night => 3,
            ChargeState::Fault => 4,
            ChargeState::BulkMPPT => 5,
            ChargeState::Absorption => 6,
            ChargeState::Float => 7,
            ChargeState::Equalize => 8,
            ChargeState::Slave => 9,
            ChargeState::Fixed => 10,
        }
    }

    /// The code that the controller reports for a state.
    pub fn code(self) -> (code: u16)
        ensures
            code == self.code_of(),
    {
        match self {
            ChargeState::UnknownState(code) => code,
            ChargeState::Start => 0,
            ChargeState::NightCheck => 1,
            ChargeState::Disconnect => 2,
            ChargeState::Night => 3,
            ChargeState::Fault => 4,
            ChargeState::BulkMPPT => 5,
            ChargeState::Absorption => 6,
            ChargeState::Float => 7,
            ChargeState::Equalize => 8,
            ChargeState::Slave => 9,
            ChargeState::Fixed => 10,
        }
    }

    /// Every code names a state, a code above 10 names the state that carries it, and
    /// the state gives the code back.
    pub proof fn lemma_every_code_is_kept(code: u16)
        ensures
            ChargeState::of_code(code).code_of() == code,
            code > 10 ==> ChargeState::of_code(code) == ChargeState::UnknownState(code),
            code <= 10 ==> !(ChargeState::of_code(code) is UnknownState),
    {
    }
}

impl From<u16> for ChargeState {
    /// The state that the controller means by `code`. No code is refused: one without
    /// a name gives `UnknownState` with the code in it.
    fn from(code: u16) -> (state: ChargeState)
        ensures
            state == ChargeState::of_code(code),
            state.code_of() == code,
            code > 10 ==> state == ChargeState::UnknownState(code),
    {
        match code {
            0 => ChargeState::Start,
            1 => ChargeState::NightCheck,
            2 => ChargeState::Disconnect,
            3 => ChargeState::Night,
            4 => ChargeState::Fault,
            5 => ChargeState::BulkMPPT,
            6 => ChargeState::Absorption,
            7 => ChargeState::Float,
            8 => ChargeState::Equalize,
            9 => ChargeState::Slave,
            10 => ChargeState::Fixed,
            other => ChargeState::UnknownState(other),
        }
    }
}

impl FromSpecImpl<u16> for ChargeState {
    open spec fn obeys_from_spec() -> bool {
        true
    }

    open spec fn from_spec(code: u16) -> ChargeState {
        ChargeState::of_code(code)
    }
}

impl Default for ChargeState {
    fn default() -> (state: ChargeState)
        ensures
            state == ChargeState::UnknownState(0),
    {
        ChargeState::UnknownState(0)
    }
}

impl LoadState {
    /// The state that the controller means by `code`.
    pub open spec fn of_code(code: u16) -> LoadState {
        if code == 0 {
            LoadState::Start
        } else if code == 1 {
            LoadState::Normal
        } else if code == 2 {
            LoadState::LVDWarning
        } else if code == 3 {
            LoadState::LVD
        } else if code == 4 {
            LoadState::Fault
        } else if code == 5 {
            LoadState::Disconnect
        } else if code == 6 {
            LoadState::NormalOff
        } else if code == 7 {
            LoadState::Override
        } else if code == 8 {
            LoadState::NotUsed
        } else {
            LoadState::Unknown(code)
        }
    }

    /// The code that the controller reports for a state.
    pub open spec fn code_of(self) -> u16 {
        match self {
            LoadState::Unknown(code) => code,
            LoadState::Start => 0,
            LoadState::Normal => 1,
            LoadState::LVDWarning => 2,
            LoadState::LVD => 3,
            LoadState::Fault => 4,
            LoadState::Disconnect => 5,
            LoadState::NormalOff => 6,
            LoadState::Override => 7,
            LoadState::NotUsed => 8,
        }
    }

    /// The code that the controller reports for a state.
    pub fn code(self) -> (code: u16)
        ensures
            code == self.code_of(),
    {
        match self {
            LoadState::Unknown(code) => code,
            LoadState::Start => 0,
            LoadState::Normal => 1,
            LoadState::LVDWarning => 2,
            LoadState::LVD => 3,
            LoadState::Fault => 4,
            LoadState::Disconnect => 5,
            LoadState::NormalOff => 6,
            LoadState::Override => 7,
            LoadState::NotUsed => 8,
        }
    }

    /// Every code names a state, a code above 8 names the state that carries it, and
    /// the state gives the code back.
    pub proof fn lemma_every_code_is_kept(code: u16)
        ensures
            LoadState::of_code(code).code_of() == code,
            code > 8 ==> LoadState::of_code(code) == LoadState::Unknown(code),
            code <= 8 ==> !(LoadState::of_code(code) is Unknown),
    {
    }
}

impl From<u16> for LoadState {
    /// The state that the controller means by `code`. No code is refused: one without
    /// a name gives `Unknown` with the code in it.
    fn from(code: u16) -> (state: LoadState)
        ensures
            state == LoadState::of_code(code),
            state.code_of() == code,
            code > 8 ==> state == LoadState::Unknown(code),
    {
        match code {
            0 => LoadState::Start,
            1 => LoadState::Normal,
            2 => LoadState::LVDWarning,
            3 => LoadState::LVD,
            4 => LoadState::Fault,
            5 => LoadState::Disconnect,
            6 => LoadState::NormalOff,
            7 => LoadState::Override,
            8 => LoadState::NotUsed,
            other => LoadState::Unknown(other),
        }
    }
}

impl FromSpecImpl<u16> for LoadState {
    open spec fn obeys_from_spec() -> bool {
        true
    }

    open spec fn from_spec(code: u16) -> LoadState {
        LoadState::of_code(code)
    }
}

impl Default for LoadState {
    fn default() -> (state: LoadState)
        ensures
            state == LoadState::Unknown(0),
    {
        LoadState::Unknown(0)
    }
}

} // verus!
