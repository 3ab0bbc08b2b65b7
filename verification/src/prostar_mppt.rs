//! The ProStar MPPT family of charge controllers.
//!
//! `Stats` is what the controller measures and `Settings` is how it is configured;
//! both are read from blocks of registers. `Connection` sequences the exchanges that
//! read and write them.

pub mod coil;
pub mod connection;
pub mod error;
pub mod faults;
pub mod field;
pub mod plan;
pub mod quantity;
pub mod register;
pub mod settings;
pub mod state;
pub mod stats;

pub use coil::Coil;
pub use connection::Connection;
pub use error::Error;
pub use faults::Alarms;
pub use faults::ArrayFaults;
pub use faults::LoadFaults;
pub use settings::Settings;
pub use state::ChargeState;
pub use state::LoadState;
pub use stats::Stats;
