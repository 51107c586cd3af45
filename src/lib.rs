//! A registry of hotel timeshare tokens: one administrator mints tokens that
//! carry a hotel, a room and a week, and each token's owner may hand it on.
//!
//! The registry is a state machine over plain values. The host that runs it
//! supplies persistence, the proof that a caller is who it claims to be, and
//! logging; the registry decides everything else.

pub mod laws;
pub mod registry;
pub mod types;

pub use registry::HotelTimeshareContract;
pub use types::{Address, DataKey, RegistryError, TimeshareInfo};
