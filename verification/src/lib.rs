//! Core logic of a BLE temperature peripheral: the bonding/security store,
//! the GATT characteristic service and server dispatch, the periodic
//! sampling and notification steps, and the advertising/connection loop
//! state machine. The radio stack, timers and hardware initialization are
//! platform services that a thin runtime drives around this library.

pub mod shared;
pub mod sysattrs;
pub mod bonding;
pub mod service;
pub mod sampling;
pub mod notify;
pub mod connloop;

pub use shared::BLEConnect;
