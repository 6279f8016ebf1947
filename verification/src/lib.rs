//! Proximity monitoring over Bluetooth Low Energy advertisements.
//!
//! The library tracks a signal-strength baseline for a designated peer
//! device, classifies each observation against a drift threshold, and
//! recovers from stream stalls with an escalating restart policy.

pub mod discovery;
pub mod errors;
pub mod lock;
pub mod monitor;
pub mod settings;
pub mod shell;
pub mod supervisor;
