//! Verified core of a tool that drives the CD321x USB-C port controller of
//! Apple silicon machines through vendor-defined messages (VDMs).
//!
//! The library holds the protocol logic; the program around it performs the
//! bus transfers, the file accesses and the waiting that the logic asks for.

pub mod error;
pub mod codec;
pub mod cd321x;
pub mod sequencer_laws;
pub mod operation_laws;
pub mod i2c;
pub mod text;
pub mod spmi;
pub mod cli;
pub mod sysfs;
