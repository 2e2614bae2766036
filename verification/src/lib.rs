//! Early-userspace boot environment logic: the ordered bring-up sequence,
//! decoding of the firmware's boot entry, and the search for the EFI System
//! Partition the firmware booted from.
//!
//! The crate performs no I/O. Every decision is a function from plain values
//! to plain values; a driver performs the requested operations (mounts, reads
//! of firmware variables, probes of the device filesystem) and reports back.

pub mod config;
pub mod error;
pub mod guid;
pub mod wire;
pub mod device_path;
pub mod encoding;
pub mod text;
pub mod boot_entry;
pub mod protocol;
pub mod matcher;
pub mod matcher_laws;
pub mod sequencer;
pub mod sequencer_laws;
