//! Core logic of a network-updatable blind-controller firmware: the A/B
//! over-the-air update slot manager (selector-entry codec, slot selection
//! policy, staged update session), the marker-guarded non-volatile value
//! storage, and the wrap-around system-time arithmetic. Hardware, network
//! and other I/O stay outside; everything here works on plain values and an
//! injected flash storage adapter.

pub mod checksum;
pub mod entry;
pub mod flash;
pub mod nvs;
pub mod ota;
pub mod partitions;
pub mod system_time;

use vstd::prelude::*;

verus! {

/// The reserved bit pattern meaning "no value": a sequence number of
/// `SENTINEL_SEQUENCE` says that no image was ever committed to the slot.
pub const SENTINEL_SEQUENCE: u32 = 0xFFFFFFFF;

} // verus!
