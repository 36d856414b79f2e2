//! Verified core of a cycle-stepped NES emulator: the 6502 cpu, the motherboard
//! memory map, the emulator glue, the Game Genie code decoder and the state machines of
//! network play.
use vstd::prelude::*;

pub mod cpu;
pub mod devices;
pub mod emulator_data;
pub mod genie;
pub mod motherboard;
pub mod network;

verus! {

} // verus!
