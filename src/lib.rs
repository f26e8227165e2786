//! A small virtual cpu: an execution engine over four 16-bit registers,
//! a registry of devices with unique ids, and a word-addressed ram device.

pub mod bus;
pub mod cpu;
pub mod device;
pub mod instruction;
pub mod ram;
