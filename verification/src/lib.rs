//! Core of a USB-attached SPI bridge that shares one SPI bus between a flash
//! chip and an FPGA configuration port.
//!
//! The core never touches a register. It is handed what the drivers observed
//! and answers with the driver operations to perform next, so every decision
//! of the firmware is a function with a contract:
//!
//! * [`actions`]: the operations that the core asks the drivers to perform;
//! * [`app`]: the requests of the host, the dispatcher and the event loop;
//! * [`board`]: what the driver operations do to the bridge's outputs;
//! * [`hal::rcc`]: the clock bring-up sequence;
//! * [`hal::tree`]: what the writes of the bring-up do to the settings of the
//!   clock tree;
//! * [`hal::bootload`]: the flag that survives a reset, and the latch that
//!   reads it.

pub mod actions;
pub mod app;
pub mod board;
pub mod hal;
