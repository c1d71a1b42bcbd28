//! Sequencers that sit next to the hardware: the clock bring-up and the
//! bootloader latch.

pub mod bootload;
pub mod rcc;
pub mod tree;
