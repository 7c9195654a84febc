//! Interrupt ownership and configuration for an MCAN-style CAN controller.
//!
//! The controller signals thirty interrupt conditions through one shared
//! 30-bit pending-flags register and routes them onto two interrupt lines.
//! This crate partitions those flags between independent pieces of driver
//! code: every flag bit is owned by exactly one capability token
//! ([`owned::OwnedInterruptSet`]), and every read, clear or reconfiguration
//! is masked to the bits the acting token owns, so disjoint tokens can be
//! used concurrently without disturbing one another.
//!
//! The memory-mapped registers themselves are represented by the plain
//! value type [`regs::InterruptRegs`]; the environment that performs the
//! actual volatile accesses mirrors that value onto the hardware.

pub mod config;
pub mod flags;
pub mod interrupt;
pub mod owned;
pub mod regs;
pub mod state;
