//! Polling driver for a flash memory controller with a secure and a
//! non-secure register alias.
//!
//! The controller is reached through the [`regs::FlashRegs`] interface, whose
//! contracts describe the register file as an abstract [`regs::HwState`].
//! Every operation of [`driver`] is specified as an exact transformation of
//! that state.
pub mod types;
pub mod regs;
pub mod sim;
pub mod driver;
pub mod laws;
