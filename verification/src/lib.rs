//! Typestate hardware abstraction layer for the LPC82x family, built on a
//! register-level model of the device.
//!
//! Every peripheral handle carries its operational state in its type
//! ([`init_state::Disabled`] or [`init_state::Enabled`]). State transitions
//! consume the handle and return one of the other state, so an operation that
//! is only valid while the peripheral is enabled cannot be named on a disabled
//! handle. The contracts in this crate say what each transition does to the
//! registers modelled in [`pac`] and to the clock gates held by
//! [`syscon::Handle`].
//!
//! The core is the DMA controller in [`dma`]: the controller, its channels
//! and the descriptor table that they share. [`usart`] is a driver built on
//! the same protocol, whose transmitter can be the destination of a DMA
//! transfer.
//!
//! A handle is owned by one piece of code at a time, which rules out two
//! parts of the main program driving the same peripheral. Interrupt handlers
//! are not modelled: no contract here covers a handler that touches the
//! registers of a peripheral whose handle the main program holds.

pub mod deps;
pub mod dma;
pub mod init_state;
pub mod pac;
pub mod syscon;
pub mod usart;
