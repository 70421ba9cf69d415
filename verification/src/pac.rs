//! Register-level model of the device.
//!
//! Each type here stands for one register block of the microcontroller and
//! holds the values of the registers that this crate drives. A block also
//! knows whether its clock is running: its registers can only be accessed
//! while it is. The types are created in their state after reset and are
//! handed to the drivers of this crate, which return them from `free`.

pub mod dma0;
pub mod nvic;
pub mod usart0;

pub use dma0::DMA0;
pub use nvic::{Interrupt, NVIC};
pub use usart0::{USART0, USART1, USART2};
