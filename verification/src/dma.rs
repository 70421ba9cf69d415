//! Direct memory access.
//!
//! The DMA controller moves data between memory and peripherals over a fixed
//! number of channels. Each channel reads its transfer from its own slot of a
//! descriptor table in memory, whose address the controller is told once.
//!
//! [`DMA`] is the controller. It owns the [`Channels`], and enabling or
//! disabling it enables or disables all of them. A driver borrows one
//! [`Channel`] from the set to start a transfer to a [`Dest`].

pub mod channels;
pub mod descriptors;
pub mod peripheral;
pub mod transfer;

pub use channels::{Channel, ChannelView, Channels};
pub use descriptors::{ChannelDescriptor, DescriptorTable};
pub use peripheral::{DmaView, DMA};
pub use transfer::{Buffer, Dest, Region};
