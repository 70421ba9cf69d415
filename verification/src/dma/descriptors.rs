//! The channel descriptor table.

use vstd::prelude::*;

verus! {

/// Number of DMA channels, and of slots in the descriptor table.
pub const CHANNELS: usize = 18;

/// Address of the descriptor table. The table lies at the start of SRAM for
/// as long as the program runs.
pub const TABLE_BASE: u32 = 0x1000_0000;

/// Alignment that the controller demands of the table's address.
pub const TABLE_ALIGNMENT: u32 = 512;

/// Size of one slot of the table in bytes.
pub const SLOT_SIZE: u32 = 16;

/// One slot of the descriptor table: the transfer of one channel, in the
/// layout that the controller reads.
#[derive(Clone, Copy, Debug, PartialEq, Eq)]
pub struct ChannelDescriptor {
    /// Transfer configuration: length and control bits.
    pub config: u32,
    /// Address of the last byte to read.
    pub source_end: u32,
    /// Address of the last byte to write.
    pub dest_end: u32,
    /// Address of the descriptor to go on with, or zero.
    pub next_desc: u32,
}

impl ChannelDescriptor {
    /// A slot that describes no transfer.
    pub open spec fn empty() -> ChannelDescriptor {
        ChannelDescriptor { config: 0, source_end: 0, dest_end: 0, next_desc: 0 }
    }
}

/// Address of slot `index` of the table.
pub open spec fn slot_address(index: nat) -> int {
    TABLE_BASE + SLOT_SIZE * index
}

/// The descriptor table: one slot per channel, slot `i` for channel `i`.
pub struct DescriptorTable {
    slots: Vec<ChannelDescriptor>,
}

impl View for DescriptorTable {
    type V = Seq<ChannelDescriptor>;

    closed spec fn view(&self) -> Seq<ChannelDescriptor> {
        self.slots@
    }
}

impl DescriptorTable {
    #[verifier::type_invariant]
    spec fn full(&self) -> bool {
        self.slots@.len() == CHANNELS
    }

    /// The table with every slot empty.
    pub fn new() -> (table: DescriptorTable)
        ensures
            table@.len() == CHANNELS,
            forall|i: int| 0 <= i < CHANNELS ==> table@[i] == ChannelDescriptor::empty(),
    {
        let mut slots: Vec<ChannelDescriptor> = Vec::new();
        while slots.len() < CHANNELS
            invariant
                slots.len() <= CHANNELS,
                forall|i: int| 0 <= i < slots.len() ==> slots@[i] == ChannelDescriptor::empty(),
            decreases CHANNELS - slots.len(),
        {
            slots.push(ChannelDescriptor { config: 0, source_end: 0, dest_end: 0, next_desc: 0 });
        }
        DescriptorTable { slots }
    }

    /// The table's address. It is fixed, and aligned as the controller
    /// demands.
    pub fn base_addr(&self) -> (addr: u32)
        ensures
            addr == TABLE_BASE,
            addr % TABLE_ALIGNMENT == 0,
    {
        TABLE_BASE
    }

    /// The contents of slot `index`.
    pub fn slot(&self, index: usize) -> (slot: ChannelDescriptor)
        requires
            index < CHANNELS,
        ensures
            slot == self@[index as int],
            self@.len() == CHANNELS,
    {
        proof {
            use_type_invariant(self);
        }
        self.slots[index]
    }

    /// Number of slots in the table.
    pub fn len(&self) -> (n: usize)
        ensures
            n == self@.len(),
            n == CHANNELS,
    {
        proof {
            use_type_invariant(self);
        }
        self.slots.len()
    }
}

} // verus!
