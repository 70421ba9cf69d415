//! The DMA controller.

use crate::dma::channels::{all_in_state, channel_set, ChannelView, Channels};
use crate::dma::descriptors::{
    ChannelDescriptor, DescriptorTable, CHANNELS, TABLE_ALIGNMENT, TABLE_BASE,
};
use crate::init_state::{Disabled, Enabled, InitState};
use crate::pac::dma0::{Registers, Write, CTRL_ENABLE, DMA0, DMA_CLOCK_BIT};
use crate::syscon::{gate, ClockControl, Handle};
use vstd::prelude::*;

verus! {

/// Entry point to the DMA API.
pub struct DMA<State: InitState> {
    dma: DMA0,
    srambase: u32,
    channels: Channels<State>,
}

/// What a [`DMA`] holds.
pub struct DmaView {
    /// Whether the controller's handle is in the enabled state.
    pub enabled: bool,
    /// The controller's register block.
    pub registers: Registers,
    /// Address of the descriptor table that the controller is bound to.
    pub table_base: u32,
    /// The channels.
    pub channels: Seq<ChannelView>,
}

impl DmaView {
    /// Whether this is a state that a controller can be in: it is bound to
    /// the descriptor table, its channels are a full set in the controller's
    /// own state, and while it is enabled its clock runs, its table-base
    /// register holds the table's address and its master enable is set.
    pub open spec fn wf(self) -> bool {
        &&& self.table_base == TABLE_BASE
        &&& channel_set(self.channels, self.enabled)
        &&& self.enabled ==> {
            &&& self.registers.clock
            &&& self.registers.srambase == self.table_base
            &&& self.registers.master_enabled()
        }
    }

    /// The controller after it is enabled: with its clock running, the
    /// table's address is written to the table-base register, then the master
    /// enable is written, and every channel is enabled.
    pub open spec fn enable(self) -> DmaView {
        DmaView {
            enabled: true,
            registers: (Registers { clock: true, ..self.registers }).write_srambase(
                self.table_base,
            ).write_ctrl(CTRL_ENABLE),
            table_base: self.table_base,
            channels: all_in_state(self.channels, true),
        }
    }

    /// The controller after it is disabled: its clock is stopped and every
    /// channel is disabled. No register is written.
    pub open spec fn disable(self) -> DmaView {
        DmaView {
            enabled: false,
            registers: Registers { clock: false, ..self.registers },
            table_base: self.table_base,
            channels: all_in_state(self.channels, false),
        }
    }
}

impl<State: InitState> View for DMA<State> {
    type V = DmaView;

    closed spec fn view(&self) -> DmaView {
        DmaView {
            enabled: State::enabled(),
            registers: self.dma@,
            table_base: self.srambase,
            channels: self.channels@,
        }
    }
}

impl DMA<Disabled> {
    /// Takes over the controller's register block and binds the descriptor
    /// table and the channels to it. The controller is disabled; the
    /// registers are not touched.
    pub fn new(dma: DMA0) -> (controller: DMA<Disabled>)
        ensures
            controller@.wf(),
            !controller@.enabled,
            controller@.registers == dma@,
            controller@.table_base == TABLE_BASE,
            controller@.table_base % TABLE_ALIGNMENT == 0,
            forall|i: int|
                0 <= i < CHANNELS ==> #[trigger] controller@.channels[i] == (ChannelView {
                    index: i as nat,
                    slot: ChannelDescriptor::empty(),
                    enableset: false,
                    enabled: false,
                }),
    {
        let descriptors = DescriptorTable::new();
        let srambase: u32 = descriptors.base_addr();
        DMA { dma, srambase, channels: Channels::new(descriptors) }
    }

    /// Enables the DMA controller.
    ///
    /// Opens the controller's clock gate, writes the descriptor table's
    /// address to the table-base register, sets the master enable, and
    /// enables every channel, in this order.
    pub fn enable(self, syscon: &mut Handle) -> (controller: DMA<Enabled>)
        ensures
            controller@ == self@.enable(),
            self@.wf() ==> controller@.wf(),
            final(syscon)@ == gate(old(syscon)@, DMA_CLOCK_BIT, true),
    {
        let mut dma = self.dma;
        proof {
            dma.lemma_with_clock(true);
        }
        syscon.enable_clock(&mut dma);
        dma.write_srambase(self.srambase);
        dma.write_ctrl(CTRL_ENABLE);
        assert(CTRL_ENABLE & CTRL_ENABLE != 0) by (bit_vector)
            requires
                CTRL_ENABLE == 1,
        ;
        DMA { dma, srambase: self.srambase, channels: self.channels.enable() }
    }
}

impl DMA<Enabled> {
    /// Disables the DMA controller.
    ///
    /// Closes the controller's clock gate and disables every channel. The
    /// table-base register keeps its value.
    pub fn disable(self, syscon: &mut Handle) -> (controller: DMA<Disabled>)
        ensures
            controller@ == self@.disable(),
            self@.wf() ==> controller@.wf(),
            final(syscon)@ == gate(old(syscon)@, DMA_CLOCK_BIT, false),
    {
        let mut dma = self.dma;
        proof {
            dma.lemma_with_clock(false);
        }
        syscon.disable_clock(&mut dma);
        DMA { dma, srambase: self.srambase, channels: self.channels.disable() }
    }
}

impl<State: InitState> DMA<State> {
    /// The state of the handle is the state that its type names, and every
    /// channel is in that state too, whatever was done with the channels.
    pub proof fn lemma_state(&self)
        ensures
            self@.enabled == State::enabled(),
            forall|i: int|
                0 <= i < self@.channels.len() ==> (#[trigger] self@.channels[i]).enabled
                    == self@.enabled,
    {
        self.channels.lemma_state();
    }

    /// The DMA channels.
    pub fn channels(&self) -> (channels: &Channels<State>)
        ensures
            channels@ == self@.channels,
    {
        &self.channels
    }

    /// Exclusive access to the DMA channels. Whatever is done through it, the
    /// controller's registers and its binding to the descriptor table stay as
    /// they are.
    pub fn channels_mut(&mut self) -> (channels: &mut Channels<State>)
        ensures
            channels@ == old(self)@.channels,
            final(self)@ == (DmaView { channels: final(channels)@, ..old(self)@ }),
    {
        &mut self.channels
    }

    /// Returns the raw peripheral.
    ///
    /// This is the way out of this API, open in every state. Nothing that
    /// this crate guarantees holds of what is done with the register block
    /// afterwards.
    pub fn free(self) -> (dma: DMA0)
        ensures
            dma@ == self@.registers,
    {
        self.dma
    }

    /// Whether the controller is enabled.
    pub fn is_enabled(&self) -> (on: bool)
        ensures
            on == self@.enabled,
    {
        State::is_enabled()
    }

    /// The controller's register block, to look at.
    pub fn registers(&self) -> (dma: &DMA0)
        ensures
            dma@ == self@.registers,
    {
        &self.dma
    }

    /// Address of the descriptor table that the controller is bound to.
    pub fn table_base(&self) -> (addr: u32)
        ensures
            addr == self@.table_base,
    {
        self.srambase
    }
}

/// Enabling a controller that is in a valid state leaves it in a valid state,
/// and so does disabling it: at no time is a channel in another state than
/// the controller.
pub proof fn lemma_channels_track_controller(dma: DmaView)
    requires
        dma.wf(),
    ensures
        dma.enable().wf(),
        dma.disable().wf(),
        forall|i: int| 0 <= i < dma.channels.len() ==> (#[trigger] dma.channels[i]).enabled == dma.enabled,
        forall|i: int|
            0 <= i < dma.channels.len() ==> (#[trigger] dma.enable().channels[i]).enabled,
        forall|i: int|
            0 <= i < dma.channels.len() ==> !(#[trigger] dma.disable().channels[i]).enabled,
        dma.enable().channels.len() == dma.channels.len(),
        dma.disable().channels.len() == dma.channels.len(),
{
    assert(CTRL_ENABLE & CTRL_ENABLE != 0) by (bit_vector)
        requires
            CTRL_ENABLE == 1,
    ;
}

/// Enabling the controller writes the table-base register and then the master
/// enable: these are its last two register writes, in this order, and the
/// writes before them are the ones made before. Both writes reach the block
/// whether or not its clock was running before, because the clock is started
/// first.
pub proof fn lemma_enable_writes_table_base_first(dma: DmaView)
    ensures
        dma.enable().registers.writes == dma.registers.writes + seq![
            Write::Srambase(dma.table_base),
            Write::Ctrl(CTRL_ENABLE),
        ],
{
    assert(dma.enable().registers.writes =~= dma.registers.writes + seq![
        Write::Srambase(dma.table_base),
        Write::Ctrl(CTRL_ENABLE),
    ]);
}

/// Enabling, disabling and enabling again binds the controller to the same
/// descriptor table as enabling once: the table's address and the table-base
/// register are the same, and so is every channel. After the disable in
/// between, every channel is disabled.
pub proof fn lemma_reenable(dma: DmaView)
    requires
        dma.wf(),
        !dma.enabled,
    ensures
        dma.enable().disable().enable().table_base == dma.table_base,
        dma.enable().disable().enable().registers.srambase == dma.enable().registers.srambase,
        dma.enable().registers.srambase == dma.table_base,
        dma.enable().disable().registers.srambase == dma.table_base,
        dma.enable().disable().enable().channels == dma.enable().channels,
        dma.enable().disable().channels == dma.channels,
        forall|i: int|
            0 <= i < dma.channels.len() ==> !(#[trigger] dma.enable().disable().channels[i]).enabled,
{
    assert(dma.enable().disable().enable().channels =~= dma.enable().channels);
    assert(dma.enable().disable().channels =~= dma.channels);
}

} // verus!
