//! The DMA channels.

use crate::dma::descriptors::{
    slot_address, ChannelDescriptor, DescriptorTable, CHANNELS, SLOT_SIZE, TABLE_BASE,
};
use crate::dma::transfer::{Buffer, Dest, Region};
use crate::init_state::{Disabled, Enabled, InitState};
use vstd::prelude::*;

verus! {

/// Control bits of every transfer that this crate starts: the configuration
/// is valid, the trigger is cleared when the transfer completes, bytes are
/// moved, the source address advances and the destination address does not.
pub const TRANSFER_CONTROL: u32 = 0x1009;

/// Factor that moves the transfer count into its place in the configuration
/// word.
pub const TRANSFER_COUNT_UNIT: u32 = 0x1_0000;

/// The configuration word of a transfer of `len` bytes.
pub open spec fn transfer_config(len: nat) -> int {
    TRANSFER_CONTROL + (len - 1) * TRANSFER_COUNT_UNIT
}

/// Exclusive access to one DMA channel: its slot of the descriptor table and
/// its enable bit.
pub struct Channel<State: InitState> {
    index: usize,
    slot: ChannelDescriptor,
    enableset: bool,
    _state: State,
}

/// What a [`Channel`] holds.
pub struct ChannelView {
    /// The channel's number, which is the number of its slot.
    pub index: nat,
    /// The channel's slot of the descriptor table.
    pub slot: ChannelDescriptor,
    /// The channel's bit in `ENABLESET0`.
    pub enableset: bool,
    /// Whether the channel's handle is in the enabled state.
    pub enabled: bool,
}

impl ChannelView {
    /// The channel after a transfer from `source` to `dest_end` is started
    /// on it: the transfer stands in the slot and the enable bit is set.
    pub open spec fn started(self, source: Region, dest_end: u32) -> ChannelView {
        ChannelView {
            slot: ChannelDescriptor {
                config: transfer_config(source.len) as u32,
                source_end: source.end() as u32,
                dest_end,
                next_desc: self.slot.next_desc,
            },
            enableset: true,
            ..self
        }
    }

    /// The channel with its handle in the given state.
    pub open spec fn in_state(self, enabled: bool) -> ChannelView {
        ChannelView { enabled, ..self }
    }
}

impl<State: InitState> View for Channel<State> {
    type V = ChannelView;

    closed spec fn view(&self) -> ChannelView {
        ChannelView {
            index: self.index as nat,
            slot: self.slot,
            enableset: self.enableset,
            enabled: State::enabled(),
        }
    }
}

impl<State: InitState> Channel<State> {
    #[verifier::type_invariant]
    spec fn in_table(&self) -> bool {
        self.index < CHANNELS
    }

    /// The state of the handle is the state that its type names.
    pub proof fn lemma_state(&self)
        ensures
            self@.enabled == State::enabled(),
    {
    }

    /// Moves the handle to the state of the marker `state`. The slot and the
    /// enable bit stay as they are.
    fn into_state<To: InitState>(self, state: To) -> (channel: Channel<To>)
        ensures
            channel@ == self@.in_state(To::enabled()),
    {
        proof {
            use_type_invariant(&self);
        }
        Channel { index: self.index, slot: self.slot, enableset: self.enableset, _state: state }
    }

    /// The channel's number.
    pub fn index(&self) -> (index: usize)
        ensures
            index == self@.index,
    {
        self.index
    }

    /// The contents of the channel's slot of the descriptor table.
    pub fn descriptor(&self) -> (slot: ChannelDescriptor)
        ensures
            slot == self@.slot,
    {
        self.slot
    }

    /// The address of the channel's slot of the descriptor table.
    pub fn descriptor_addr(&self) -> (addr: u32)
        ensures
            addr == slot_address(self@.index),
            self@.index < CHANNELS,
    {
        proof {
            use_type_invariant(self);
        }
        assert(SLOT_SIZE * self.index <= 16 * 18) by (nonlinear_arith)
            requires
                self.index < 18,
                SLOT_SIZE == 16,
        ;
        TABLE_BASE + SLOT_SIZE * (self.index as u32)
    }

    /// Whether the channel's bit in `ENABLESET0` is set.
    pub fn is_set(&self) -> (on: bool)
        ensures
            on == self@.enableset,
    {
        self.enableset
    }

    /// Whether the handle is in the enabled state.
    pub fn is_enabled(&self) -> (on: bool)
        ensures
            on == self@.enabled,
    {
        State::is_enabled()
    }
}

impl Channel<Enabled> {
    /// Starts a transfer from `source` to `dest`, if `dest` is ready for one.
    ///
    /// Asks `dest` once whether its previous operation has finished, and then
    /// for its address. If it has finished, the transfer is written to the
    /// channel's slot and the channel's enable bit is set. If `dest` is busy
    /// or reports an error, that is returned and the channel is left as it
    /// was. Retrying is up to the caller.
    pub fn start_transfer<D: Dest>(&mut self, source: Buffer, dest: &mut D) -> (r: Result<
        (),
        nb::Error<D::Error>,
    >)
        ensures
            ({
                let (ready, asked) = old(dest).waited();
                let (dest_end, left) = asked.located();
                &&& r is Ok <==> ready is Ok
                &&& r is Err ==> r == ready
                &&& ready is Ok ==> final(self)@ == old(self)@.started(source@, dest_end)
                &&& ready is Err ==> final(self)@ == old(self)@
                &&& *final(dest) == left
            }),
    {
        let ready = dest.wait();
        let dest_end: u32 = dest.end_addr();
        self.start_transfer_with(ready, source, dest_end)
    }

    /// Starts a transfer from `source` to the address `dest_end`, given what
    /// the destination has answered when asked whether it is ready.
    ///
    /// With `Ok`, the transfer is written to the channel's slot and the
    /// channel's enable bit is set. With an error, the error is handed back
    /// and the channel is left as it was.
    pub fn start_transfer_with<E>(
        &mut self,
        ready: Result<(), nb::Error<E>>,
        source: Buffer,
        dest_end: u32,
    ) -> (r: Result<(), nb::Error<E>>)
        ensures
            r is Ok <==> ready is Ok,
            r is Err ==> r == ready,
            ready is Ok ==> final(self)@ == old(self)@.started(source@, dest_end),
            ready is Err ==> final(self)@ == old(self)@,
    {
        proof {
            use_type_invariant(&*self);
        }
        match ready {
            Ok(()) => {
                let count: u32 = source.len() - 1;
                assert(count * TRANSFER_COUNT_UNIT <= 1023 * 0x1_0000) by (nonlinear_arith)
                    requires
                        count <= 1023,
                        TRANSFER_COUNT_UNIT == 0x1_0000,
                ;
                self.slot.config = TRANSFER_CONTROL + count * TRANSFER_COUNT_UNIT;
                self.slot.source_end = source.end();
                self.slot.dest_end = dest_end;
                self.enableset = true;
                Ok(())
            },
            Err(e) => Err(e),
        }
    }
}

/// The channels of the DMA controller, all in the same state.
pub struct Channels<State: InitState> {
    channels: Vec<Channel<State>>,
}

impl<State: InitState> View for Channels<State> {
    type V = Seq<ChannelView>;

    closed spec fn view(&self) -> Seq<ChannelView> {
        Seq::new(self.channels@.len(), |i: int| self.channels@[i]@)
    }
}

/// Whether `channels` is a full set: one channel per slot of the descriptor
/// table, channel `i` in place `i`, and every handle in the state `enabled`.
pub open spec fn channel_set(channels: Seq<ChannelView>, enabled: bool) -> bool {
    &&& channels.len() == CHANNELS
    &&& forall|i: int|
        0 <= i < channels.len() ==> (#[trigger] channels[i]).index == i && channels[i].enabled
            == enabled
}

/// The channels with every handle moved to the given state, and nothing else
/// changed.
pub open spec fn all_in_state(channels: Seq<ChannelView>, enabled: bool) -> Seq<ChannelView> {
    Seq::new(channels.len(), |i: int| channels[i].in_state(enabled))
}

impl Channels<Disabled> {
    /// Splits the descriptor table into channels: channel `i` gets slot `i`.
    /// The channels are disabled and their enable bits are clear.
    pub(crate) fn new(table: DescriptorTable) -> (channels: Channels<Disabled>)
        ensures
            channels.wf(),
            forall|i: int|
                0 <= i < CHANNELS ==> #[trigger] channels@[i] == (ChannelView {
                    index: i as nat,
                    slot: table@[i],
                    enableset: false,
                    enabled: false,
                }),
    {
        let mut channels: Vec<Channel<Disabled>> = Vec::new();
        let mut index: usize = 0;
        while index < CHANNELS
            invariant
                index <= CHANNELS,
                channels.len() == index,
                forall|i: int|
                    0 <= i < index ==> (#[trigger] channels@[i])@ == (ChannelView {
                        index: i as nat,
                        slot: table@[i],
                        enableset: false,
                        enabled: false,
                    }),
            decreases CHANNELS - index,
        {
            channels.push(
                Channel { index, slot: table.slot(index), enableset: false, _state: Disabled },
            );
            index += 1;
        }
        Channels { channels }
    }

    /// Moves every channel to the enabled state. Slots and enable bits stay
    /// as they are.
    pub(crate) fn enable(self) -> (channels: Channels<Enabled>)
        ensures
            channels@ == all_in_state(self@, true),
            self.wf() ==> channels.wf(),
    {
        self.into_state(Enabled(()))
    }
}

impl Channels<Enabled> {
    /// Moves every channel to the disabled state. Slots and enable bits stay
    /// as they are.
    pub(crate) fn disable(self) -> (channels: Channels<Disabled>)
        ensures
            channels@ == all_in_state(self@, false),
            self.wf() ==> channels.wf(),
    {
        self.into_state(Disabled)
    }
}

impl<State: InitState> Channels<State> {
    /// Whether this is a full set of channels in the state `State`.
    pub open spec fn wf(&self) -> bool {
        channel_set(self@, State::enabled())
    }

    /// Moves every channel to the state of the marker `state`, one after the
    /// other. Slots and enable bits stay as they are.
    fn into_state<To: InitState + Copy>(self, state: To) -> (channels: Channels<To>)
        ensures
            channels@ == all_in_state(self@, To::enabled()),
            self.wf() ==> channels.wf(),
    {
        let ghost before = self.channels@;
        let mut channels: Vec<Channel<To>> = Vec::new();
        for channel in iter: self.channels
            invariant
                iter.seq() == before,
                channels.len() == iter.index(),
                forall|i: int|
                    0 <= i < iter.index() ==> (#[trigger] channels@[i])@ == before[i]@.in_state(
                        To::enabled(),
                    ),
        {
            channels.push(channel.into_state(state));
        }
        let moved = Channels { channels };
        assert(moved@ =~= all_in_state(self@, To::enabled()));
        moved
    }

    /// Every handle of the set is in the state that the set's type names.
    pub proof fn lemma_state(&self)
        ensures
            forall|i: int| 0 <= i < self@.len() ==> (#[trigger] self@[i]).enabled == State::enabled(),
    {
    }

    /// Number of channels.
    pub fn len(&self) -> (n: usize)
        ensures
            n == self@.len(),
    {
        self.channels.len()
    }

    /// Channel `index`.
    pub fn channel(&self, index: usize) -> (channel: &Channel<State>)
        requires
            index < self@.len(),
        ensures
            channel@ == self@[index as int],
    {
        &self.channels[index]
    }

    /// Exclusive access to channel `index`. Whatever is done through the
    /// handle, the other channels stay as they are.
    pub fn channel_mut(&mut self, index: usize) -> (channel: &mut Channel<State>)
        requires
            index < old(self)@.len(),
        ensures
            channel@ == old(self)@[index as int],
            final(self)@ == old(self)@.update(index as int, final(channel)@),
    {
        &mut self.channels[index]
    }
}

/// Starting a transfer through the handle of one channel changes that
/// channel's slot and enable bit, and nothing else: the channel keeps its
/// number and state, every other channel is as before, and a full set stays
/// a full set.
pub proof fn lemma_transfer_touches_one_channel(
    channels: Seq<ChannelView>,
    index: int,
    source: Region,
    dest_end: u32,
)
    requires
        0 <= index < channels.len(),
    ensures
        ({
            let after = channels.update(index, channels[index].started(source, dest_end));
            &&& after.len() == channels.len()
            &&& after[index].index == channels[index].index
            &&& after[index].enabled == channels[index].enabled
            &&& forall|other: int|
                0 <= other < channels.len() && other != index ==> after[other] == channels[other]
            &&& forall|enabled: bool|
                channel_set(channels, enabled) ==> channel_set(after, enabled)
        }),
{
}

} // verus!
