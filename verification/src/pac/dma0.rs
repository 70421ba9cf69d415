//! The DMA controller's register block.

use crate::syscon::ClockControl;
use vstd::prelude::*;

verus! {

/// Position of the DMA controller's gate in `SYSAHBCLKCTRL`.
pub const DMA_CLOCK_BIT: u32 = 29;

/// The master-enable bit of `CTRL`.
pub const CTRL_ENABLE: u32 = 0x1;

/// One write to a register of the block.
#[derive(Clone, Copy, Debug, PartialEq, Eq)]
pub enum Write {
    /// `SRAMBASE` was written with this value.
    Srambase(u32),
    /// `CTRL` was written with this value.
    Ctrl(u32),
}

/// The DMA controller's register block, with a record of the writes made to
/// it.
pub struct DMA0 {
    clock: bool,
    srambase: u32,
    ctrl: u32,
    writes: Vec<Write>,
}

/// What a [`DMA0`] holds.
pub struct Registers {
    /// Whether the block's clock is running.
    pub clock: bool,
    /// `SRAMBASE`: address of the channel descriptor table.
    pub srambase: u32,
    /// `CTRL`: bit 0 is the master enable.
    pub ctrl: u32,
    /// Every register write since reset, oldest first.
    pub writes: Seq<Write>,
}

impl View for DMA0 {
    type V = Registers;

    closed spec fn view(&self) -> Registers {
        Registers {
            clock: self.clock,
            srambase: self.srambase,
            ctrl: self.ctrl,
            writes: self.writes@,
        }
    }
}

impl Registers {
    /// The block after `value` is written to `SRAMBASE`. A write reaches the
    /// block only while its clock is running.
    pub open spec fn write_srambase(self, value: u32) -> Registers {
        if self.clock {
            Registers { srambase: value, writes: self.writes.push(Write::Srambase(value)), ..self }
        } else {
            self
        }
    }

    /// The block after `value` is written to `CTRL`. A write reaches the
    /// block only while its clock is running.
    pub open spec fn write_ctrl(self, value: u32) -> Registers {
        if self.clock {
            Registers { ctrl: value, writes: self.writes.push(Write::Ctrl(value)), ..self }
        } else {
            self
        }
    }

    /// Whether the controller's master enable is set.
    pub open spec fn master_enabled(self) -> bool {
        self.ctrl & CTRL_ENABLE != 0
    }
}

impl ClockControl for DMA0 {
    open spec fn clock_bit() -> u32 {
        DMA_CLOCK_BIT
    }

    closed spec fn with_clock(self, on: bool) -> DMA0 {
        DMA0 { clock: on, ..self }
    }

    fn bit() -> (b: u32) {
        DMA_CLOCK_BIT
    }

    fn set_clock(&mut self, on: bool) {
        self.clock = on;
    }
}

impl DMA0 {
    /// The block in its state after reset: clock stopped, registers zero,
    /// nothing written.
    pub fn new() -> (dma: DMA0)
        ensures
            dma@ == (Registers { clock: false, srambase: 0, ctrl: 0, writes: Seq::empty() }),
    {
        DMA0 { clock: false, srambase: 0, ctrl: 0, writes: Vec::new() }
    }

    /// Switching the clock changes the clock input and nothing else.
    pub proof fn lemma_with_clock(self, on: bool)
        ensures
            self.with_clock(on)@ == (Registers { clock: on, ..self@ }),
    {
    }

    /// Writes `SRAMBASE`. The block's clock must be running.
    pub fn write_srambase(&mut self, value: u32)
        requires
            old(self)@.clock,
        ensures
            final(self)@ == old(self)@.write_srambase(value),
    {
        self.srambase = value;
        self.writes.push(Write::Srambase(value));
    }

    /// Writes `CTRL`. The block's clock must be running.
    pub fn write_ctrl(&mut self, value: u32)
        requires
            old(self)@.clock,
        ensures
            final(self)@ == old(self)@.write_ctrl(value),
    {
        self.ctrl = value;
        self.writes.push(Write::Ctrl(value));
    }

    /// Whether the block's clock is running.
    pub fn clock(&self) -> (on: bool)
        ensures
            on == self@.clock,
    {
        self.clock
    }

    /// The value of `SRAMBASE`.
    pub fn srambase(&self) -> (value: u32)
        ensures
            value == self@.srambase,
    {
        self.srambase
    }

    /// The value of `CTRL`.
    pub fn ctrl(&self) -> (value: u32)
        ensures
            value == self@.ctrl,
    {
        self.ctrl
    }

    /// Every register write since reset, oldest first.
    pub fn writes(&self) -> (log: &Vec<Write>)
        ensures
            log@ == self@.writes,
    {
        &self.writes
    }
}

} // verus!
