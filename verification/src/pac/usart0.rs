//! The USART register blocks.

use crate::syscon::ClockControl;
use vstd::prelude::*;

verus! {

/// Offset of `TXDAT` from the base of a USART register block.
pub const TXDAT_OFFSET: u32 = 0x1C;

/// Value of `STAT` after reset: receiver idle, transmitter ready and idle.
pub const STAT_RESET: u32 = 0x0E;

/// The registers of one USART.
///
/// `STAT` and `RXDATSTAT` are driven by the hardware; [`set_stat`] and
/// [`set_rxdatstat`] stand for the hardware's side. All other registers change
/// only when the driver writes them, which it can only do while the block's
/// clock is running.
///
/// [`set_stat`]: RegisterBlock::set_stat
/// [`set_rxdatstat`]: RegisterBlock::set_rxdatstat
pub struct RegisterBlock {
    clock: bool,
    cfg: u32,
    ctl: u32,
    stat: u32,
    inten: u32,
    brg: u32,
    rxdatstat: u32,
    txdat: u32,
}

/// What a [`RegisterBlock`] holds.
pub struct Registers {
    /// Whether the block's clock is running.
    pub clock: bool,
    /// `CFG`: configuration.
    pub cfg: u32,
    /// `CTL`: control.
    pub ctl: u32,
    /// `STAT`: status flags.
    pub stat: u32,
    /// The interrupt enable mask, as read from `INTENSET`.
    pub inten: u32,
    /// `BRG`: baud rate divider.
    pub brg: u32,
    /// `RXDATSTAT`: the received character with its status flags.
    pub rxdatstat: u32,
    /// `TXDAT`: the character last handed to the transmitter.
    pub txdat: u32,
}

impl View for RegisterBlock {
    type V = Registers;

    closed spec fn view(&self) -> Registers {
        Registers {
            clock: self.clock,
            cfg: self.cfg,
            ctl: self.ctl,
            stat: self.stat,
            inten: self.inten,
            brg: self.brg,
            rxdatstat: self.rxdatstat,
            txdat: self.txdat,
        }
    }
}

impl Registers {
    /// The registers after `clear` is cleared and then `set` is set in `CFG`.
    /// A write reaches the block only while its clock is running.
    pub open spec fn modify_cfg(self, clear: u32, set: u32) -> Registers {
        if self.clock {
            Registers { cfg: (self.cfg & !clear) | set, ..self }
        } else {
            self
        }
    }

    /// The registers after `clear` is cleared and then `set` is set in `CTL`.
    /// A write reaches the block only while its clock is running.
    pub open spec fn modify_ctl(self, clear: u32, set: u32) -> Registers {
        if self.clock {
            Registers { ctl: (self.ctl & !clear) | set, ..self }
        } else {
            self
        }
    }

    /// The registers after `value` is written to `BRG`. A write reaches the
    /// block only while its clock is running.
    pub open spec fn write_brg(self, value: u32) -> Registers {
        if self.clock {
            Registers { brg: value, ..self }
        } else {
            self
        }
    }

    /// The registers after `value` is written to `TXDAT`. A write reaches
    /// the block only while its clock is running.
    pub open spec fn write_txdat(self, value: u32) -> Registers {
        if self.clock {
            Registers { txdat: value, ..self }
        } else {
            self
        }
    }

    /// The registers after `mask` is written to `INTENSET`, which enables
    /// the interrupts whose bits are set in `mask`. A write reaches the block
    /// only while its clock is running.
    pub open spec fn write_intenset(self, mask: u32) -> Registers {
        if self.clock {
            Registers { inten: self.inten | mask, ..self }
        } else {
            self
        }
    }

    /// The registers after `mask` is written to `INTENCLR`, which disables
    /// the interrupts whose bits are set in `mask`. A write reaches the block
    /// only while its clock is running.
    pub open spec fn write_intenclr(self, mask: u32) -> Registers {
        if self.clock {
            Registers { inten: self.inten & !mask, ..self }
        } else {
            self
        }
    }

    /// The registers after reset, with the clock stopped.
    pub open spec fn reset() -> Registers {
        Registers {
            clock: false,
            cfg: 0,
            ctl: 0,
            stat: STAT_RESET,
            inten: 0,
            brg: 0,
            rxdatstat: 0,
            txdat: 0,
        }
    }
}

impl RegisterBlock {
    /// The block in its state after reset.
    pub fn new() -> (block: RegisterBlock)
        ensures
            block@ == Registers::reset(),
    {
        RegisterBlock {
            clock: false,
            cfg: 0,
            ctl: 0,
            stat: STAT_RESET,
            inten: 0,
            brg: 0,
            rxdatstat: 0,
            txdat: 0,
        }
    }

    /// This block with its clock input running (`on`) or stopped.
    pub closed spec fn with_clock(self, on: bool) -> RegisterBlock {
        RegisterBlock { clock: on, ..self }
    }

    /// Switching the clock changes the clock input and no register.
    pub proof fn lemma_with_clock(self, on: bool)
        ensures
            self.with_clock(on)@ == (Registers { clock: on, ..self@ }),
    {
    }

    /// Drives the block's clock input.
    pub fn set_clock(&mut self, on: bool)
        ensures
            *final(self) == old(self).with_clock(on),
    {
        self.clock = on;
    }

    /// Sets the status flags, as the hardware does.
    pub fn set_stat(&mut self, value: u32)
        ensures
            final(self)@ == (Registers { stat: value, ..old(self)@ }),
    {
        self.stat = value;
    }

    /// Sets the received character and its flags, as the hardware does.
    pub fn set_rxdatstat(&mut self, value: u32)
        ensures
            final(self)@ == (Registers { rxdatstat: value, ..old(self)@ }),
    {
        self.rxdatstat = value;
    }

    /// Whether the block's clock is running.
    pub fn clock(&self) -> (on: bool)
        ensures
            on == self@.clock,
    {
        self.clock
    }

    /// Reads `CFG`.
    pub fn cfg(&self) -> (value: u32)
        ensures
            value == self@.cfg,
    {
        self.cfg
    }

    /// Reads `CTL`.
    pub fn ctl(&self) -> (value: u32)
        ensures
            value == self@.ctl,
    {
        self.ctl
    }

    /// Reads `STAT`.
    pub fn stat(&self) -> (value: u32)
        ensures
            value == self@.stat,
    {
        self.stat
    }

    /// Reads the interrupt enable mask from `INTENSET`.
    pub fn inten(&self) -> (value: u32)
        ensures
            value == self@.inten,
    {
        self.inten
    }

    /// Reads `BRG`.
    pub fn brg(&self) -> (value: u32)
        ensures
            value == self@.brg,
    {
        self.brg
    }

    /// Reads `RXDATSTAT`.
    pub fn rxdatstat(&self) -> (value: u32)
        ensures
            value == self@.rxdatstat,
    {
        self.rxdatstat
    }

    /// Reads back `TXDAT`.
    pub fn txdat(&self) -> (value: u32)
        ensures
            value == self@.txdat,
    {
        self.txdat
    }

    /// Clears the bits of `clear` in `CFG`, then sets the bits of `set`.
    pub fn modify_cfg(&mut self, clear: u32, set: u32)
        requires
            old(self)@.clock,
        ensures
            final(self)@ == old(self)@.modify_cfg(clear, set),
    {
        self.cfg = (self.cfg & !clear) | set;
    }

    /// Clears the bits of `clear` in `CTL`, then sets the bits of `set`.
    pub fn modify_ctl(&mut self, clear: u32, set: u32)
        requires
            old(self)@.clock,
        ensures
            final(self)@ == old(self)@.modify_ctl(clear, set),
    {
        self.ctl = (self.ctl & !clear) | set;
    }

    /// Writes `BRG`.
    pub fn write_brg(&mut self, value: u32)
        requires
            old(self)@.clock,
        ensures
            final(self)@ == old(self)@.write_brg(value),
    {
        self.brg = value;
    }

    /// Writes `TXDAT`.
    pub fn write_txdat(&mut self, value: u32)
        requires
            old(self)@.clock,
        ensures
            final(self)@ == old(self)@.write_txdat(value),
    {
        self.txdat = value;
    }

    /// Writes `INTENSET`: enables the interrupts whose bits are set in `mask`.
    pub fn write_intenset(&mut self, mask: u32)
        requires
            old(self)@.clock,
        ensures
            final(self)@ == old(self)@.write_intenset(mask),
    {
        self.inten = self.inten | mask;
    }

    /// Writes `INTENCLR`: disables the interrupts whose bits are set in `mask`.
    pub fn write_intenclr(&mut self, mask: u32)
        requires
            old(self)@.clock,
        ensures
            final(self)@ == old(self)@.write_intenclr(mask),
    {
        self.inten = self.inten & !mask;
    }
}

/// The register block of USART0.
pub struct USART0 {
    /// The registers.
    pub block: RegisterBlock,
}

/// The register block of USART1.
pub struct USART1 {
    /// The registers.
    pub block: RegisterBlock,
}

/// The register block of USART2.
pub struct USART2 {
    /// The registers.
    pub block: RegisterBlock,
}

impl USART0 {
    /// USART0 in its state after reset.
    pub fn new() -> (usart: USART0)
        ensures
            usart.block@ == Registers::reset(),
    {
        USART0 { block: RegisterBlock::new() }
    }
}

impl USART1 {
    /// USART1 in its state after reset.
    pub fn new() -> (usart: USART1)
        ensures
            usart.block@ == Registers::reset(),
    {
        USART1 { block: RegisterBlock::new() }
    }
}

impl USART2 {
    /// USART2 in its state after reset.
    pub fn new() -> (usart: USART2)
        ensures
            usart.block@ == Registers::reset(),
    {
        USART2 { block: RegisterBlock::new() }
    }
}

impl ClockControl for USART0 {
    open spec fn clock_bit() -> u32 {
        14
    }

    open spec fn with_clock(self, on: bool) -> USART0 {
        USART0 { block: self.block.with_clock(on) }
    }

    fn bit() -> (b: u32) {
        14
    }

    fn set_clock(&mut self, on: bool) {
        self.block.set_clock(on);
    }
}

impl ClockControl for USART1 {
    open spec fn clock_bit() -> u32 {
        15
    }

    open spec fn with_clock(self, on: bool) -> USART1 {
        USART1 { block: self.block.with_clock(on) }
    }

    fn bit() -> (b: u32) {
        15
    }

    fn set_clock(&mut self, on: bool) {
        self.block.set_clock(on);
    }
}

impl ClockControl for USART2 {
    open spec fn clock_bit() -> u32 {
        16
    }

    open spec fn with_clock(self, on: bool) -> USART2 {
        USART2 { block: self.block.with_clock(on) }
    }

    fn bit() -> (b: u32) {
        16
    }

    fn set_clock(&mut self, on: bool) {
        self.block.set_clock(on);
    }
}

} // verus!
