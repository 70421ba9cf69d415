//! Clock control.
//!
//! The system configuration block holds one clock-gate bit per peripheral in
//! its `SYSAHBCLKCTRL` register. A peripheral's registers may only be accessed
//! while its gate is open. [`Handle`] owns the register; it is the only way to
//! open or close a gate, and every state transition of a peripheral takes it as
//! an argument.

use vstd::prelude::*;

verus! {

/// Value of `SYSAHBCLKCTRL` after reset: system, ROM, RAM, flash, GPIO and
/// switch matrix clocks are running.
pub const SYSAHBCLKCTRL_RESET: u32 = 0xDF;

/// The clock-gate register `reg` with the clock gate at position `bit` opened
/// (`on`) or closed.
pub open spec fn gate(reg: u32, bit: u32, on: bool) -> u32 {
    if on {
        reg | (1u32 << bit)
    } else {
        reg & !(1u32 << bit)
    }
}

/// Whether the clock gate at position `bit` is open in the register `reg`.
pub open spec fn gate_open(reg: u32, bit: u32) -> bool {
    reg & (1u32 << bit) != 0
}

/// A peripheral whose clock is gated by a bit of `SYSAHBCLKCTRL`.
pub trait ClockControl: Sized {
    /// Position of this peripheral's gate in `SYSAHBCLKCTRL`.
    spec fn clock_bit() -> u32;

    /// This peripheral with its clock input running (`on`) or stopped, and
    /// nothing else changed.
    spec fn with_clock(self, on: bool) -> Self;

    /// Position of this peripheral's gate in `SYSAHBCLKCTRL`.
    fn bit() -> (b: u32)
        ensures
            b == Self::clock_bit(),
            b < 32,
    ;

    /// Drives the peripheral's clock input. Called by [`Handle`] when it
    /// opens or closes this peripheral's clock gate.
    fn set_clock(&mut self, on: bool)
        ensures
            *final(self) == old(self).with_clock(on),
    ;
}

/// Exclusive access to the clock gates.
pub struct Handle {
    sysahbclkctrl: u32,
}

impl View for Handle {
    type V = u32;

    /// The value of `SYSAHBCLKCTRL`.
    closed spec fn view(&self) -> u32 {
        self.sysahbclkctrl
    }
}

impl Handle {
    /// The clock control in its state after reset.
    pub fn new() -> (handle: Handle)
        ensures
            handle@ == SYSAHBCLKCTRL_RESET,
    {
        Handle { sysahbclkctrl: SYSAHBCLKCTRL_RESET }
    }

    /// Whether the clock gate of peripheral type `P` is open.
    pub open spec fn clock_enabled<P: ClockControl>(&self) -> bool {
        gate_open(self@, P::clock_bit())
    }

    /// Opens the clock gate of `peripheral`. Opening an open gate changes
    /// nothing. No other gate is touched.
    pub fn enable_clock<P: ClockControl>(&mut self, peripheral: &mut P)
        ensures
            final(self)@ == gate(old(self)@, P::clock_bit(), true),
            *final(peripheral) == old(peripheral).with_clock(true),
    {
        let bit: u32 = P::bit();
        self.sysahbclkctrl = self.sysahbclkctrl | (1u32 << bit);
        peripheral.set_clock(true);
    }

    /// Closes the clock gate of `peripheral`. Closing a closed gate changes
    /// nothing. No other gate is touched.
    pub fn disable_clock<P: ClockControl>(&mut self, peripheral: &mut P)
        ensures
            final(self)@ == gate(old(self)@, P::clock_bit(), false),
            *final(peripheral) == old(peripheral).with_clock(false),
    {
        let bit: u32 = P::bit();
        self.sysahbclkctrl = self.sysahbclkctrl & !(1u32 << bit);
        peripheral.set_clock(false);
    }

    /// Whether the clock gate of `peripheral` is open.
    pub fn is_clock_enabled<P: ClockControl>(&self, peripheral: &P) -> (on: bool)
        ensures
            on == self.clock_enabled::<P>(),
    {
        let bit: u32 = P::bit();
        self.sysahbclkctrl & (1u32 << bit) != 0
    }

    /// The value of `SYSAHBCLKCTRL`.
    pub fn sysahbclkctrl(&self) -> (reg: u32)
        ensures
            reg == self@,
    {
        self.sysahbclkctrl
    }
}

/// After a gate is switched, it is in the state it was switched to.
pub proof fn lemma_gate_takes_effect(reg: u32, bit: u32, on: bool)
    requires
        bit < 32,
    ensures
        gate_open(gate(reg, bit, on), bit) == on,
{
    assert((reg | (1u32 << bit)) & (1u32 << bit) != 0) by (bit_vector)
        requires
            bit < 32,
    ;
    assert((reg & !(1u32 << bit)) & (1u32 << bit) == 0) by (bit_vector);
}

/// Switching one gate leaves every other gate as it was.
pub proof fn lemma_gate_leaves_others(reg: u32, bit: u32, on: bool, other: u32)
    requires
        bit < 32,
        other < 32,
        other != bit,
    ensures
        gate_open(gate(reg, bit, on), other) == gate_open(reg, other),
{
    assert((reg | (1u32 << bit)) & (1u32 << other) == reg & (1u32 << other)) by (bit_vector)
        requires
            bit < 32,
            other < 32,
            other != bit,
    ;
    assert((reg & !(1u32 << bit)) & (1u32 << other) == reg & (1u32 << other)) by (bit_vector)
        requires
            bit < 32,
            other < 32,
            other != bit,
    ;
}

/// Switching a gate twice to the same state is the same as switching it once.
pub proof fn lemma_gate_idempotent(reg: u32, bit: u32, on: bool)
    ensures
        gate(gate(reg, bit, on), bit, on) == gate(reg, bit, on),
{
    assert((reg | (1u32 << bit)) | (1u32 << bit) == reg | (1u32 << bit)) by (bit_vector);
    assert((reg & !(1u32 << bit)) & !(1u32 << bit) == reg & !(1u32 << bit)) by (bit_vector);
}

/// Closing a gate undoes opening it, and opening undoes closing, whatever
/// state it was in before the first switch.
pub proof fn lemma_gate_last_switch_wins(reg: u32, bit: u32, first: bool, second: bool)
    ensures
        gate(gate(reg, bit, first), bit, second) == gate(reg, bit, second),
{
    assert((reg | (1u32 << bit)) | (1u32 << bit) == reg | (1u32 << bit)) by (bit_vector);
    assert((reg & !(1u32 << bit)) & !(1u32 << bit) == reg & !(1u32 << bit)) by (bit_vector);
    assert((reg | (1u32 << bit)) & !(1u32 << bit) == reg & !(1u32 << bit)) by (bit_vector);
    assert((reg & !(1u32 << bit)) | (1u32 << bit) == reg | (1u32 << bit)) by (bit_vector);
}

} // verus!
