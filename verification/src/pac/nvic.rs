//! The interrupt controller.

use vstd::prelude::*;

verus! {

/// The interrupts that the drivers of this crate use.
#[derive(Clone, Copy, Debug, PartialEq, Eq)]
pub enum Interrupt {
    /// USART0 interrupt.
    USART0,
    /// USART1 interrupt.
    USART1,
    /// USART2 interrupt.
    USART2,
}

impl Interrupt {
    /// The interrupt's number, which is its bit position in `ISER0`.
    pub open spec fn number(self) -> u32 {
        match self {
            Interrupt::USART0 => 3,
            Interrupt::USART1 => 4,
            Interrupt::USART2 => 5,
        }
    }

    /// The interrupt's number, which is its bit position in `ISER0`.
    pub fn nr(self) -> (n: u32)
        ensures
            n == self.number(),
            n < 32,
    {
        match self {
            Interrupt::USART0 => 3,
            Interrupt::USART1 => 4,
            Interrupt::USART2 => 5,
        }
    }
}

/// The interrupt controller's set-enable state.
pub struct NVIC {
    iser0: u32,
}

impl View for NVIC {
    type V = u32;

    /// The mask of unmasked interrupts, as read from `ISER0`.
    closed spec fn view(&self) -> u32 {
        self.iser0
    }
}

impl NVIC {
    /// The controller after reset: every interrupt is masked.
    pub fn new() -> (nvic: NVIC)
        ensures
            nvic@ == 0,
    {
        NVIC { iser0: 0 }
    }

    /// Whether `interrupt` is unmasked.
    pub open spec fn unmasked(&self, interrupt: Interrupt) -> bool {
        self@ & (1u32 << interrupt.number()) != 0
    }

    /// Unmasks `interrupt` and leaves every other interrupt as it was.
    pub fn unmask(&mut self, interrupt: Interrupt)
        ensures
            final(self)@ == old(self)@ | (1u32 << interrupt.number()),
            final(self).unmasked(interrupt),
    {
        let n: u32 = interrupt.nr();
        let old_mask: u32 = self.iser0;
        self.iser0 = old_mask | (1u32 << n);
        assert((old_mask | (1u32 << n)) & (1u32 << n) != 0) by (bit_vector)
            requires
                n < 32,
        ;
    }

    /// Whether `interrupt` is unmasked.
    pub fn is_unmasked(&self, interrupt: Interrupt) -> (on: bool)
        ensures
            on == self.unmasked(interrupt),
    {
        let n: u32 = interrupt.nr();
        self.iser0 & (1u32 << n) != 0
    }
}

} // verus!
