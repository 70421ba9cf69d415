//! API for USART.
//!
//! The entry point to this API is [`USART`]. Only plain asynchronous
//! operation with 8 data bits, no parity and 1 stop bit is supported.

use crate::dma::transfer::Dest;
use crate::init_state::{Disabled, Enabled, InitState};
use crate::pac::nvic::{Interrupt, NVIC};
use crate::pac::usart0::{RegisterBlock, Registers, TXDAT_OFFSET, USART0, USART1, USART2};
use crate::syscon::{gate, ClockControl, Handle};
use embedded_hal::serial::{Read, Write};
use vstd::prelude::*;

verus! {

/// The fields of `CFG` that [`USART::enable`] sets: enable, data length,
/// parity, stop bits, flow control, synchronous mode, loopback, address
/// matching and the polarity of both lines.
pub const CFG_FIELDS: u32 = 0x00C8_8A7D;

/// Value of [`CFG_FIELDS`] for an enabled USART with 8 data bits, no parity
/// and 1 stop bit, asynchronous, without flow control.
pub const CFG_8N1: u32 = 0x5;

/// The enable bit of `CFG`.
pub const CFG_ENABLE: u32 = 0x1;

/// The fields of `CTL` that [`USART::enable`] clears: break, address
/// detection, transmitter disable and automatic baud rate detection.
pub const CTL_FIELDS: u32 = 0x0001_0046;

/// `STAT`: a received character is waiting.
pub const STAT_RXRDY: u32 = 0x1;

/// `STAT`: the transmitter takes a character.
pub const STAT_TXRDY: u32 = 0x4;

/// `STAT`: the transmitter has sent everything.
pub const STAT_TXIDLE: u32 = 0x8;

/// `STAT`: a character was received while the receiver buffer was in use.
pub const STAT_OVERRUNINT: u32 = 0x100;

/// `STAT`: the line is in break condition.
pub const STAT_RXBRK: u32 = 0x400;

/// `RXDATSTAT`: the received character was missing a stop bit.
pub const RXDATSTAT_FRAMERR: u32 = 0x2000;

/// `RXDATSTAT`: the received character has a parity error.
pub const RXDATSTAT_PARITYERR: u32 = 0x4000;

/// `RXDATSTAT`: noise was detected on the received character.
pub const RXDATSTAT_RXNOISE: u32 = 0x8000;

/// `INTENSET` and `INTENCLR`: the receiver-ready interrupt.
pub const INT_RXRDY: u32 = 0x1;

/// `INTENSET` and `INTENCLR`: the transmitter-ready interrupt.
pub const INT_TXRDY: u32 = 0x4;

/// A USART error.
#[derive(Clone, Copy, Debug, Eq, PartialEq)]
pub enum RxError {
    /// Character received with a stop bit missing at the expected location.
    Framing,
    /// Corrupted character received.
    Noise,
    /// Character received, while receiver buffer was still in use.
    Overrun,
    /// Parity error detected in received character.
    Parity,
}

/// Internal trait for USART peripherals.
///
/// Implemented for the three USART register blocks. It is not meant to be
/// implemented or used outside of this crate.
pub trait Peripheral: ClockControl {
    /// The interrupt that is triggered for this USART peripheral.
    spec fn interrupt_line() -> Interrupt;

    /// Address of the peripheral's register block.
    spec fn base_address() -> u32;

    /// What the peripheral's registers hold.
    spec fn regs(&self) -> Registers;

    /// The interrupt that is triggered for this USART peripheral.
    fn interrupt() -> (interrupt: Interrupt)
        ensures
            interrupt == Self::interrupt_line(),
    ;

    /// Address of the peripheral's register block.
    fn base() -> (addr: u32)
        ensures
            addr == Self::base_address(),
            addr + TXDAT_OFFSET <= u32::MAX,
    ;

    /// The peripheral's registers.
    fn block(&self) -> (block: &RegisterBlock)
        ensures
            block@ == self.regs(),
    ;

    /// Exclusive access to the peripheral's registers.
    fn block_mut(&mut self) -> (block: &mut RegisterBlock)
        ensures
            block@ == old(self).regs(),
            final(self).regs() == final(block)@,
    ;

    /// Switching the clock changes the clock input and no register.
    proof fn lemma_with_clock(self, on: bool)
        ensures
            self.with_clock(on).regs() == (Registers { clock: on, ..self.regs() }),
    ;
}

impl Peripheral for USART0 {
    open spec fn interrupt_line() -> Interrupt {
        Interrupt::USART0
    }

    open spec fn base_address() -> u32 {
        0x4006_4000
    }

    open spec fn regs(&self) -> Registers {
        self.block@
    }

    fn interrupt() -> (interrupt: Interrupt) {
        Interrupt::USART0
    }

    fn base() -> (addr: u32) {
        0x4006_4000
    }

    fn block(&self) -> (block: &RegisterBlock) {
        &self.block
    }

    fn block_mut(&mut self) -> (block: &mut RegisterBlock) {
        &mut self.block
    }

    proof fn lemma_with_clock(self, on: bool) {
        self.block.lemma_with_clock(on);
    }
}

impl Peripheral for USART1 {
    open spec fn interrupt_line() -> Interrupt {
        Interrupt::USART1
    }

    open spec fn base_address() -> u32 {
        0x4006_8000
    }

    open spec fn regs(&self) -> Registers {
        self.block@
    }

    fn interrupt() -> (interrupt: Interrupt) {
        Interrupt::USART1
    }

    fn base() -> (addr: u32) {
        0x4006_8000
    }

    fn block(&self) -> (block: &RegisterBlock) {
        &self.block
    }

    fn block_mut(&mut self) -> (block: &mut RegisterBlock) {
        &mut self.block
    }

    proof fn lemma_with_clock(self, on: bool) {
        self.block.lemma_with_clock(on);
    }
}

impl Peripheral for USART2 {
    open spec fn interrupt_line() -> Interrupt {
        Interrupt::USART2
    }

    open spec fn base_address() -> u32 {
        0x4006_C000
    }

    open spec fn regs(&self) -> Registers {
        self.block@
    }

    fn interrupt() -> (interrupt: Interrupt) {
        Interrupt::USART2
    }

    fn base() -> (addr: u32) {
        0x4006_C000
    }

    fn block(&self) -> (block: &RegisterBlock) {
        &self.block
    }

    fn block_mut(&mut self) -> (block: &mut RegisterBlock) {
        &mut self.block
    }

    proof fn lemma_with_clock(self, on: bool) {
        self.block.lemma_with_clock(on);
    }
}

/// Clock configuration of a USART: the divider that sets its baud rate.
pub struct Clock {
    psc: u16,
}

impl Clock {
    /// The configuration with the divider value `psc`.
    pub fn new(psc: u16) -> (clock: Clock)
        ensures
            clock.psc() == psc,
    {
        Clock { psc }
    }

    /// The divider value.
    pub closed spec fn psc(&self) -> u16 {
        self.psc
    }

    /// The divider value.
    pub fn get_psc(&self) -> (psc: u16)
        ensures
            psc == self.psc(),
    {
        self.psc
    }
}

/// Interface to a USART peripheral.
pub struct USART<UsartX, State = Enabled> {
    usart: UsartX,
    _state: State,
}

/// What a [`USART`] holds.
pub struct UsartView {
    /// Whether the handle is in the enabled state.
    pub enabled: bool,
    /// The peripheral's registers.
    pub registers: Registers,
}

impl UsartView {
    /// Whether this is a state that a USART can be in: while it is enabled,
    /// its clock runs and its enable bit is set.
    pub open spec fn wf(self) -> bool {
        self.enabled ==> self.registers.clock && self.registers.cfg & CFG_ENABLE != 0
    }

    /// The USART after it is enabled with the divider value `psc`: with its
    /// clock running, the divider is written, the fields [`CFG_FIELDS`] of
    /// `CFG` are set to [`CFG_8N1`] and the fields [`CTL_FIELDS`] of `CTL` are
    /// cleared, in this order. All other bits and registers are as before.
    pub open spec fn enable(self, psc: u16) -> UsartView {
        UsartView {
            enabled: true,
            registers: (Registers { clock: true, ..self.registers }).write_brg(
                psc as u32,
            ).modify_cfg(CFG_FIELDS, CFG_8N1).modify_ctl(CTL_FIELDS, 0),
        }
    }

    /// The USART after it is disabled: its clock is stopped. No register is
    /// written.
    pub open spec fn disable(self) -> UsartView {
        UsartView { enabled: false, registers: Registers { clock: false, ..self.registers } }
    }
}

impl<UsartX: Peripheral, State: InitState> View for USART<UsartX, State> {
    type V = UsartView;

    closed spec fn view(&self) -> UsartView {
        UsartView { enabled: State::enabled(), registers: self.usart.regs() }
    }
}

impl<UsartX: Peripheral> USART<UsartX, Disabled> {
    /// Takes over the peripheral. The USART is disabled; the registers are
    /// not touched.
    pub fn new(usart: UsartX) -> (handle: USART<UsartX, Disabled>)
        ensures
            handle.raw() == usart,
            handle@ == (UsartView { enabled: false, registers: usart.regs() }),
            handle@.wf(),
    {
        USART { usart, _state: Disabled }
    }

    /// Enables the USART.
    ///
    /// Opens the peripheral's clock gate, then writes the baud rate divider
    /// and configures the USART for asynchronous operation with 8 data bits,
    /// no parity and 1 stop bit.
    pub fn enable(self, clock: &Clock, syscon: &mut Handle) -> (handle: USART<UsartX, Enabled>)
        ensures
            handle@ == self@.enable(clock.psc()),
            handle@.wf(),
            final(syscon)@ == gate(old(syscon)@, UsartX::clock_bit(), true),
    {
        let mut usart = self.usart;
        proof {
            usart.lemma_with_clock(true);
        }
        syscon.enable_clock(&mut usart);
        let block = usart.block_mut();
        block.write_brg(clock.get_psc() as u32);
        block.modify_cfg(CFG_FIELDS, CFG_8N1);
        block.modify_ctl(CTL_FIELDS, 0);
        proof {
            let cfg = self.usart.regs().cfg;
            assert(((cfg & !0x00C8_8A7Du32) | 0x5u32) & 0x1u32 != 0) by (bit_vector);
        }
        USART { usart, _state: Enabled(()) }
    }
}

impl<UsartX: Peripheral> USART<UsartX, Enabled> {
    /// Disables the USART.
    ///
    /// Closes the peripheral's clock gate. The registers keep their values.
    pub fn disable(self, syscon: &mut Handle) -> (handle: USART<UsartX, Disabled>)
        ensures
            handle@ == self@.disable(),
            handle@.wf(),
            final(syscon)@ == gate(old(syscon)@, UsartX::clock_bit(), false),
    {
        let mut usart = self.usart;
        proof {
            usart.lemma_with_clock(false);
        }
        syscon.disable_clock(&mut usart);
        USART { usart, _state: Disabled }
    }

    /// Enables the USART interrupts.
    ///
    /// Unmasks the interrupt of this USART in the interrupt controller. This
    /// does not enable any specific interrupt of the USART.
    pub fn enable_interrupts(&mut self, nvic: &mut NVIC)
        ensures
            *final(self) == *old(self),
            final(nvic)@ == old(nvic)@ | (1u32 << UsartX::interrupt_line().number()),
            final(nvic).unmasked(UsartX::interrupt_line()),
    {
        nvic.unmask(UsartX::interrupt());
    }

    /// Returns the USART receiver.
    pub fn rx(&mut self) -> (receiver: Receiver<'_, UsartX>)
        ensures
            receiver@ == old(self)@,
            final(self)@ == final(receiver.0)@,
    {
        Receiver(self)
    }

    /// Returns the USART transmitter.
    pub fn tx(&mut self) -> (transmitter: Transmitter<'_, UsartX>)
        ensures
            transmitter@ == old(self)@,
            final(self)@ == final(transmitter.0)@,
    {
        Transmitter(self)
    }
}

impl<UsartX: Peripheral, State: InitState> USART<UsartX, State> {
    /// The peripheral that the handle holds.
    pub closed spec fn raw(&self) -> UsartX {
        self.usart
    }

    /// The view shows the registers of the peripheral that the handle holds,
    /// and the state that the handle's type names.
    pub proof fn lemma_state(&self)
        ensures
            self@.registers == self.raw().regs(),
            self@.enabled == State::enabled(),
    {
    }

    /// Returns the raw peripheral.
    ///
    /// This is the way out of this API, open in every state. Nothing that
    /// this crate guarantees holds of what is done with the peripheral
    /// afterwards.
    pub fn free(self) -> (usart: UsartX)
        ensures
            usart == self.raw(),
            usart.regs() == self@.registers,
    {
        self.usart
    }

    /// Whether the USART is enabled.
    pub fn is_enabled(&self) -> (on: bool)
        ensures
            on == self@.enabled,
    {
        State::is_enabled()
    }

    /// The peripheral's registers, to look at.
    pub fn registers(&self) -> (block: &RegisterBlock)
        ensures
            block@ == self@.registers,
    {
        self.usart.block()
    }
}

/// The outcome of reading a character, given what `STAT` and `RXDATSTAT`
/// hold.
///
/// While the line is in break condition, or no character is waiting, the
/// read would block. An overrun is reported before the waiting character is
/// looked at. A waiting character is returned unless it is flagged with a
/// framing error, a parity error or noise, which are reported in this order
/// of precedence.
pub open spec fn read_outcome(stat: u32, rxdatstat: u32) -> Result<u8, nb::Error<RxError>> {
    if stat & STAT_RXBRK != 0 {
        Err(nb::Error::WouldBlock)
    } else if stat & STAT_OVERRUNINT != 0 {
        Err(nb::Error::Other(RxError::Overrun))
    } else if stat & STAT_RXRDY == 0 {
        Err(nb::Error::WouldBlock)
    } else if rxdatstat & RXDATSTAT_FRAMERR != 0 {
        Err(nb::Error::Other(RxError::Framing))
    } else if rxdatstat & RXDATSTAT_PARITYERR != 0 {
        Err(nb::Error::Other(RxError::Parity))
    } else if rxdatstat & RXDATSTAT_RXNOISE != 0 {
        Err(nb::Error::Other(RxError::Noise))
    } else {
        Ok((rxdatstat & 0xFF) as u8)
    }
}

/// USART receiver: exclusive access to an enabled USART, for receiving.
pub struct Receiver<'usart, UsartX>(pub &'usart mut USART<UsartX, Enabled>);

impl<'usart, UsartX: Peripheral> View for Receiver<'usart, UsartX> {
    type V = UsartView;

    /// The USART that the receiver belongs to.
    open spec fn view(&self) -> UsartView {
        (*self.0)@
    }
}

impl<'usart, UsartX: Peripheral> Receiver<'usart, UsartX> {
    /// Enables the RXRDY interrupt.
    ///
    /// The interrupt will not actually work unless the interrupts for this
    /// peripheral have also been enabled in the interrupt controller. See
    /// [`USART::enable_interrupts`].
    pub fn enable_rxrdy_interrupt(&mut self)
        requires
            old(self)@.wf(),
        ensures
            *final(final(self).0) == *final(old(self).0),
            final(self)@ == (UsartView {
                registers: old(self)@.registers.write_intenset(INT_RXRDY),
                ..old(self)@
            }),
    {
        self.0.usart.block_mut().write_intenset(INT_RXRDY);
    }

    /// Disables the RXRDY interrupt.
    pub fn disable_rxrdy_interrupt(&mut self)
        requires
            old(self)@.wf(),
        ensures
            *final(final(self).0) == *final(old(self).0),
            final(self)@ == (UsartView {
                registers: old(self)@.registers.write_intenclr(INT_RXRDY),
                ..old(self)@
            }),
    {
        self.0.usart.block_mut().write_intenclr(INT_RXRDY);
    }
}

impl<'usart, UsartX: Peripheral> Read<u8> for Receiver<'usart, UsartX> {
    type Error = RxError;

    /// Reads a character, if one is waiting.
    ///
    /// Returns what [`read_outcome`] says for the current values of `STAT`
    /// and `RXDATSTAT`. No register is written.
    fn read(&mut self) -> (r: Result<u8, nb::Error<RxError>>)
        ensures
            *final(final(self).0) == *final(old(self).0),
            r == read_outcome(old(self)@.registers.stat, old(self)@.registers.rxdatstat),
            final(self)@ == old(self)@,
    {
        let block = self.0.usart.block();
        let stat: u32 = block.stat();
        if stat & STAT_RXBRK != 0 {
            return Err(nb::Error::WouldBlock);
        }
        if stat & STAT_OVERRUNINT != 0 {
            return Err(nb::Error::Other(RxError::Overrun));
        }
        if stat & STAT_RXRDY != 0 {
            let rx_dat_stat: u32 = block.rxdatstat();
            if rx_dat_stat & RXDATSTAT_FRAMERR != 0 {
                return Err(nb::Error::Other(RxError::Framing));
            }
            if rx_dat_stat & RXDATSTAT_PARITYERR != 0 {
                return Err(nb::Error::Other(RxError::Parity));
            }
            if rx_dat_stat & RXDATSTAT_RXNOISE != 0 {
                return Err(nb::Error::Other(RxError::Noise));
            }
            assert(rx_dat_stat & 0xFF <= 0xFF) by (bit_vector);
            Ok((rx_dat_stat & 0xFF) as u8)
        } else {
            Err(nb::Error::WouldBlock)
        }
    }
}

/// USART transmitter: exclusive access to an enabled USART, for sending.
pub struct Transmitter<'usart, UsartX>(pub &'usart mut USART<UsartX, Enabled>);

impl<'usart, UsartX: Peripheral> View for Transmitter<'usart, UsartX> {
    type V = UsartView;

    /// The USART that the transmitter belongs to.
    open spec fn view(&self) -> UsartView {
        (*self.0)@
    }
}

impl<'usart, UsartX: Peripheral> Transmitter<'usart, UsartX> {
    /// Enables the TXRDY interrupt.
    ///
    /// The interrupt will not actually work unless the interrupts for this
    /// peripheral have also been enabled in the interrupt controller. See
    /// [`USART::enable_interrupts`].
    pub fn enable_txrdy_interrupt(&mut self)
        requires
            old(self)@.wf(),
        ensures
            *final(final(self).0) == *final(old(self).0),
            final(self)@ == (UsartView {
                registers: old(self)@.registers.write_intenset(INT_TXRDY),
                ..old(self)@
            }),
    {
        self.0.usart.block_mut().write_intenset(INT_TXRDY);
    }

    /// Disables the TXRDY interrupt.
    pub fn disable_txrdy_interrupt(&mut self)
        requires
            old(self)@.wf(),
        ensures
            *final(final(self).0) == *final(old(self).0),
            final(self)@ == (UsartView {
                registers: old(self)@.registers.write_intenclr(INT_TXRDY),
                ..old(self)@
            }),
    {
        self.0.usart.block_mut().write_intenclr(INT_TXRDY);
    }

    /// Address of `TXDAT`, where the transmitter takes data.
    pub open spec fn txdat_address() -> u32 {
        (UsartX::base_address() + TXDAT_OFFSET) as u32
    }
}

impl<'usart, UsartX: Peripheral> Write<u8> for Transmitter<'usart, UsartX> {
    type Error = void::Void;

    /// Hands `word` to the transmitter, if it takes one.
    ///
    /// If `TXRDY` is set in `STAT`, `word` is written to `TXDAT`. If not, the
    /// write would block and no register is written.
    fn write(&mut self, word: u8) -> (r: Result<(), nb::Error<void::Void>>)
        requires
            old(self)@.wf(),
        ensures
            *final(final(self).0) == *final(old(self).0),
            r is Ok <==> old(self)@.registers.stat & STAT_TXRDY != 0,
            r is Err ==> r == Err::<(), nb::Error<void::Void>>(nb::Error::WouldBlock),
            r is Ok ==> final(self)@ == (UsartView {
                registers: old(self)@.registers.write_txdat(word as u32),
                ..old(self)@
            }),
            r is Err ==> final(self)@ == old(self)@,
    {
        if self.0.usart.block().stat() & STAT_TXRDY == 0 {
            return Err(nb::Error::WouldBlock);
        }
        self.0.usart.block_mut().write_txdat(word as u32);
        Ok(())
    }

    /// Checks whether the transmitter has sent everything that was written.
    ///
    /// If `TXIDLE` is clear in `STAT`, the transmitter is still busy and the
    /// flush would block. No register is written.
    fn flush(&mut self) -> (r: Result<(), nb::Error<void::Void>>)
        ensures
            *final(self) == *old(self),
            *final(final(self).0) == *final(old(self).0),
            r is Ok <==> old(self)@.registers.stat & STAT_TXIDLE != 0,
            r is Err ==> r == Err::<(), nb::Error<void::Void>>(nb::Error::WouldBlock),
            final(self)@ == old(self)@,
    {
        if self.0.usart.block().stat() & STAT_TXIDLE == 0 {
            return Err(nb::Error::WouldBlock);
        }
        Ok(())
    }
}

/// Blocking writes are the non-blocking ones, repeated until they succeed.
impl<'usart, UsartX: Peripheral> embedded_hal::blocking::serial::write::Default<
    u8,
> for Transmitter<'usart, UsartX> {

}

impl<'usart, UsartX: Peripheral> Dest for Transmitter<'usart, UsartX> {
    type Error = void::Void;

    /// The transmitter is ready for a transfer when `TXIDLE` is set in
    /// `STAT`, and busy otherwise. Asking leaves it as it is.
    open spec fn waited(self) -> (Result<(), nb::Error<void::Void>>, Self) {
        if self@.registers.stat & STAT_TXIDLE != 0 {
            (Ok(()), self)
        } else {
            (Err(nb::Error::WouldBlock), self)
        }
    }

    /// The transmitter takes data at `TXDAT`. Asking leaves it as it is.
    open spec fn located(self) -> (u32, Self) {
        (Self::txdat_address(), self)
    }

    /// The transmitter is ready for a transfer when it has sent everything:
    /// this is its `flush`.
    fn wait(&mut self) -> (r: Result<(), nb::Error<void::Void>>)
        ensures
            *final(final(self).0) == *final(old(self).0),
            r is Ok <==> old(self)@.registers.stat & STAT_TXIDLE != 0,
            r is Err ==> r == Err::<(), nb::Error<void::Void>>(nb::Error::WouldBlock),
            final(self)@ == old(self)@,
    {
        self.flush()
    }

    /// The address of `TXDAT`.
    fn end_addr(&mut self) -> (addr: u32)
        ensures
            *final(final(self).0) == *final(old(self).0),
            addr == Self::txdat_address(),
            final(self)@ == old(self)@,
    {
        UsartX::base() + TXDAT_OFFSET
    }
}

} // verus!
