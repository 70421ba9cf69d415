//! What a transfer reads and where it writes.

use vstd::prelude::*;

verus! {

/// Largest number of bytes that one transfer can move.
pub const MAX_TRANSFER: u32 = 1024;

/// A destination of DMA transfers: a peripheral that takes the data at an
/// address of its own.
///
/// What a destination answers is up to it. An implementation says, as a
/// function of the destination's state, which answer each of the two methods
/// gives and which state it leaves; the contracts of this crate speak of the
/// answers by these functions and ask nothing else of them. A destination that
/// stands for hardware keeps the hardware's status in its state, as the
/// register blocks of [`crate::pac`] do. In code that is not verified the two
/// functions are ordinary methods that nothing calls.
pub trait Dest: Sized {
    /// The error that can occur while waiting.
    type Error;

    /// What [`wait`](Dest::wait) answers in this state, and the state that it
    /// leaves.
    spec fn waited(self) -> (Result<(), nb::Error<Self::Error>>, Self);

    /// What [`end_addr`](Dest::end_addr) returns in this state, and the state
    /// that it leaves.
    spec fn located(self) -> (u32, Self);

    /// Checks, without blocking, whether the destination has finished its
    /// previous operation. `WouldBlock` means that it is still busy.
    fn wait(&mut self) -> (r: Result<(), nb::Error<Self::Error>>)
        ensures
            r is Ok <==> old(self).waited().0 is Ok,
            r is Err ==> r == old(self).waited().0,
            *final(self) == old(self).waited().1,
    ;

    /// The address at which the destination takes data.
    fn end_addr(&mut self) -> (addr: u32)
        ensures
            addr == old(self).located().0,
            *final(self) == old(self).located().1,
    ;
}

/// A range of memory: `len` bytes from address `start` on.
pub struct Region {
    /// Address of the first byte.
    pub start: nat,
    /// Number of bytes.
    pub len: nat,
}

impl Region {
    /// Whether a single transfer can read the region: it is not empty, not
    /// longer than [`MAX_TRANSFER`] and lies within the address space.
    pub open spec fn transferable(self) -> bool {
        &&& 1 <= self.len <= MAX_TRANSFER
        &&& self.start + self.len - 1 <= u32::MAX
    }

    /// Address of the region's last byte.
    pub open spec fn end(self) -> int {
        self.start + self.len - 1
    }
}

/// A range of memory that a single transfer can read.
pub struct Buffer {
    start: u32,
    len: u32,
}

impl View for Buffer {
    type V = Region;

    closed spec fn view(&self) -> Region {
        Region { start: self.start as nat, len: self.len as nat }
    }
}

impl Buffer {
    #[verifier::type_invariant]
    spec fn transferable(&self) -> bool {
        self@.transferable()
    }

    /// The buffer of `len` bytes at address `start`, or `None` if no single
    /// transfer can read that range.
    pub fn new(start: u32, len: u32) -> (buffer: Option<Buffer>)
        ensures
            buffer is Some <==> (Region { start: start as nat, len: len as nat }).transferable(),
            buffer matches Some(b) ==> b@ == (Region { start: start as nat, len: len as nat }),
    {
        if len == 0 || len > MAX_TRANSFER {
            return None;
        }
        if start > u32::MAX - (len - 1) {
            return None;
        }
        Some(Buffer { start, len })
    }

    /// Address of the buffer's first byte.
    pub fn start(&self) -> (addr: u32)
        ensures
            addr == self@.start,
    {
        self.start
    }

    /// Number of bytes in the buffer.
    pub fn len(&self) -> (n: u32)
        ensures
            n == self@.len,
            self@.transferable(),
    {
        proof {
            use_type_invariant(self);
        }
        self.len
    }

    /// Address of the buffer's last byte.
    pub fn end(&self) -> (addr: u32)
        ensures
            addr == self@.end(),
    {
        proof {
            use_type_invariant(self);
        }
        self.start + (self.len - 1)
    }
}

} // verus!
