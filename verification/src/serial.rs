//! A 16550 UART model: eight byte registers, a receive FIFO, and a
//! transmit path that hands each byte to the host sink.

use vstd::prelude::*;

verus! {

/// Capacity of the receive FIFO.
pub const FIFO_SIZE: usize = 64;

/// Data-ready bit of the line status register.
pub const LSR_DATA_READY: u8 = 0x01;

/// Transmitter-empty bits of the line status register, always set: the
/// sink takes every byte at once.
pub const LSR_TX_IDLE: u8 = 0x60;

/// Received-data-available bit of the interrupt enable register.
pub const IER_RDA: u8 = 0x01;

/// Divisor-latch access bit of the line control register.
pub const LCR_DLAB: u8 = 0x80;

/// The UART state: latches, divisor, and the receive FIFO.
pub struct Uart {
    /// Interrupt enable register.
    pub ier: u8,
    /// Line control register.
    pub lcr: u8,
    /// Modem control register.
    pub mcr: u8,
    /// Scratch register.
    pub scr: u8,
    /// Divisor latch, low byte.
    pub dll: u8,
    /// Divisor latch, high byte.
    pub dlh: u8,
    /// Receive FIFO, next byte out at the front.
    pub rx: Vec<u8>,
}

/// What a register write did: a byte for the host sink, or a latch
/// update.
pub struct UartWrite {
    /// The byte to hand to the transmit sink, when the write hit the
    /// transmitter holding register.
    pub tx: Option<u8>,
}

impl Uart {
    /// The FIFO never outgrows its capacity.
    pub open spec fn wf(&self) -> bool {
        self.rx@.len() <= FIFO_SIZE
    }

    /// Whether the divisor latch is mapped over registers 0 and 1.
    pub open spec fn dlab(&self) -> bool {
        self.lcr & LCR_DLAB != 0
    }

    /// A quiet UART: all latches clear, FIFO empty.
    pub fn new() -> (r: Uart)
        ensures
            r.wf(),
            r.ier == 0 && r.lcr == 0 && r.mcr == 0 && r.scr == 0 && r.dll == 0 && r.dlh == 0,
            r.rx@ == Seq::<u8>::empty(),
    {
        Uart { ier: 0, lcr: 0, mcr: 0, scr: 0, dll: 0, dlh: 0, rx: Vec::new() }
    }

    /// The line status: transmitter always idle, bit 0 exactly when the
    /// FIFO holds data.
    pub open spec fn spec_lsr(&self) -> u8 {
        if self.rx@.len() > 0 {
            (LSR_TX_IDLE | LSR_DATA_READY) as u8
        } else {
            LSR_TX_IDLE
        }
    }

    /// The interrupt identification: received-data-available when enabled
    /// and pending, else none, with the FIFO-enabled bits always on.
    pub open spec fn spec_iir(&self) -> u8 {
        if self.rx@.len() > 0 && self.ier & IER_RDA != 0 {
            0xc4u8
        } else {
            0xc1u8
        }
    }

    /// The value a read of register `offset` answers, for every register.
    pub open spec fn spec_read_value(&self, offset: u8) -> u8 {
        if offset == 0 {
            if self.dlab() {
                self.dll
            } else if self.rx@.len() > 0 {
                self.rx@[0]
            } else {
                0u8
            }
        } else if offset == 1 {
            if self.dlab() {
                self.dlh
            } else {
                self.ier
            }
        } else if offset == 2 {
            self.spec_iir()
        } else if offset == 3 {
            self.lcr
        } else if offset == 4 {
            self.mcr
        } else if offset == 5 {
            self.spec_lsr()
        } else if offset == 6 {
            0xb0u8
        } else {
            self.scr
        }
    }

    /// How a read moves the UART from `pre` to `post`: reading the
    /// receiver buffer pops the FIFO, every other read changes nothing.
    pub open spec fn spec_after_read(pre: Uart, post: Uart, offset: u8) -> bool {
        if offset == 0 && !pre.dlab() && pre.rx@.len() > 0 {
            post.ier == pre.ier && post.lcr == pre.lcr && post.mcr == pre.mcr && post.scr
                == pre.scr && post.dll == pre.dll && post.dlh == pre.dlh && post.rx@
                == pre.rx@.drop_first()
        } else {
            post == pre
        }
    }

    /// The byte a write hands to the transmit sink: only the holding
    /// register transmits, and only while the divisor latch is unmapped.
    pub open spec fn spec_write_tx(pre: Uart, offset: u8, v: u8) -> Option<u8> {
        if offset == 0 && !pre.dlab() {
            Some(v)
        } else {
            Option::<u8>::None
        }
    }

    /// How a write moves the UART from `pre` to `post`: each latch takes
    /// its value, the transmitter and the read-only registers change
    /// nothing.
    pub open spec fn spec_after_write(pre: Uart, post: Uart, offset: u8, v: u8) -> bool {
        if offset == 0 {
            if pre.dlab() {
                post == (Uart { dll: v, ..pre })
            } else {
                post == pre
            }
        } else if offset == 1 {
            if pre.dlab() {
                post == (Uart { dlh: v, ..pre })
            } else {
                post == (Uart { ier: v, ..pre })
            }
        } else if offset == 3 {
            post == (Uart { lcr: v, ..pre })
        } else if offset == 4 {
            post == (Uart { mcr: v, ..pre })
        } else if offset == 7 {
            post == (Uart { scr: v, ..pre })
        } else {
            post == pre
        }
    }

    /// Read register `offset`; reading the receiver buffer drains one
    /// byte from the FIFO, every other register is untouched.
    pub fn read(&mut self, offset: u8) -> (r: u8)
        requires
            old(self).wf(),
            offset < 8,
        ensures
            final(self).wf(),
            r == old(self).spec_read_value(offset),
            Uart::spec_after_read(*old(self), *final(self), offset),
    {
        if offset == 0 {
            if self.lcr & LCR_DLAB != 0 {
                self.dll
            } else {
                if self.rx.len() > 0 {
                    let b = self.rx.remove(0);
                    proof {
                        assert(self.rx@ =~= old(self).rx@.drop_first());
                    }
                    b
                } else {
                    0
                }
            }
        } else if offset == 1 {
            if self.lcr & LCR_DLAB != 0 {
                self.dlh
            } else {
                self.ier
            }
        } else if offset == 2 {
            if self.rx.len() > 0 && self.ier & IER_RDA != 0 {
                0xc4
            } else {
                0xc1
            }
        } else if offset == 3 {
            self.lcr
        } else if offset == 4 {
            self.mcr
        } else if offset == 5 {
            if self.rx.len() > 0 {
                LSR_TX_IDLE | LSR_DATA_READY
            } else {
                LSR_TX_IDLE
            }
        } else if offset == 6 {
            0xb0
        } else {
            self.scr
        }
    }

    /// Write register `offset`.  A write to the transmitter holding
    /// register comes back as the byte for the sink; latch writes update
    /// the matching register and nothing else.
    pub fn write(&mut self, offset: u8, v: u8) -> (r: UartWrite)
        requires
            old(self).wf(),
            offset < 8,
        ensures
            final(self).wf(),
            final(self).rx@ == old(self).rx@,
            r.tx == Uart::spec_write_tx(*old(self), offset, v),
            Uart::spec_after_write(*old(self), *final(self), offset, v),
    {
        if offset == 0 {
            if self.lcr & LCR_DLAB != 0 {
                self.dll = v;
                UartWrite { tx: None }
            } else {
                UartWrite { tx: Some(v) }
            }
        } else if offset == 1 {
            if self.lcr & LCR_DLAB != 0 {
                self.dlh = v;
            } else {
                self.ier = v;
            }
            UartWrite { tx: None }
        } else if offset == 3 {
            self.lcr = v;
            UartWrite { tx: None }
        } else if offset == 4 {
            self.mcr = v;
            UartWrite { tx: None }
        } else if offset == 7 {
            self.scr = v;
            UartWrite { tx: None }
        } else {
            UartWrite { tx: None }
        }
    }

    /// Feed host input into the receive FIFO.  Bytes past the FIFO's
    /// free space are dropped; the interrupt line is to be raised exactly
    /// when data arrived and the receive interrupt is enabled.
    pub fn enqueue_rx(&mut self, data: &[u8]) -> (r: bool)
        requires
            old(self).wf(),
        ensures
            final(self).wf(),
            final(self).ier == old(self).ier && final(self).lcr == old(self).lcr && final(self).mcr
                == old(self).mcr && final(self).scr == old(self).scr && final(self).dll == old(self).dll && final(self).dlh == old(self).dlh,
            final(self).rx@ == old(self).rx@ + data@.take(
                vstd::math::min(data@.len() as int, FIFO_SIZE - old(self).rx@.len()),
            ),
            r <==> data@.len() > 0 && old(self).rx@.len() < FIFO_SIZE && old(self).ier & IER_RDA
                != 0,
    {
        let free: usize = FIFO_SIZE - self.rx.len();
        let n: usize = if data.len() < free {
            data.len()
        } else {
            free
        };
        let mut i: usize = 0;
        while i < n
            invariant
                i <= n,
                n <= data@.len(),
                n == vstd::math::min(data@.len() as int, FIFO_SIZE - old(self).rx@.len()),
                self.rx@ == old(self).rx@ + data@.take(i as int),
                self.rx@.len() + (n - i) <= FIFO_SIZE,
                self.ier == old(self).ier && self.lcr == old(self).lcr && self.mcr == old(self).mcr
                    && self.scr == old(self).scr && self.dll == old(self).dll && self.dlh == old(self).dlh,
            decreases n - i,
        {
            self.rx.push(*vstd::slice::slice_index_get(data, i));
            proof {
                assert(data@.take(i + 1) =~= data@.take(i as int).push(data@[i as int]));
            }
            i = i + 1;
        }
        data.len() > 0 && free > 0 && self.ier & IER_RDA != 0
    }
}

} // verus!
