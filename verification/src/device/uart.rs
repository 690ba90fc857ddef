//! The UART device: a minimal register window with a transmit holding
//! register and a line status register.

use vstd::prelude::*;
use crate::exception::Exception;
use crate::device::Device;
use crate::hart::access::Access;

verus! {

/// The window-relative offset of the transmit holding register.
pub const UART_THR: u32 = 0;

/// The window-relative offset of the line status register.
pub const UART_LSR: u32 = 5;

/// The line status value reported: transmitter always empty and idle.
pub const UART_LSR_READY: u8 = 0x60;

/// A minimal UART: writes to the transmit holding register are latched,
/// the line status register always reports the transmitter ready, and every
/// other offset in the window reads as zero and ignores writes.
#[derive(Debug, Clone, Copy, PartialEq, Eq)]
pub struct Uart {
    thr: u8,
    lsr: u8,
}

impl View for Uart {
    type V = (u8, u8);

    /// The pair (transmit holding, line status).
    closed spec fn view(&self) -> (u8, u8) {
        (self.thr, self.lsr)
    }
}

/// The byte a UART in state `u` yields at a window-relative offset.
pub open spec fn spec_uart_read(u: (u8, u8), offset: u32) -> u8 {
    if offset == UART_THR {
        u.0
    } else if offset == UART_LSR {
        u.1
    } else {
        0
    }
}

/// The UART state after a byte is written at a window-relative offset.
pub open spec fn spec_uart_write(u: (u8, u8), offset: u32, data: u8) -> (u8, u8) {
    if offset == UART_THR {
        (data, u.1)
    } else {
        u
    }
}

impl Uart {
    /// A UART in its reset state: nothing latched, transmitter ready.
    pub fn new() -> (r: Self)
        ensures
            r@ == (0u8, UART_LSR_READY),
    {
        Uart { thr: 0, lsr: UART_LSR_READY }
    }

    /// Read the register at a window-relative offset.
    pub fn fetch_byte(&self, offset: u32) -> (r: u8)
        ensures
            r == spec_uart_read(self@, offset),
    {
        if offset == UART_THR {
            self.thr
        } else if offset == UART_LSR {
            self.lsr
        } else {
            0
        }
    }

    /// Write the register at a window-relative offset.
    pub fn put_byte(&mut self, offset: u32, data: u8)
        ensures
            final(self)@ == spec_uart_write(old(self)@, offset, data),
    {
        if offset == UART_THR {
            self.thr = data;
        }
    }
}

impl Default for Uart {
    /// The reset state.
    fn default() -> (r: Self)
        ensures
            r@ == (0u8, UART_LSR_READY),
    {
        Self::new()
    }
}

impl Device for Uart {
    fn read_byte(&self, access: Access) -> Result<u8, Exception> {
        Ok(self.fetch_byte(access.addr))
    }

    fn write_byte(&mut self, access: Access, data: u8) -> Result<(), Exception> {
        self.put_byte(access.addr, data);
        Ok(())
    }
}

} // verus!
