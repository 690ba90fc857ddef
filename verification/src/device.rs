//! The memory-mapped devices and the bus that routes physical addresses to
//! them.

pub mod memory;
pub mod uart;
pub mod bus;

use vstd::prelude::*;
use crate::exception::Exception;
use crate::hart::access::Access;

verus! {

/// The byte-granular read/write capability every device offers the bus. The
/// access a device receives is already window-relative. The exact behavior
/// of each device stands in the contracts of its own inherent methods; the
/// bus dispatches through those.
pub trait Device {
    /// Read the byte at the access's window-relative address.
    fn read_byte(&self, access: Access) -> Result<u8, Exception>;

    /// Write the byte at the access's window-relative address.
    fn write_byte(&mut self, access: Access, data: u8) -> Result<(), Exception>;
}

} // verus!
