//! Records, bitmask arithmetic and request bookkeeping for the Linux GPIO
//! character-device interface (`/dev/gpiochipN`).
//!
//! The library prepares the fixed-layout records that the kernel's ioctl
//! handlers read and write, and decodes what comes back. Opening the device
//! and issuing the calls is left to the caller.
use vstd::prelude::*;

pub mod abi_v1;
pub mod abi_v2;
pub mod chip;
pub mod cstring;
pub mod error;
pub mod event;
pub mod line;
pub mod line_v1;
pub mod mask;
pub mod uapi;

verus! {

/// Largest number of bytes, terminator included, of a name or label buffer.
pub const GPIO_MAX_NAME_SIZE: usize = 32;

/// Magic byte under which all GPIO ioctls are multiplexed.
pub const GPIO_IOC_MAGIC: u8 = 0xB4;

/// The kernel call that failed, in the coarser grouping of the chip-level API.
#[derive(Debug, Clone, Copy, PartialEq, Eq, Structural)]
pub enum IoctlKind {
    ChipInfo,
    LineInfo,
    LineHandle,
    LineEvent,
    GetLine,
    SetLine,
}

} // verus!
