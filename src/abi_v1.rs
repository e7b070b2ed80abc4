//! The records of the first (deprecated) version of the GPIO
//! character-device interface, field for field as the kernel lays them out.
use vstd::prelude::*;
use crate::cstring::CString;

verus! {

/// Most lines one handle request can hold.
pub const GPIOHANDLES_MAX: usize = 64;

/// ioctl numbers of the first interface version, under the magic byte 0xB4.
pub const GPIO_GET_LINEINFO_NR: u8 = 0x02;
pub const GPIO_GET_LINEHANDLE_NR: u8 = 0x03;
pub const GPIO_GET_LINEEVENT_NR: u8 = 0x04;
pub const GPIOHANDLE_GET_LINE_VALUES_NR: u8 = 0x08;
pub const GPIOHANDLE_SET_LINE_VALUES_NR: u8 = 0x09;
pub const GPIOHANDLE_SET_CONFIG_NR: u8 = 0x0A;
pub const GPIO_GET_LINEINFO_WATCH_NR: u8 = 0x0B;

/// Line flags the kernel reports.
pub const GPIOLINE_FLAG_KERNEL: u32 = 1;
pub const GPIOLINE_FLAG_IS_OUT: u32 = 2;
pub const GPIOLINE_FLAG_ACTIVE_LOW: u32 = 4;
pub const GPIOLINE_FLAG_OPEN_DRAIN: u32 = 8;
pub const GPIOLINE_FLAG_OPEN_SOURCE: u32 = 16;
pub const GPIOLINE_FLAG_BIAS_PULL_UP: u32 = 32;
pub const GPIOLINE_FLAG_BIAS_PULL_DOWN: u32 = 64;
pub const GPIOLINE_FLAG_BIAS_DISABLE: u32 = 128;

/// Flags of a handle request.
pub const GPIOHANDLE_REQUEST_INPUT: u32 = 1;
pub const GPIOHANDLE_REQUEST_OUTPUT: u32 = 2;
pub const GPIOHANDLE_REQUEST_ACTIVE_LOW: u32 = 4;
pub const GPIOHANDLE_REQUEST_OPEN_DRAIN: u32 = 8;
pub const GPIOHANDLE_REQUEST_OPEN_SOURCE: u32 = 16;
pub const GPIOHANDLE_REQUEST_BIAS_PULL_UP: u32 = 32;
pub const GPIOHANDLE_REQUEST_BIAS_PULL_DOWN: u32 = 64;
pub const GPIOHANDLE_REQUEST_BIAS_DISABLE: u32 = 128;

/// Edges an event request listens for.
pub const GPIOEVENT_REQUEST_RISING_EDGE: u32 = 1;
pub const GPIOEVENT_REQUEST_FALLING_EDGE: u32 = 2;
pub const GPIOEVENT_REQUEST_BOTH_EDGES: u32 = 3;

/// What the kernel reports of one line.
#[derive(Clone, Copy, Debug)]
pub struct GpioLineInfo {
    pub line_offset: u32,
    pub flags: u32,
    pub name: CString,
    pub consumer: CString,
}

/// What happened to a watched line.
#[derive(Clone, Copy, Debug, PartialEq, Eq, Structural)]
pub enum GpioLineChangedType {
    Requested,
    Released,
    Config,
}

/// The change that code `v` reports; a code out of range reads as `Config`.
pub open spec fn line_changed_type_of(v: u32) -> GpioLineChangedType {
    if v == 1 {
        GpioLineChangedType::Requested
    } else if v == 2 {
        GpioLineChangedType::Released
    } else {
        GpioLineChangedType::Config
    }
}

impl GpioLineChangedType {
    /// The change that code `v` reports (`Config` for a code out of range).
    pub fn from_u32(v: u32) -> (r: GpioLineChangedType)
        ensures
            r == line_changed_type_of(v),
    {
        if v == 1 {
            GpioLineChangedType::Requested
        } else if v == 2 {
            GpioLineChangedType::Released
        } else {
            GpioLineChangedType::Config
        }
    }
}

/// A change in the state of a watched line.
#[derive(Clone, Copy, Debug)]
pub struct GpioLineInfoChanged {
    pub info: GpioLineInfo,
    pub timestamp: u64,
    pub event_type: u32,
    pub padding: [u32; 5],
}

/// A request for a handle on lines.
#[derive(Clone, Copy, Debug)]
pub struct GpioHandleRequest {
    pub lineoffsets: [u32; 64],
    pub flags: u32,
    /// default output of each line, 0 or 1, for output requests
    pub default_values: [u8; 64],
    pub consumer_label: CString,
    /// how many entries of `lineoffsets` are in use
    pub lines: u32,
    /// the handle's descriptor, written by the kernel on success
    pub fd: i32,
}

/// A new configuration for the lines of a handle.
#[derive(Clone, Copy, Debug)]
pub struct GpioHandleConfig {
    pub flags: u32,
    pub default_values: [u8; 64],
    pub padding: [u32; 4],
}

/// Values of the lines of a handle, by index, 0 or 1.
#[derive(Clone, Copy, Debug)]
pub struct GpioHandleData {
    pub values: [u8; 64],
}

/// A request for edge events of one line.
#[derive(Clone, Copy, Debug)]
pub struct GpioEventRequest {
    pub lineoffset: u32,
    pub handleflags: u32,
    pub eventflags: u32,
    pub consumer_label: CString,
    pub fd: i32,
}

/// An edge event.
#[derive(Clone, Copy, Debug)]
pub struct GpioEventData {
    pub timestamp: u64,
    pub id: u32,
}

impl GpioHandleRequest {
    /// A request for no line, with no flag and an empty label.
    pub fn zeroed() -> (r: GpioHandleRequest)
        ensures
            r.lines == 0,
            r.flags == 0,
            r.fd == 0,
            forall|i: int| 0 <= i < 64 ==> r.lineoffsets@[i] == 0,
            forall|i: int| 0 <= i < 64 ==> r.default_values@[i] == 0,
    {
        GpioHandleRequest {
            lineoffsets: [0u32; 64],
            flags: 0,
            default_values: [0u8; 64],
            consumer_label: CString::empty(),
            lines: 0,
            fd: 0,
        }
    }
}

impl GpioHandleData {
    /// All values zero.
    pub fn zeroed() -> (r: GpioHandleData)
        ensures
            forall|i: int| 0 <= i < 64 ==> r.values@[i] == 0,
    {
        GpioHandleData { values: [0u8; 64] }
    }
}

impl GpioLineInfo {
    /// The record that asks the kernel about the line at `offset`.
    pub fn query(offset: u32) -> (r: GpioLineInfo)
        ensures
            r.line_offset == offset,
            r.flags == 0,
    {
        GpioLineInfo {
            line_offset: offset,
            flags: 0,
            name: CString::empty(),
            consumer: CString::empty(),
        }
    }
}

} // verus!
