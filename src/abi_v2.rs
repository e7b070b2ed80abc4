//! The records of the second version of the GPIO character-device interface,
//! field for field as the kernel lays them out (padding included).
//!
//! The kernel's attribute union is held as its eight raw bytes, read as one
//! native-endian word: the flag and output-value arms are that word, and the
//! debounce arm is its low 32 bits (the union's first four bytes on the
//! little-endian targets this library serves). Only
//! [`crate::line::decode_attribute`] and [`crate::uapi::attribute_value`]
//! look inside it, gated by the attribute's discriminant.
use vstd::prelude::*;
use crate::cstring::CString;

verus! {

/// Most configuration attributes one request can carry.
pub const GPIO_V2_LINE_NUM_ATTRS_MAX: usize = 10;

/// ioctl numbers of the second interface version, under the magic byte 0xB4.
pub const GPIO_GET_CHIPINFO_NR: u8 = 0x01;
pub const GPIO_V2_GET_LINEINFO_NR: u8 = 0x05;
pub const GPIO_V2_GET_LINEINFO_WATCH_NR: u8 = 0x06;
pub const GPIO_V2_GET_LINE_NR: u8 = 0x07;
pub const GPIO_GET_LINEINFO_UNWATCH_NR: u8 = 0x0C;
pub const GPIO_V2_LINE_SET_CONFIG_NR: u8 = 0x0D;
pub const GPIO_V2_LINE_GET_VALUES_NR: u8 = 0x0E;
pub const GPIO_V2_LINE_SET_VALUES_NR: u8 = 0x0F;

/// Discriminants of an attribute record.
pub const ATTR_ID_FLAGS: u32 = 1;
pub const ATTR_ID_OUTPUT_VALUES: u32 = 2;
pub const ATTR_ID_DEBOUNCE: u32 = 3;

/// Size in bytes of a line-info-changed record.
pub const LINE_INFO_CHANGED_SIZE: usize = 288;

/// Values of the lines of a request: bit `i` refers to the request's `i`-th
/// offset.
#[derive(Clone, Copy, Debug)]
pub struct GpioV2LineValues {
    /// the value of each line, 1 for active and 0 for inactive
    pub bits: u64,
    /// the lines to get or set
    pub mask: u64,
}

/// Which arm of an attribute's union is in use.
#[derive(Clone, Copy, Debug, PartialEq, Eq, Structural)]
pub enum GpioV2LineAttrId {
    Flags,
    OutputValues,
    Debounce,
}

/// The arm that discriminant `v` selects; a value out of range selects the
/// debounce arm.
pub open spec fn attr_id_of(v: u32) -> GpioV2LineAttrId {
    if v == ATTR_ID_FLAGS {
        GpioV2LineAttrId::Flags
    } else if v == ATTR_ID_OUTPUT_VALUES {
        GpioV2LineAttrId::OutputValues
    } else {
        GpioV2LineAttrId::Debounce
    }
}

impl GpioV2LineAttrId {
    /// The arm that discriminant `v` selects (debounce for a value out of range).
    pub fn from_u32(v: u32) -> (r: GpioV2LineAttrId)
        ensures
            r == attr_id_of(v),
    {
        if v == ATTR_ID_FLAGS {
            GpioV2LineAttrId::Flags
        } else if v == ATTR_ID_OUTPUT_VALUES {
            GpioV2LineAttrId::OutputValues
        } else {
            GpioV2LineAttrId::Debounce
        }
    }

    /// The discriminant written for this arm.
    pub fn as_u32(self) -> (r: u32)
        ensures
            attr_id_of(r) == self,
            1 <= r <= 3,
    {
        match self {
            GpioV2LineAttrId::Flags => ATTR_ID_FLAGS,
            GpioV2LineAttrId::OutputValues => ATTR_ID_OUTPUT_VALUES,
            GpioV2LineAttrId::Debounce => ATTR_ID_DEBOUNCE,
        }
    }
}

/// A configurable attribute of a line.
#[derive(Clone, Copy, Debug)]
pub struct GpioV2LineAttribute {
    /// discriminant, one of the `ATTR_ID_*` values
    pub id: u32,
    pub padding: u32,
    /// the union's eight bytes
    pub value: u64,
}

/// An attribute and the lines (by index into the request) it applies to.
#[derive(Clone, Copy, Debug)]
pub struct GpioV2LineConfigAttribute {
    pub attr: GpioV2LineAttribute,
    pub mask: u64,
}

/// Configuration of the lines of a request.
#[derive(Clone, Copy, Debug)]
pub struct GpioV2LineConfig {
    /// default flags of every line
    pub flags: u64,
    /// how many entries of `attrs` are in use
    pub num_attrs: u32,
    pub padding: [u32; 5],
    pub attrs: [GpioV2LineConfigAttribute; 10],
}

/// A request for lines of a chip.
#[derive(Clone, Copy, Debug)]
pub struct GpioV2LineRequest {
    /// the requested lines' offsets on the chip
    pub offsets: [u32; 64],
    /// the consumer label
    pub consumer: CString,
    pub config: GpioV2LineConfig,
    /// how many entries of `offsets` are in use
    pub num_lines: u32,
    /// suggested number of edge events for the kernel to buffer
    pub event_buffer_size: u32,
    pub padding: [u32; 5],
    /// the request's descriptor, written by the kernel on success
    pub fd: i32,
}

/// What the kernel reports of one line.
#[derive(Clone, Copy, Debug)]
pub struct GpioV2LineInfo {
    pub name: CString,
    pub consumer: CString,
    pub offset: u32,
    /// how many entries of `attrs` are in use
    pub num_attrs: u32,
    pub flags: u64,
    pub attrs: [GpioV2LineAttribute; 10],
    pub padding: [u32; 4],
}

/// What happened to a watched line.
#[derive(Clone, Copy, Debug, PartialEq, Eq, Structural)]
pub enum GpioV2LineChangedType {
    Requested,
    Released,
    Config,
}

/// The change that code `v` reports; a code out of range reads as `Config`.
pub open spec fn changed_type_of(v: u32) -> GpioV2LineChangedType {
    if v == 1 {
        GpioV2LineChangedType::Requested
    } else if v == 2 {
        GpioV2LineChangedType::Released
    } else {
        GpioV2LineChangedType::Config
    }
}

impl GpioV2LineChangedType {
    /// The change that code `v` reports (`Config` for a code out of range).
    pub fn from_u32(v: u32) -> (r: GpioV2LineChangedType)
        ensures
            r == changed_type_of(v),
    {
        if v == 1 {
            GpioV2LineChangedType::Requested
        } else if v == 2 {
            GpioV2LineChangedType::Released
        } else {
            GpioV2LineChangedType::Config
        }
    }
}

/// A change in the state of a watched line.
#[derive(Clone, Copy, Debug)]
pub struct GpioV2LineInfoChanged {
    pub info: GpioV2LineInfo,
    /// time of the change, in nanoseconds
    pub timestamp_ns: u64,
    pub event_type: u32,
    pub padding: [u32; 5],
}

/// An edge detected on a line of a request.
#[derive(Clone, Copy, Debug)]
pub struct GpioV2LineEvent {
    pub timestamp_ns: u64,
    /// 1 for a rising edge, 2 for a falling one
    pub id: u32,
    pub offset: u32,
    pub seqno: u32,
    pub line_seqno: u32,
    pub padding: [u32; 6],
}

/// The all-zero attribute.
pub open spec fn zero_attribute() -> GpioV2LineAttribute {
    GpioV2LineAttribute { id: 0, padding: 0, value: 0 }
}

/// The all-zero configuration attribute.
pub open spec fn zero_config_attribute() -> GpioV2LineConfigAttribute {
    GpioV2LineConfigAttribute { attr: zero_attribute(), mask: 0 }
}

impl GpioV2LineAttribute {
    /// The all-zero attribute.
    pub fn zeroed() -> (r: GpioV2LineAttribute)
        ensures
            r == zero_attribute(),
    {
        GpioV2LineAttribute { id: 0, padding: 0, value: 0 }
    }
}

impl GpioV2LineConfigAttribute {
    /// The all-zero configuration attribute.
    pub fn zeroed() -> (r: GpioV2LineConfigAttribute)
        ensures
            r == zero_config_attribute(),
    {
        GpioV2LineConfigAttribute { attr: GpioV2LineAttribute::zeroed(), mask: 0 }
    }
}

impl GpioV2LineConfig {
    /// A configuration with no flags and no attribute.
    pub fn zeroed() -> (r: GpioV2LineConfig)
        ensures
            r.flags == 0,
            r.num_attrs == 0,
            forall|i: int| 0 <= i < 5 ==> r.padding@[i] == 0,
            forall|i: int| 0 <= i < 10 ==> r.attrs@[i] == zero_config_attribute(),
    {
        let z = GpioV2LineConfigAttribute::zeroed();
        GpioV2LineConfig { flags: 0, num_attrs: 0, padding: [0u32; 5], attrs: [z; 10] }
    }
}

impl GpioV2LineRequest {
    /// A request for no line, with an empty label and no configuration.
    pub fn zeroed() -> (r: GpioV2LineRequest)
        ensures
            r.num_lines == 0,
            r.config.num_attrs == 0,
            r.config.flags == 0,
            r.event_buffer_size == 0,
            r.fd == 0,
            forall|i: int| 0 <= i < 64 ==> r.offsets@[i] == 0,
            forall|i: int| 0 <= i < 32 ==> r.consumer.bytes@[i] == 0,
            forall|i: int| 0 <= i < 10 ==> r.config.attrs@[i] == zero_config_attribute(),
            forall|i: int| 0 <= i < 5 ==> r.config.padding@[i] == 0,
            forall|i: int| 0 <= i < 5 ==> r.padding@[i] == 0,
    {
        GpioV2LineRequest {
            offsets: [0u32; 64],
            consumer: CString::empty(),
            config: GpioV2LineConfig::zeroed(),
            num_lines: 0,
            event_buffer_size: 0,
            padding: [0u32; 5],
            fd: 0,
        }
    }
}

impl GpioV2LineInfo {
    /// The record that asks the kernel about the line at `offset`: all zero
    /// but the offset.
    pub fn query(offset: u32) -> (r: GpioV2LineInfo)
        ensures
            r.offset == offset,
            r.num_attrs == 0,
            r.flags == 0,
            forall|i: int| 0 <= i < 32 ==> r.name.bytes@[i] == 0,
            forall|i: int| 0 <= i < 32 ==> r.consumer.bytes@[i] == 0,
            forall|i: int| 0 <= i < 10 ==> r.attrs@[i] == zero_attribute(),
            forall|i: int| 0 <= i < 4 ==> r.padding@[i] == 0,
    {
        let z = GpioV2LineAttribute::zeroed();
        GpioV2LineInfo {
            name: CString::empty(),
            consumer: CString::empty(),
            offset,
            num_attrs: 0,
            flags: 0,
            attrs: [z; 10],
            padding: [0u32; 4],
        }
    }
}

} // verus!
