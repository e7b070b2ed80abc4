//! Line-info-changed events read from a chip's descriptor.
use vstd::prelude::*;
use crate::abi_v2::{
    changed_type_of, GpioV2LineChangedType, GpioV2LineInfo, GpioV2LineInfoChanged,
    LINE_INFO_CHANGED_SIZE,
};
use crate::error::{ioctl_error, Error, IoctlKind, Result};
use crate::line::LineInfo;

verus! {

/// A change in the state of a watched line.
#[derive(Clone, Copy, Debug)]
pub struct LineInfoChangedEvent {
    inner: GpioV2LineInfoChanged,
}

impl View for LineInfoChangedEvent {
    type V = GpioV2LineInfoChanged;

    closed spec fn view(&self) -> GpioV2LineInfoChanged {
        self.inner
    }
}

impl LineInfoChangedEvent {
    /// Wraps a record read from the chip.
    pub fn from_record(inner: GpioV2LineInfoChanged) -> (r: LineInfoChangedEvent)
        ensures
            r@ == inner,
    {
        LineInfoChangedEvent { inner }
    }

    /// The all-zero event, a buffer slot before a read fills it.
    pub fn zeroed() -> (r: LineInfoChangedEvent)
        ensures
            r@.timestamp_ns == 0,
            r@.event_type == 0,
            r@.info.offset == 0,
    {
        LineInfoChangedEvent {
            inner: GpioV2LineInfoChanged {
                info: GpioV2LineInfo::query(0),
                timestamp_ns: 0,
                event_type: 0,
                padding: [0u32; 5],
            },
        }
    }

    /// What happened to the line (`Config` for a code out of range).
    pub fn event_type(&self) -> (r: GpioV2LineChangedType)
        ensures
            r == changed_type_of(self@.event_type),
    {
        GpioV2LineChangedType::from_u32(self.inner.event_type)
    }

    /// The line's state after the change.
    pub fn lineinfo(&self) -> (r: LineInfo)
        ensures
            r@ == self@.info,
    {
        LineInfo::from_record(self.inner.info)
    }

    /// When the change happened, in nanoseconds.
    pub fn timestamp_ns(&self) -> (r: u64)
        ensures
            r == self@.timestamp_ns,
    {
        self.inner.timestamp_ns
    }

    /// Interprets what a `read` of the chip's descriptor returned: -1 is a
    /// failure tagged as an event read, with the OS error number `errno`;
    /// otherwise the count of whole records read.
    pub fn records_read(ret: isize, errno: i32) -> (r: Result<usize>)
        requires
            ret >= -1,
        ensures
            ret == -1 ==> r == Err::<usize, Error>(
                Error::Ioctl { kind: IoctlKind::GetLineEvent, errno },
            ),
            ret >= 0 ==> r == Ok::<usize, Error>((ret as usize) / LINE_INFO_CHANGED_SIZE),
    {
        if ret == -1 {
            Err(ioctl_error(IoctlKind::GetLineEvent, errno))
        } else {
            Ok((ret as usize) / LINE_INFO_CHANGED_SIZE)
        }
    }
}

/// What one pull of the endless change stream yields, given the outcome of
/// its read and the slot the read filled: the event, or the read's error.
/// A failed read yields its error once and the stream goes on: the result is
/// never the end of the stream.
pub fn stream_item(read: Result<usize>, slot: LineInfoChangedEvent) -> (r: Option<
    Result<LineInfoChangedEvent>,
>)
    ensures
        r is Some,
        read matches Err(e) ==> r == Some(Err::<LineInfoChangedEvent, Error>(e)),
        read is Ok ==> r == Some(Ok::<LineInfoChangedEvent, Error>(slot)),
{
    match read {
        Ok(_) => Some(Ok(slot)),
        Err(e) => Some(Err(e)),
    }
}

} // verus!
