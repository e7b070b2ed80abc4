//! What a chip reports of itself, and the outcomes of chip-level calls.
use vstd::prelude::*;
use vstd::utf8::{decode_utf8, valid_utf8};
use crate::abi_v2::GpioV2LineInfo;
use crate::cstring::{lossy_utf8, until_nul, CString};
use crate::error::{classify, Error, IoctlKind, Result};
use crate::line::LineInfo;

verus! {

/// The chip-information record.
#[derive(Clone, Copy, Debug)]
pub struct GpioChipInfo {
    /// the kernel's name of the chip
    pub name: CString,
    /// a functional name of the chip, may be empty
    pub label: CString,
    /// number of lines on the chip
    pub lines: u32,
}

impl GpioChipInfo {
    /// The record that asks the kernel about a chip: all zero.
    pub fn zeroed() -> (r: GpioChipInfo)
        ensures
            r.lines == 0,
            forall|i: int| 0 <= i < 32 ==> r.name.bytes@[i] == 0,
            forall|i: int| 0 <= i < 32 ==> r.label.bytes@[i] == 0,
    {
        GpioChipInfo { name: CString::empty(), label: CString::empty(), lines: 0 }
    }
}

/// A snapshot of what a chip reports of itself.
#[derive(Clone, Copy, Debug)]
pub struct ChipInfo {
    inner: GpioChipInfo,
}

impl View for ChipInfo {
    type V = GpioChipInfo;

    closed spec fn view(&self) -> GpioChipInfo {
        self.inner
    }
}

impl ChipInfo {
    /// The snapshot, when the chip-information call went through; its
    /// failure otherwise.
    pub fn from_outcome(inner: GpioChipInfo, outcome: core::result::Result<i32, i32>) -> (r:
        Result<ChipInfo>)
        ensures
            outcome is Ok ==> (r matches Ok(info) && info@ == inner),
            outcome matches Err(e) ==> r == Err::<ChipInfo, Error>(
                Error::Ioctl { kind: IoctlKind::GetChipInfo, errno: e },
            ),
    {
        match classify(IoctlKind::GetChipInfo, outcome) {
            Ok(_) => Ok(ChipInfo { inner }),
            Err(e) => Err(e),
        }
    }

    /// The chip's name.
    pub fn name(&self) -> (r: String)
        ensures
            r@ == lossy_utf8(until_nul(self@.name.bytes@)),
            valid_utf8(until_nul(self@.name.bytes@)) ==> r@ == decode_utf8(until_nul(self@.name.bytes@)),
    {
        self.inner.name.to_string_lossy()
    }

    /// The chip's label.
    pub fn label(&self) -> (r: String)
        ensures
            r@ == lossy_utf8(until_nul(self@.label.bytes@)),
            valid_utf8(until_nul(self@.label.bytes@)) ==> r@ == decode_utf8(until_nul(self@.label.bytes@)),
    {
        self.inner.label.to_string_lossy()
    }

    /// The number of lines on the chip.
    pub fn lines(&self) -> (r: u32)
        ensures
            r == self@.lines,
    {
        self.inner.lines
    }
}

/// The line information, when the line-info call (or the call that starts
/// watching a line) went through; its failure otherwise.
pub fn lineinfo_from_outcome(filled: GpioV2LineInfo, outcome: core::result::Result<i32, i32>) -> (r:
    Result<LineInfo>)
    ensures
        outcome is Ok ==> (r matches Ok(info) && info@ == filled),
        outcome matches Err(e) ==> r == Err::<LineInfo, Error>(
            Error::Ioctl { kind: IoctlKind::GetLineInfo, errno: e },
        ),
{
    match classify(IoctlKind::GetLineInfo, outcome) {
        Ok(_) => Ok(LineInfo::from_record(filled)),
        Err(e) => Err(e),
    }
}

/// The outcome of no longer watching line `offset`: the offset when the
/// kernel accepted, and otherwise its refusal as an error. Unwatching a line
/// that is not watched is refused by the kernel (`EBUSY`), so it surfaces
/// here as an error, never as success.
pub fn unwatch_from_outcome(offset: u32, outcome: core::result::Result<i32, i32>) -> (r: Result<
    u32,
>)
    ensures
        outcome is Ok ==> r == Ok::<u32, Error>(offset),
        outcome matches Err(e) ==> r == Err::<u32, Error>(
            Error::Ioctl { kind: IoctlKind::GetLineInfo, errno: e },
        ),
        r is Err <==> outcome is Err,
{
    match classify(IoctlKind::GetLineInfo, outcome) {
        Ok(_) => Ok(offset),
        Err(e) => Err(e),
    }
}

} // verus!
