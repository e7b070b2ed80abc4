//! The single failure kind at the library's boundary: a kernel call that
//! failed, tagged by the operation it was attempting.
use vstd::prelude::*;

verus! {

/// The operation a failed kernel call was attempting.
#[derive(Debug, Clone, Copy, PartialEq, Eq, Structural)]
pub enum IoctlKind {
    GetChipInfo,
    GetLineInfo,
    GetLine,
    SetLineConfig,
    GetValues,
    SetValues,
    GetLineEvent,
}

/// A failed kernel call: the operation, and the OS error number it gave.
#[derive(Debug, Clone, Copy, PartialEq, Eq, Structural)]
pub enum Error {
    Ioctl { kind: IoctlKind, errno: i32 },
}

pub type Result<T> = core::result::Result<T, Error>;

/// The error for a call of kind `kind` that failed with `errno`.
pub fn ioctl_error(kind: IoctlKind, errno: i32) -> (r: Error)
    ensures
        r == (Error::Ioctl { kind, errno }),
{
    Error::Ioctl { kind, errno }
}

/// Classifies the outcome of one kernel call of kind `kind`: its return code
/// on success, or the OS error number it failed with. Nothing is retried and
/// nothing is replaced by a default.
pub fn classify<T>(kind: IoctlKind, outcome: core::result::Result<T, i32>) -> (r: Result<T>)
    ensures
        outcome matches Ok(v) ==> r == Ok::<T, Error>(v),
        outcome matches Err(e) ==> r == Err::<T, Error>(Error::Ioctl { kind, errno: e }),
{
    match outcome {
        Ok(v) => Ok(v),
        Err(e) => Err(ioctl_error(kind, e)),
    }
}

} // verus!
