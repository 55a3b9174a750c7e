//! Error taxonomy and the mapping from native result codes.
//!
//! Native calls report a 32-bit result code (negative when failed). The
//! backend distinguishes out-of-memory, which a caller may recover from
//! by shedding load, from every other failure, which marks the device as
//! lost.

use vstd::prelude::*;

verus! {

/// Result code returned when a native call hit an unexpected failure.
pub const ERR_UNEXPECTED: u32 = 0x8000FFFF;

/// Result code returned when a native entry point is not implemented.
pub const ERR_NOTIMPL: u32 = 0x80004001;

/// Result code returned when a native allocation ran out of memory.
pub const ERR_OUTOFMEMORY: u32 = 0x8007000E;

/// Result code returned when a native call received an invalid argument.
pub const ERR_INVALIDARG: u32 = 0x80070057;

/// A raw native result code, kept as its unsigned bit pattern.
#[derive(Clone, Copy, Debug, PartialEq, Eq, Structural)]
pub struct WinError(pub u32);

/// Device-level failure. Everything that is not out-of-memory collapses
/// to `Lost`: after it, further operations on the device must fail fast.
#[derive(Clone, Copy, Debug, PartialEq, Eq, Structural)]
pub enum DeviceError {
    OutOfMemory,
    Lost,
}

/// Failure of a surface (swapchain) operation.
#[derive(Clone, Copy, Debug, PartialEq, Eq)]
pub enum SurfaceError {
    /// The surface became unusable and must be reconfigured.
    Lost,
    /// The surface no longer matches the window and must be reconfigured.
    Outdated,
    /// The device backing the surface failed.
    Device(DeviceError),
    /// A miscellaneous failure, described for logging.
    Other(&'static str),
}

/// Classification of a failed native result code.
#[derive(Clone, Copy, Debug, PartialEq, Eq, Structural)]
pub enum HResultError {
    Unexpected,
    NotImplemented,
    OutOfMemory,
    InvalidArgument,
    /// A code outside the recognised set, kept verbatim.
    Other(u32),
}

/// How a failed result code is classified.
pub open spec fn spec_classify_code(code: u32) -> HResultError {
    if code == ERR_UNEXPECTED {
        HResultError::Unexpected
    } else if code == ERR_NOTIMPL {
        HResultError::NotImplemented
    } else if code == ERR_OUTOFMEMORY {
        HResultError::OutOfMemory
    } else if code == ERR_INVALIDARG {
        HResultError::InvalidArgument
    } else {
        HResultError::Other(code)
    }
}

impl HResultError {
    /// Short description of the failure, for logging.
    pub fn description(&self) -> (r: &'static str)
        ensures
            *self == HResultError::Unexpected ==> r@ == "unexpected"@,
            *self == HResultError::NotImplemented ==> r@ == "not implemented"@,
            *self == HResultError::OutOfMemory ==> r@ == "out of memory"@,
            *self == HResultError::InvalidArgument ==> r@ == "invalid argument"@,
            forall|c: u32| *self == HResultError::Other(c) ==> r@ == "unrecognised error code"@,
    {
        match self {
            HResultError::Unexpected => "unexpected",
            HResultError::NotImplemented => "not implemented",
            HResultError::OutOfMemory => "out of memory",
            HResultError::InvalidArgument => "invalid argument",
            HResultError::Other(_) => "unrecognised error code",
        }
    }
}

impl WinError {
    /// Collapses a failed native result code to the device error taxonomy:
    /// out-of-memory is kept apart, everything else means the device is lost.
    pub fn map_win_error_to_device_error(hr_code: u32) -> (r: DeviceError)
        ensures
            r == (if hr_code == ERR_OUTOFMEMORY {
                DeviceError::OutOfMemory
            } else {
                DeviceError::Lost
            }),
    {
        if WinError(hr_code) == WinError(ERR_OUTOFMEMORY) {
            DeviceError::OutOfMemory
        } else {
            DeviceError::Lost
        }
    }
}

/// Splits a raw result code into success (non-negative) or a classified
/// failure.
pub fn into_result(hr: i32) -> (r: Result<(), HResultError>)
    ensures
        hr >= 0 <==> r is Ok,
        hr < 0 ==> r == Result::<(), HResultError>::Err(spec_classify_code(hr as u32)),
{
    if hr >= 0 {
        return Ok(());
    }
    let code = hr as u32;
    if code == ERR_UNEXPECTED {
        Err(HResultError::Unexpected)
    } else if code == ERR_NOTIMPL {
        Err(HResultError::NotImplemented)
    } else if code == ERR_OUTOFMEMORY {
        Err(HResultError::OutOfMemory)
    } else if code == ERR_INVALIDARG {
        Err(HResultError::InvalidArgument)
    } else {
        Err(HResultError::Other(code))
    }
}

/// Splits a raw result code into success or the device error taxonomy.
pub fn into_device_result(hr: i32) -> (r: Result<(), DeviceError>)
    ensures
        hr >= 0 <==> r is Ok,
        hr < 0 ==> r == Result::<(), DeviceError>::Err(
            if hr as u32 == ERR_OUTOFMEMORY {
                DeviceError::OutOfMemory
            } else {
                DeviceError::Lost
            },
        ),
{
    match into_result(hr) {
        Ok(()) => Ok(()),
        Err(_) => Err(WinError::map_win_error_to_device_error(hr as u32)),
    }
}

} // verus!
