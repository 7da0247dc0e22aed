//! Value types and return codes of the native MIDI runtime.
//!
//! The native layer reports every outcome as a small integer. This module
//! gives those integers a typed form (`PmError`), a total mapping in
//! both directions, and the plain value records (`PmEvent`, `PmDeviceInfo`)
//! that cross the boundary between the runtime and this library.

use vstd::prelude::*;

verus! {

/// Identifier of a device slot in the native enumeration.
pub type PmDeviceId = i32;

/// A packed 32-bit MIDI wire word.
pub type PmMessage = u32;

/// Tick count the native layer attaches to each event.
pub type PmTimestamp = u32;

/// Sentinel returned by the default-device lookups when no default is set.
pub const PM_NO_DEVICE: PmDeviceId = -1;

/// Return codes of the native layer.
///
/// Two of them mean success: `PmNoError`, and `PmGotData`, which also says
/// that data is available. The rest are error codes.
#[derive(Debug, Clone, Copy, PartialEq, Eq, Structural)]
pub enum PmError {
    PmNoError,
    /// A "no error" return that also indicates data available.
    PmGotData,
    PmHostError,
    /// Out of range, wrong direction for the request, or already opened.
    PmInvalidDeviceId,
    PmInsufficientMemory,
    PmBufferTooSmall,
    PmBufferOverflow,
    /// Stream handle is null, not opened, or of the wrong direction.
    PmBadPtr,
    /// Illegal midi data, e.g. missing EOX.
    PmBadData,
    PmInternalError,
    /// Buffer is already as large as it can be.
    PmBufferMaxSize,
}

impl PmError {
    /// The integer code the native layer uses for this value.
    pub open spec fn code_spec(self) -> i32 {
        match self {
            PmError::PmNoError => 0i32,
            PmError::PmGotData => 1i32,
            PmError::PmHostError => -10000i32,
            PmError::PmInvalidDeviceId => -9999i32,
            PmError::PmInsufficientMemory => -9998i32,
            PmError::PmBufferTooSmall => -9997i32,
            PmError::PmBufferOverflow => -9996i32,
            PmError::PmBadPtr => -9995i32,
            PmError::PmBadData => -9994i32,
            PmError::PmInternalError => -9993i32,
            PmError::PmBufferMaxSize => -9992i32,
        }
    }

    /// The integer code the native layer uses for this value.
    pub fn code(self) -> (c: i32)
        ensures
            c == self.code_spec(),
    {
        match self {
            PmError::PmNoError => 0,
            PmError::PmGotData => 1,
            PmError::PmHostError => -10000,
            PmError::PmInvalidDeviceId => -9999,
            PmError::PmInsufficientMemory => -9998,
            PmError::PmBufferTooSmall => -9997,
            PmError::PmBufferOverflow => -9996,
            PmError::PmBadPtr => -9995,
            PmError::PmBadData => -9994,
            PmError::PmInternalError => -9993,
            PmError::PmBufferMaxSize => -9992,
        }
    }
}

/// The typed code for a native integer code, or `None` for an integer that
/// is no known code. Total: defined for every `i32`.
pub open spec fn pm_error_from_code(i: i32) -> Option<PmError> {
    if i == 0 {
        Some(PmError::PmNoError)
    } else if i == 1 {
        Some(PmError::PmGotData)
    } else if i == -10000 {
        Some(PmError::PmHostError)
    } else if i == -9999 {
        Some(PmError::PmInvalidDeviceId)
    } else if i == -9998 {
        Some(PmError::PmInsufficientMemory)
    } else if i == -9997 {
        Some(PmError::PmBufferTooSmall)
    } else if i == -9996 {
        Some(PmError::PmBufferOverflow)
    } else if i == -9995 {
        Some(PmError::PmBadPtr)
    } else if i == -9994 {
        Some(PmError::PmBadData)
    } else if i == -9993 {
        Some(PmError::PmInternalError)
    } else if i == -9992 {
        Some(PmError::PmBufferMaxSize)
    } else {
        None
    }
}

/// Explicit total mapping from a native integer code to the typed code.
/// Never reinterprets raw bits as an enum tag.
pub fn tmp_from_primitive(i: i32) -> (r: Option<PmError>)
    ensures
        r == pm_error_from_code(i),
{
    match i {
        0 => Some(PmError::PmNoError),
        1 => Some(PmError::PmGotData),
        -10000 => Some(PmError::PmHostError),
        -9999 => Some(PmError::PmInvalidDeviceId),
        -9998 => Some(PmError::PmInsufficientMemory),
        -9997 => Some(PmError::PmBufferTooSmall),
        -9996 => Some(PmError::PmBufferOverflow),
        -9995 => Some(PmError::PmBadPtr),
        -9994 => Some(PmError::PmBadData),
        -9993 => Some(PmError::PmInternalError),
        -9992 => Some(PmError::PmBufferMaxSize),
        _ => None,
    }
}

/// Each typed code maps back to itself through its integer code: the two
/// mappings are inverse on the known codes.
pub proof fn lemma_code_round_trip(e: PmError)
    ensures
        pm_error_from_code(e.code_spec()) == Some(e),
{
}

/// A known integer code is recovered from the typed code it maps to.
pub proof fn lemma_from_code_round_trip(i: i32, e: PmError)
    requires
        pm_error_from_code(i) == Some(e),
    ensures
        e.code_spec() == i,
{
}

/// What a result code means when a call returns a count on success:
/// a recognized error code other than `PmGotData` is an error, `0` means
/// "nothing there", and anything else is the count itself.
pub open spec fn try_from_code_spec(i: i32) -> Result<i32, PmError> {
    if i == -9989 {
        Err(PmError::PmInvalidDeviceId)
    } else if i == 1 {
        Ok(1)
    } else {
        match pm_error_from_code(i) {
            Some(e) => Err(e),
            None => Ok(i),
        }
    }
}

impl PmError {
    /// Splits a count-or-code result: known error codes (and `0`, which the
    /// callers read as "no data") to `Err`, counts to `Ok`.
    pub fn try_from_code(err_code: i32) -> (r: Result<i32, PmError>)
        ensures
            r == try_from_code_spec(err_code),
    {
        match err_code {
            0 => Err(PmError::PmNoError),
            -10000 => Err(PmError::PmHostError),
            -9999 => Err(PmError::PmInvalidDeviceId),
            -9998 => Err(PmError::PmInsufficientMemory),
            -9997 => Err(PmError::PmBufferTooSmall),
            -9996 => Err(PmError::PmBufferOverflow),
            -9995 => Err(PmError::PmBadPtr),
            -9994 => Err(PmError::PmBadData),
            -9993 => Err(PmError::PmInternalError),
            -9992 => Err(PmError::PmBufferMaxSize),
            -9989 => Err(PmError::PmInvalidDeviceId),
            _ => Ok(err_code),
        }
    }
}

/// Conversion from the raw result codes of the native layer.
pub trait MaybeError<T> {
    fn try_from(err_code: T) -> Result<T, PmError>;
}

impl MaybeError<i32> for PmError {
    fn try_from(err_code: i32) -> Result<i32, PmError> {
        PmError::try_from_code(err_code)
    }
}

/// One timestamped event as the native layer carries it: a packed wire
/// word and a tick count.
#[derive(Debug, Clone, Copy, PartialEq, Eq, Structural)]
pub struct PmEvent {
    pub message: PmMessage,
    pub timestamp: PmTimestamp,
}

impl Default for PmEvent {
    fn default() -> (r: Self)
        ensures
            r.message == 0,
            r.timestamp == 0,
    {
        PmEvent { message: 0, timestamp: 0 }
    }
}

/// What the native enumeration reports for one device slot, as plain
/// values.
#[derive(Debug)]
pub struct PmDeviceInfo {
    /// Internal structure version.
    pub struct_version: i32,
    /// Underlying MIDI API.
    pub interf: String,
    /// Device name.
    pub name: String,
    /// True iff input is available.
    pub input: bool,
    /// True iff output is available.
    pub output: bool,
    /// True while the device is held open by a stream.
    pub opened: bool,
}

} // verus!
