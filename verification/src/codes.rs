//! The native return-code enumeration and the typed error taxonomy.
//!
//! Every native call reports its outcome as an integer: 0 is success, the
//! values 1 through 26 denote documented failure classes, and 999 is the
//! native sentinel for an unknown internal error. [`NvmlReturnT`] is the
//! typed form of that enumeration; [`NvmlError`] is the public error type,
//! one kind per documented code, produced by a total mapping that sends any
//! undocumented integer to the unknown kind and never panics.

use vstd::prelude::*;

verus! {

/// Return codes of the native management library, one variant per documented
/// status value plus the unknown-error sentinel.
#[derive(Clone, Copy, Debug, PartialEq, Eq, Structural)]
pub enum NvmlReturnT {
    /// The operation was successful (raw value 0).
    Success,
    /// The library has not been initialized (raw value 1).
    ErrorUninitialized,
    /// One or more arguments passed to the call are invalid (raw value 2).
    ErrorInvalidArgument,
    /// The platform does not support this operation (raw value 3).
    ErrorNotSupported,
    /// The current user may not perform this operation (raw value 4).
    ErrorNoPermission,
    /// The library has already been initialized (raw value 5).
    ErrorAlreadyInitialized,
    /// The requested item was not found (raw value 6).
    ErrorNotFound,
    /// The provided buffer is not large enough (raw value 7).
    ErrorInsufficientSize,
    /// The device does not have enough power for the operation (raw value 8).
    ErrorInsufficientPower,
    /// The driver is not loaded (raw value 9).
    ErrorDriverNotLoaded,
    /// The call timed out (raw value 10).
    ErrorTimeout,
    /// An interrupt issue occurred during the call (raw value 11).
    ErrorIrqIssue,
    /// The native shared library could not be found or loaded (raw value 12).
    ErrorLibraryNotFound,
    /// A required function is missing from the shared library (raw value 13).
    ErrorFunctionNotFound,
    /// The device's information ROM is corrupted (raw value 14).
    ErrorCorruptedInforom,
    /// The device has fallen off the bus or is inaccessible (raw value 15).
    ErrorGpuIsLost,
    /// The device requires a reset (raw value 16).
    ErrorResetRequired,
    /// The operation was blocked by the operating system (raw value 17).
    ErrorOperatingSystem,
    /// The driver and library versions do not match (raw value 18).
    ErrorLibRmVersionMismatch,
    /// The device is already in use (raw value 19).
    ErrorInUse,
    /// There is insufficient memory for the operation (raw value 20).
    ErrorMemory,
    /// No data is available for the request (raw value 21).
    ErrorNoData,
    /// The device does not support ECC in this mode (raw value 22).
    ErrorVgpuEccNotSupported,
    /// There are insufficient resources for the operation (raw value 23).
    ErrorInsufficientResources,
    /// The requested frequency is not supported (raw value 24).
    ErrorFreqNotSupported,
    /// The argument structure version does not match (raw value 25).
    ErrorArgumentVersionMismatch,
    /// The function is deprecated (raw value 26).
    ErrorDeprecated,
    /// An unknown internal error occurred (raw value 999).
    ErrorUnknown,
}

/// True of the raw integers that the native layer documents: 0 for success,
/// 1 through 26 for the failure classes, and the sentinel 999.
pub open spec fn is_documented_code(raw: u32) -> bool {
    raw <= 26 || raw == 999
}

impl NvmlReturnT {
    /// The documented raw integer of this return code.
    pub open spec fn as_raw_spec(self) -> u32 {
        match self {
            NvmlReturnT::Success => 0,
            NvmlReturnT::ErrorUninitialized => 1,
            NvmlReturnT::ErrorInvalidArgument => 2,
            NvmlReturnT::ErrorNotSupported => 3,
            NvmlReturnT::ErrorNoPermission => 4,
            NvmlReturnT::ErrorAlreadyInitialized => 5,
            NvmlReturnT::ErrorNotFound => 6,
            NvmlReturnT::ErrorInsufficientSize => 7,
            NvmlReturnT::ErrorInsufficientPower => 8,
            NvmlReturnT::ErrorDriverNotLoaded => 9,
            NvmlReturnT::ErrorTimeout => 10,
            NvmlReturnT::ErrorIrqIssue => 11,
            NvmlReturnT::ErrorLibraryNotFound => 12,
            NvmlReturnT::ErrorFunctionNotFound => 13,
            NvmlReturnT::ErrorCorruptedInforom => 14,
            NvmlReturnT::ErrorGpuIsLost => 15,
            NvmlReturnT::ErrorResetRequired => 16,
            NvmlReturnT::ErrorOperatingSystem => 17,
            NvmlReturnT::ErrorLibRmVersionMismatch => 18,
            NvmlReturnT::ErrorInUse => 19,
            NvmlReturnT::ErrorMemory => 20,
            NvmlReturnT::ErrorNoData => 21,
            NvmlReturnT::ErrorVgpuEccNotSupported => 22,
            NvmlReturnT::ErrorInsufficientResources => 23,
            NvmlReturnT::ErrorFreqNotSupported => 24,
            NvmlReturnT::ErrorArgumentVersionMismatch => 25,
            NvmlReturnT::ErrorDeprecated => 26,
            NvmlReturnT::ErrorUnknown => 999,
        }
    }

    /// The return code denoted by a raw integer; any integer outside the
    /// documented set denotes the unknown error.
    pub open spec fn spec_from_raw(raw: u32) -> NvmlReturnT {
        if raw == 0 {
            NvmlReturnT::Success
        } else if raw == 1 {
            NvmlReturnT::ErrorUninitialized
        } else if raw == 2 {
            NvmlReturnT::ErrorInvalidArgument
        } else if raw == 3 {
            NvmlReturnT::ErrorNotSupported
        } else if raw == 4 {
            NvmlReturnT::ErrorNoPermission
        } else if raw == 5 {
            NvmlReturnT::ErrorAlreadyInitialized
        } else if raw == 6 {
            NvmlReturnT::ErrorNotFound
        } else if raw == 7 {
            NvmlReturnT::ErrorInsufficientSize
        } else if raw == 8 {
            NvmlReturnT::ErrorInsufficientPower
        } else if raw == 9 {
            NvmlReturnT::ErrorDriverNotLoaded
        } else if raw == 10 {
            NvmlReturnT::ErrorTimeout
        } else if raw == 11 {
            NvmlReturnT::ErrorIrqIssue
        } else if raw == 12 {
            NvmlReturnT::ErrorLibraryNotFound
        } else if raw == 13 {
            NvmlReturnT::ErrorFunctionNotFound
        } else if raw == 14 {
            NvmlReturnT::ErrorCorruptedInforom
        } else if raw == 15 {
            NvmlReturnT::ErrorGpuIsLost
        } else if raw == 16 {
            NvmlReturnT::ErrorResetRequired
        } else if raw == 17 {
            NvmlReturnT::ErrorOperatingSystem
        } else if raw == 18 {
            NvmlReturnT::ErrorLibRmVersionMismatch
        } else if raw == 19 {
            NvmlReturnT::ErrorInUse
        } else if raw == 20 {
            NvmlReturnT::ErrorMemory
        } else if raw == 21 {
            NvmlReturnT::ErrorNoData
        } else if raw == 22 {
            NvmlReturnT::ErrorVgpuEccNotSupported
        } else if raw == 23 {
            NvmlReturnT::ErrorInsufficientResources
        } else if raw == 24 {
            NvmlReturnT::ErrorFreqNotSupported
        } else if raw == 25 {
            NvmlReturnT::ErrorArgumentVersionMismatch
        } else if raw == 26 {
            NvmlReturnT::ErrorDeprecated
        } else {
            NvmlReturnT::ErrorUnknown
        }
    }

    /// Reads a return code out of the raw integer a native call produced.
    /// Integers outside the documented set yield the unknown error code.
    pub fn from_raw(raw: u32) -> (code: NvmlReturnT)
        ensures
            code == NvmlReturnT::spec_from_raw(raw),
    {
        if raw == 0 {
            NvmlReturnT::Success
        } else if raw == 1 {
            NvmlReturnT::ErrorUninitialized
        } else if raw == 2 {
            NvmlReturnT::ErrorInvalidArgument
        } else if raw == 3 {
            NvmlReturnT::ErrorNotSupported
        } else if raw == 4 {
            NvmlReturnT::ErrorNoPermission
        } else if raw == 5 {
            NvmlReturnT::ErrorAlreadyInitialized
        } else if raw == 6 {
            NvmlReturnT::ErrorNotFound
        } else if raw == 7 {
            NvmlReturnT::ErrorInsufficientSize
        } else if raw == 8 {
            NvmlReturnT::ErrorInsufficientPower
        } else if raw == 9 {
            NvmlReturnT::ErrorDriverNotLoaded
        } else if raw == 10 {
            NvmlReturnT::ErrorTimeout
        } else if raw == 11 {
            NvmlReturnT::ErrorIrqIssue
        } else if raw == 12 {
            NvmlReturnT::ErrorLibraryNotFound
        } else if raw == 13 {
            NvmlReturnT::ErrorFunctionNotFound
        } else if raw == 14 {
            NvmlReturnT::ErrorCorruptedInforom
        } else if raw == 15 {
            NvmlReturnT::ErrorGpuIsLost
        } else if raw == 16 {
            NvmlReturnT::ErrorResetRequired
        } else if raw == 17 {
            NvmlReturnT::ErrorOperatingSystem
        } else if raw == 18 {
            NvmlReturnT::ErrorLibRmVersionMismatch
        } else if raw == 19 {
            NvmlReturnT::ErrorInUse
        } else if raw == 20 {
            NvmlReturnT::ErrorMemory
        } else if raw == 21 {
            NvmlReturnT::ErrorNoData
        } else if raw == 22 {
            NvmlReturnT::ErrorVgpuEccNotSupported
        } else if raw == 23 {
            NvmlReturnT::ErrorInsufficientResources
        } else if raw == 24 {
            NvmlReturnT::ErrorFreqNotSupported
        } else if raw == 25 {
            NvmlReturnT::ErrorArgumentVersionMismatch
        } else if raw == 26 {
            NvmlReturnT::ErrorDeprecated
        } else {
            NvmlReturnT::ErrorUnknown
        }
    }

    /// Writes this return code back out as its documented raw integer.
    pub fn as_raw(&self) -> (raw: u32)
        ensures
            raw == self.as_raw_spec(),
    {
        match self {
            NvmlReturnT::Success => 0,
            NvmlReturnT::ErrorUninitialized => 1,
            NvmlReturnT::ErrorInvalidArgument => 2,
            NvmlReturnT::ErrorNotSupported => 3,
            NvmlReturnT::ErrorNoPermission => 4,
            NvmlReturnT::ErrorAlreadyInitialized => 5,
            NvmlReturnT::ErrorNotFound => 6,
            NvmlReturnT::ErrorInsufficientSize => 7,
            NvmlReturnT::ErrorInsufficientPower => 8,
            NvmlReturnT::ErrorDriverNotLoaded => 9,
            NvmlReturnT::ErrorTimeout => 10,
            NvmlReturnT::ErrorIrqIssue => 11,
            NvmlReturnT::ErrorLibraryNotFound => 12,
            NvmlReturnT::ErrorFunctionNotFound => 13,
            NvmlReturnT::ErrorCorruptedInforom => 14,
            NvmlReturnT::ErrorGpuIsLost => 15,
            NvmlReturnT::ErrorResetRequired => 16,
            NvmlReturnT::ErrorOperatingSystem => 17,
            NvmlReturnT::ErrorLibRmVersionMismatch => 18,
            NvmlReturnT::ErrorInUse => 19,
            NvmlReturnT::ErrorMemory => 20,
            NvmlReturnT::ErrorNoData => 21,
            NvmlReturnT::ErrorVgpuEccNotSupported => 22,
            NvmlReturnT::ErrorInsufficientResources => 23,
            NvmlReturnT::ErrorFreqNotSupported => 24,
            NvmlReturnT::ErrorArgumentVersionMismatch => 25,
            NvmlReturnT::ErrorDeprecated => 26,
            NvmlReturnT::ErrorUnknown => 999,
        }
    }
}

/// The public error taxonomy: one kind per native return code, plus one kind
/// of this layer's own for a name buffer whose bytes do not decode as text.
#[allow(non_camel_case_types)]
#[derive(Clone, Copy, Debug, PartialEq, Eq, Structural)]
pub enum NvmlError {
    /// The operation was successful.
    NvmlSuccess,
    /// The library was not first initialized.
    NVMLERRORUNINITIALIZED,
    /// A supplied argument is invalid.
    NVMLERRORINVALIDARGUMENT,
    /// The requested operation is not available on the target device.
    NVMLERRORNOTSUPPORTED,
    /// Permission issue with the request.
    NVMLERRORNOPERMISSION,
    /// The library is already initialized.
    NVMLERRORALREADYINITIALIZED,
    /// The requested item was not found.
    NVMLERRORNOTFOUND,
    /// The buffer size was insufficient to hold the result.
    NVMLERRORINSUFFICIENTSIZE,
    /// The device does not have enough power to perform the operation.
    NVMLERRORINSUFFICIENTPOWER,
    /// The driver is not loaded.
    NVMLERRORDRIVERNOTLOADED,
    /// The operation timed out.
    NVMLERRORTIMEOUT,
    /// A system interrupt occurred.
    NVMLERRORIRQISSUE,
    /// The native shared library was not found.
    NVMLERRORLIBRARYNOTFOUND,
    /// A function was not found in the shared library.
    NVMLERRORFUNCTIONNOTFOUND,
    /// The information ROM is corrupted.
    NVMLERRORCORRUPTEDINFOROM,
    /// The device has fallen off the bus or undergone a reset.
    NVMLERRORGPUISLOST,
    /// The device requires a reset before operations can continue.
    NVMLERRORRESETREQUIRED,
    /// The device control has been blocked by the operating system.
    NVMLERROROPERATINGSYSTEM,
    /// The driver detected a version mismatch with the library.
    NVMLERRORLIBRMVERSIONMISMATCH,
    /// The device is in use or is not responding.
    NVMLERRORINUSE,
    /// Insufficient memory to complete the operation.
    NVMLERRORMEMORY,
    /// No data is available for the requested operation.
    NVMLERRORNODATA,
    /// The device does not support ECC in this mode.
    NVMLERRORVGPUECCNOTSUPPORTED,
    /// Insufficient device resources for the operation.
    NVMLERRORINSUFFICIENTRESOURCES,
    /// The requested clock frequency is not supported.
    NVMLERRORFREQNOTSUPPORTED,
    /// The function has been deprecated.
    NVMLERRORDEPRECATED,
    /// Mismatched argument versions were passed to a function.
    NVMLERRORARGUMENTVERSIONMISMATCH,
    /// An internal driver error occurred.
    NVMLERRORUNKNOWN,
    /// A name buffer held bytes that are not valid NUL-terminated text.
    /// This kind is local to the wrapper; no native code produces it.
    NVMLERRORDECODING,
}

/// The error kind that corresponds to a return code.
pub open spec fn error_for(code: NvmlReturnT) -> NvmlError {
    match code {
        NvmlReturnT::Success => NvmlError::NvmlSuccess,
        NvmlReturnT::ErrorUninitialized => NvmlError::NVMLERRORUNINITIALIZED,
        NvmlReturnT::ErrorInvalidArgument => NvmlError::NVMLERRORINVALIDARGUMENT,
        NvmlReturnT::ErrorNotSupported => NvmlError::NVMLERRORNOTSUPPORTED,
        NvmlReturnT::ErrorNoPermission => NvmlError::NVMLERRORNOPERMISSION,
        NvmlReturnT::ErrorAlreadyInitialized => NvmlError::NVMLERRORALREADYINITIALIZED,
        NvmlReturnT::ErrorNotFound => NvmlError::NVMLERRORNOTFOUND,
        NvmlReturnT::ErrorInsufficientSize => NvmlError::NVMLERRORINSUFFICIENTSIZE,
        NvmlReturnT::ErrorInsufficientPower => NvmlError::NVMLERRORINSUFFICIENTPOWER,
        NvmlReturnT::ErrorDriverNotLoaded => NvmlError::NVMLERRORDRIVERNOTLOADED,
        NvmlReturnT::ErrorTimeout => NvmlError::NVMLERRORTIMEOUT,
        NvmlReturnT::ErrorIrqIssue => NvmlError::NVMLERRORIRQISSUE,
        NvmlReturnT::ErrorLibraryNotFound => NvmlError::NVMLERRORLIBRARYNOTFOUND,
        NvmlReturnT::ErrorFunctionNotFound => NvmlError::NVMLERRORFUNCTIONNOTFOUND,
        NvmlReturnT::ErrorCorruptedInforom => NvmlError::NVMLERRORCORRUPTEDINFOROM,
        NvmlReturnT::ErrorGpuIsLost => NvmlError::NVMLERRORGPUISLOST,
        NvmlReturnT::ErrorResetRequired => NvmlError::NVMLERRORRESETREQUIRED,
        NvmlReturnT::ErrorOperatingSystem => NvmlError::NVMLERROROPERATINGSYSTEM,
        NvmlReturnT::ErrorLibRmVersionMismatch => NvmlError::NVMLERRORLIBRMVERSIONMISMATCH,
        NvmlReturnT::ErrorInUse => NvmlError::NVMLERRORINUSE,
        NvmlReturnT::ErrorMemory => NvmlError::NVMLERRORMEMORY,
        NvmlReturnT::ErrorNoData => NvmlError::NVMLERRORNODATA,
        NvmlReturnT::ErrorVgpuEccNotSupported => NvmlError::NVMLERRORVGPUECCNOTSUPPORTED,
        NvmlReturnT::ErrorInsufficientResources => NvmlError::NVMLERRORINSUFFICIENTRESOURCES,
        NvmlReturnT::ErrorFreqNotSupported => NvmlError::NVMLERRORFREQNOTSUPPORTED,
        NvmlReturnT::ErrorArgumentVersionMismatch => NvmlError::NVMLERRORARGUMENTVERSIONMISMATCH,
        NvmlReturnT::ErrorDeprecated => NvmlError::NVMLERRORDEPRECATED,
        NvmlReturnT::ErrorUnknown => NvmlError::NVMLERRORUNKNOWN,
    }
}

/// The error kind for a raw integer status, through the documented code it
/// denotes. Undocumented integers land on the unknown kind.
pub open spec fn error_of_raw(raw: u32) -> NvmlError {
    error_for(NvmlReturnT::spec_from_raw(raw))
}

impl From<NvmlReturnT> for NvmlError {
    /// The total mapping from a native return code to its error kind. This is
    /// the one seam between native status integers and the public taxonomy:
    /// it covers every code, has no side effects and never panics.
    fn from(err: NvmlReturnT) -> (e: NvmlError) {
        match err {
            NvmlReturnT::Success => NvmlError::NvmlSuccess,
            NvmlReturnT::ErrorUninitialized => NvmlError::NVMLERRORUNINITIALIZED,
            NvmlReturnT::ErrorInvalidArgument => NvmlError::NVMLERRORINVALIDARGUMENT,
            NvmlReturnT::ErrorNotSupported => NvmlError::NVMLERRORNOTSUPPORTED,
            NvmlReturnT::ErrorNoPermission => NvmlError::NVMLERRORNOPERMISSION,
            NvmlReturnT::ErrorAlreadyInitialized => NvmlError::NVMLERRORALREADYINITIALIZED,
            NvmlReturnT::ErrorNotFound => NvmlError::NVMLERRORNOTFOUND,
            NvmlReturnT::ErrorInsufficientSize => NvmlError::NVMLERRORINSUFFICIENTSIZE,
            NvmlReturnT::ErrorInsufficientPower => NvmlError::NVMLERRORINSUFFICIENTPOWER,
            NvmlReturnT::ErrorDriverNotLoaded => NvmlError::NVMLERRORDRIVERNOTLOADED,
            NvmlReturnT::ErrorTimeout => NvmlError::NVMLERRORTIMEOUT,
            NvmlReturnT::ErrorIrqIssue => NvmlError::NVMLERRORIRQISSUE,
            NvmlReturnT::ErrorLibraryNotFound => NvmlError::NVMLERRORLIBRARYNOTFOUND,
            NvmlReturnT::ErrorFunctionNotFound => NvmlError::NVMLERRORFUNCTIONNOTFOUND,
            NvmlReturnT::ErrorCorruptedInforom => NvmlError::NVMLERRORCORRUPTEDINFOROM,
            NvmlReturnT::ErrorGpuIsLost => NvmlError::NVMLERRORGPUISLOST,
            NvmlReturnT::ErrorResetRequired => NvmlError::NVMLERRORRESETREQUIRED,
            NvmlReturnT::ErrorOperatingSystem => NvmlError::NVMLERROROPERATINGSYSTEM,
            NvmlReturnT::ErrorLibRmVersionMismatch => NvmlError::NVMLERRORLIBRMVERSIONMISMATCH,
            NvmlReturnT::ErrorInUse => NvmlError::NVMLERRORINUSE,
            NvmlReturnT::ErrorMemory => NvmlError::NVMLERRORMEMORY,
            NvmlReturnT::ErrorNoData => NvmlError::NVMLERRORNODATA,
            NvmlReturnT::ErrorVgpuEccNotSupported => NvmlError::NVMLERRORVGPUECCNOTSUPPORTED,
            NvmlReturnT::ErrorInsufficientResources => NvmlError::NVMLERRORINSUFFICIENTRESOURCES,
            NvmlReturnT::ErrorFreqNotSupported => NvmlError::NVMLERRORFREQNOTSUPPORTED,
            NvmlReturnT::ErrorArgumentVersionMismatch => NvmlError::NVMLERRORARGUMENTVERSIONMISMATCH,
            NvmlReturnT::ErrorDeprecated => NvmlError::NVMLERRORDEPRECATED,
            NvmlReturnT::ErrorUnknown => NvmlError::NVMLERRORUNKNOWN,
        }
    }
}

impl vstd::std_specs::convert::FromSpecImpl<NvmlReturnT> for NvmlError {
    open spec fn obeys_from_spec() -> bool {
        true
    }

    open spec fn from_spec(err: NvmlReturnT) -> NvmlError {
        error_for(err)
    }
}

impl NvmlError {
    /// A short human-readable description of this error kind.
    pub fn message(&self) -> &'static str {
        match self {
            NvmlError::NvmlSuccess => "Operation was successful",
            NvmlError::NVMLERRORUNINITIALIZED => "NVML was not first initialized with nvmlInit()",
            NvmlError::NVMLERRORINVALIDARGUMENT => "A supplied argument is invalid",
            NvmlError::NVMLERRORNOTSUPPORTED => "The requested operation is not available on the target device",
            NvmlError::NVMLERRORNOPERMISSION => "Permission issue with the request",
            NvmlError::NVMLERRORALREADYINITIALIZED => "NVML is already initialized",
            NvmlError::NVMLERRORNOTFOUND => "The requested item was not found",
            NvmlError::NVMLERRORINSUFFICIENTSIZE => "The buffer size was insufficient to hold the result",
            NvmlError::NVMLERRORINSUFFICIENTPOWER => "Device does not have enough power to perform the operation",
            NvmlError::NVMLERRORDRIVERNOTLOADED => "NVIDIA driver is not loaded",
            NvmlError::NVMLERRORTIMEOUT => "The operation timed out",
            NvmlError::NVMLERRORIRQISSUE => "A system interrupt occurred",
            NvmlError::NVMLERRORLIBRARYNOTFOUND => "NVML shared library not found",
            NvmlError::NVMLERRORFUNCTIONNOTFOUND => "Function not found in the shared library",
            NvmlError::NVMLERRORCORRUPTEDINFOROM => "Information ROM corrupted",
            NvmlError::NVMLERRORGPUISLOST => "The GPU has fallen off the bus or undergone a reset",
            NvmlError::NVMLERRORRESETREQUIRED => "The GPU requires a reset before operations can continue",
            NvmlError::NVMLERROROPERATINGSYSTEM => "The GPU control device has been blocked by the operating system/cgroups",
            NvmlError::NVMLERRORLIBRMVERSIONMISMATCH => "RM has detected an NVML/RM version mismatch",
            NvmlError::NVMLERRORINUSE => "The GPU is in use or is not responding",
            NvmlError::NVMLERRORMEMORY => "Insufficient memory to complete the operation",
            NvmlError::NVMLERRORNODATA => "No data is available for the requested operation",
            NvmlError::NVMLERRORVGPUECCNOTSUPPORTED => "The device doesn't support vGPU or ECC mode",
            NvmlError::NVMLERRORINSUFFICIENTRESOURCES => "Operation could not be performed due to insufficient GPU resources",
            NvmlError::NVMLERRORFREQNOTSUPPORTED => "Requested clock frequency is not supported",
            NvmlError::NVMLERRORDEPRECATED => "Function has been deprecated",
            NvmlError::NVMLERRORARGUMENTVERSIONMISMATCH => "Mismatch arguments passed to function",
            NvmlError::NVMLERRORUNKNOWN => "An internal driver error occurred",
            NvmlError::NVMLERRORDECODING => "A name buffer did not hold valid NUL-terminated text",
        }
    }
}

/// Law: on the documented codes the mapping from raw integers to error kinds
/// is injective — each documented code has its own error kind.
pub proof fn lemma_error_mapping_injective(a: u32, b: u32)
    requires
        is_documented_code(a),
        is_documented_code(b),
        a != b,
    ensures
        error_of_raw(a) != error_of_raw(b),
{
}

/// Law: every raw integer outside the documented set maps to the unknown
/// error kind, so the mapping is total and never panics.
pub proof fn lemma_undocumented_maps_to_unknown(raw: u32)
    requires
        !is_documented_code(raw),
    ensures
        error_of_raw(raw) == NvmlError::NVMLERRORUNKNOWN,
{
}

/// Law: a return code survives the round trip through its raw integer.
pub proof fn lemma_code_raw_round_trip(code: NvmlReturnT)
    ensures
        NvmlReturnT::spec_from_raw(code.as_raw_spec()) == code,
{
}

/// Law: a documented raw integer survives the round trip through its
/// return code.
pub proof fn lemma_raw_code_round_trip(raw: u32)
    requires
        is_documented_code(raw),
    ensures
        NvmlReturnT::spec_from_raw(raw).as_raw_spec() == raw,
{
}

} // verus!
