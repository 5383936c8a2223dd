//! The opaque device handle wrapper.
//!
//! A device handle is a pointer-sized value the native layer hands out on
//! enumeration. It carries no inspectable structure and is only ever passed
//! back to native calls. The wrapper keeps the value out of reach of
//! arithmetic or dereference and gives it one well-defined "empty" state —
//! the zero value — that stands for "no device" and is distinguished from
//! any handle obtained from a successful enumeration of a live device.

use vstd::prelude::*;

verus! {

/// Opaque wrapper around a native device handle value.
///
/// The zero value is the documented placeholder for "no device"; it is what
/// [`Default::default`] yields. A handle is only meaningful between a
/// successful library initialization and the matching shutdown; the wrapper
/// does not track that lifetime itself.
#[derive(Debug, Clone, Copy)]
pub struct SafeNvmlDeviceT {
    raw: u64,
}

impl View for SafeNvmlDeviceT {
    type V = u64;

    closed spec fn view(&self) -> u64 {
        self.raw
    }
}

impl SafeNvmlDeviceT {
    /// True of the placeholder wrapper that stands for "no device".
    pub open spec fn is_empty_spec(&self) -> bool {
        self@ == 0
    }

    /// Wraps a raw handle value. Only the enumeration outcome constructs
    /// populated wrappers; everything else passes wrappers along whole.
    pub(crate) fn from_raw(raw: u64) -> (device: SafeNvmlDeviceT)
        ensures
            device@ == raw,
    {
        SafeNvmlDeviceT { raw }
    }

    /// The raw value, for handing back across the native boundary. The value
    /// is opaque: nothing in this crate interprets it.
    pub fn as_raw(&self) -> (raw: u64)
        ensures
            raw == self@,
    {
        self.raw
    }

    /// True when this wrapper is the "no device" placeholder.
    pub fn is_empty(&self) -> (empty: bool)
        ensures
            empty == self.is_empty_spec(),
    {
        self.raw == 0
    }
}

impl Default for SafeNvmlDeviceT {
    /// The "no device" placeholder: an unpopulated slot, never a live handle.
    fn default() -> (device: SafeNvmlDeviceT)
        ensures
            device.is_empty_spec(),
    {
        SafeNvmlDeviceT { raw: 0 }
    }
}

} // verus!
