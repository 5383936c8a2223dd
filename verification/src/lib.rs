//! Safe wrapper logic for a vendor GPU management library exposed as a flat
//! C function table.
//!
//! The native layer communicates through integer return codes, opaque device
//! handles, fixed-size NUL-terminated name buffers and "query size, then query
//! again" process lists. Everything that can be stated and checked about that
//! protocol lives here: the total mapping from return codes to a typed error
//! taxonomy, the opaque handle wrapper, the per-query outcome marshaling, the
//! decoding of fixed name buffers, and the bounded-retry policy for
//! variable-length process lists. The raw foreign calls themselves stay
//! outside this crate; they hand their plain results (codes, scalars, buffers)
//! to the functions here.

pub mod app;
pub mod codes;
pub mod device;
pub mod nvidia;
pub mod processes;
pub mod text;
pub mod vendor;
