//! Vendor dispatch stubs.
//!
//! Placeholders for a cross-vendor front: one marker type per vendor, a
//! common trait, and a registry that lists the vendors. Only the native
//! wrapper behind the Nvidia marker has behavior; the others are stubs.

use vstd::prelude::*;

verus! {

/// The resources a vendor back end reports. A stub with no fields yet.
pub struct GpuResources {}

/// A vendor back end that can report its resources.
pub trait GpuResourcesTrait {
    /// Collects the resource information of this vendor's devices.
    fn get_info(&self) -> GpuResources;
}

/// Marker for the Nvidia back end.
pub struct NvidiaGpu;

impl GpuResourcesTrait for NvidiaGpu {
    fn get_info(&self) -> GpuResources {
        GpuResources {}
    }
}

/// Marker for the AMD back end.
pub struct AmdGpu;

impl GpuResourcesTrait for AmdGpu {
    fn get_info(&self) -> GpuResources {
        GpuResources {}
    }
}

/// Marker for the Intel back end.
pub struct IntelGpu;

impl GpuResourcesTrait for IntelGpu {
    fn get_info(&self) -> GpuResources {
        GpuResources {}
    }
}

/// One vendor, with its back end.
pub enum GpuVendor {
    /// The AMD back end.
    Amd(AmdGpu),
    /// The Intel back end.
    Intel(IntelGpu),
    /// The Nvidia back end.
    Nvidia(NvidiaGpu),
}

impl GpuVendor {
    /// Collects the resource information of this vendor's devices.
    pub fn get_info(&self) -> GpuResources {
        match self {
            GpuVendor::Amd(gpu) => gpu.get_info(),
            GpuVendor::Intel(gpu) => gpu.get_info(),
            GpuVendor::Nvidia(gpu) => gpu.get_info(),
        }
    }
}

/// The registry of known vendors.
pub struct GpuInfo {
    data: Vec<GpuVendor>,
}

impl GpuInfo {
    /// The vendors the registry holds.
    pub closed spec fn vendors(&self) -> Seq<GpuVendor> {
        self.data@
    }

    /// A registry listing every known vendor, in a fixed order: AMD,
    /// Intel, Nvidia.
    pub fn new() -> (info: GpuInfo)
        ensures
            info.vendors().len() == 3,
            info.vendors()[0] is Amd,
            info.vendors()[1] is Intel,
            info.vendors()[2] is Nvidia,
    {
        let mut data: Vec<GpuVendor> = Vec::new();
        data.push(GpuVendor::Amd(AmdGpu));
        data.push(GpuVendor::Intel(IntelGpu));
        data.push(GpuVendor::Nvidia(NvidiaGpu));
        GpuInfo { data }
    }
}

} // verus!
