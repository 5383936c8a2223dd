//! The safe query façade over the native GPU management calls.
//!
//! Every native query follows one shape: zero an out-parameter, make the
//! call, branch on the returned status code, and marshal the out-parameter
//! into a typed result. The call itself happens outside this crate; each
//! method here is handed the raw status code and the out-parameter values
//! the call produced, and performs the checked half of that shape — it
//! returns the populated value exactly when the code is the success code,
//! and otherwise the error the code maps to. Nothing is retried, cached or
//! substituted; a failed query never yields a default.

use vstd::prelude::*;

use crate::codes::{error_of_raw, NvmlError, NvmlReturnT};
use crate::device::SafeNvmlDeviceT;
use crate::text::{decoded_name, decode_name, decodes};

verus! {

/// Maximum length in bytes of a name buffer (device or process names),
/// imposed by the driver.
pub const MAX_NAME_LENGTH: usize = 96;

/// Maximum number of processes a single process-list query can report,
/// imposed by the driver. This caps every list allocation and is the
/// ceiling for the single size-driven retry.
pub const MAX_PROCESS_COUNT: usize = 100;

/// Buffer size for a PCI bus id string in its version 2 format.
pub const NVML_DEVICE_PCI_BUS_ID_BUFFER_V2_SIZE: usize = 16;

/// Buffer size for a PCI bus id string when the format version is not
/// known in advance.
pub const NVML_DEVICE_PCI_BUS_ID_BUFFER_SIZE: usize = 32;

/// Memory information of a device: three 64-bit counters, in bytes.
/// A value object recreated on every query; it has no identity.
#[derive(Debug, Clone, Copy, PartialEq, Eq, Structural)]
pub struct NvmlMemoryT {
    /// Total installed memory in bytes.
    pub total: u64,
    /// Total free memory in bytes.
    pub free: u64,
    /// Total memory currently in use in bytes.
    pub used: u64,
}

impl Default for NvmlMemoryT {
    /// The zeroed record used as the out-parameter before a query.
    fn default() -> (memory: NvmlMemoryT)
        ensures
            memory == (NvmlMemoryT { total: 0, free: 0, used: 0 }),
    {
        NvmlMemoryT { total: 0, free: 0, used: 0 }
    }
}

/// Utilization rates of a device: two percentages.
#[derive(Debug, Clone, Copy, PartialEq, Eq, Structural)]
pub struct NvmlUtilizationT {
    /// Core utilization rate as a percentage.
    pub gpu: u32,
    /// Memory utilization rate as a percentage.
    pub memory: u32,
}

impl Default for NvmlUtilizationT {
    /// The zeroed record used as the out-parameter before a query.
    fn default() -> (utilization: NvmlUtilizationT)
        ensures
            utilization == (NvmlUtilizationT { gpu: 0, memory: 0 }),
    {
        NvmlUtilizationT { gpu: 0, memory: 0 }
    }
}

/// One process resident on a device at the moment of a query: a snapshot,
/// not a subscription.
#[derive(Debug, Clone, Copy, PartialEq, Eq, Structural)]
pub struct NvmlProcessInfoT {
    /// Process id of the application.
    pub pid: u32,
    /// Device memory in bytes used by the process.
    pub used_gpu_memory: u64,
    /// GPU instance id associated with the process.
    pub gpu_instance_id: u32,
    /// Compute instance id associated with the process.
    pub compute_instance_id: u32,
}

impl Default for NvmlProcessInfoT {
    /// The zeroed entry used to fill a list buffer before a query.
    fn default() -> (info: NvmlProcessInfoT)
        ensures
            info == (NvmlProcessInfoT {
                pid: 0,
                used_gpu_memory: 0,
                gpu_instance_id: 0,
                compute_instance_id: 0,
            }),
    {
        NvmlProcessInfoT { pid: 0, used_gpu_memory: 0, gpu_instance_id: 0, compute_instance_id: 0 }
    }
}

/// The clock domains a clock query can select.
#[derive(Debug, Clone, Copy, PartialEq, Eq, Structural)]
pub enum NvmlClockTypeT {
    /// Graphics clock domain.
    Graphics,
    /// SM clock domain.
    SM,
    /// Memory clock domain.
    Memory,
    /// Video encoder/decoder clock domain.
    Video,
    /// Count of clock domains.
    Count,
}

impl NvmlClockTypeT {
    /// The native integer documented for this clock domain.
    pub open spec fn as_raw_spec(self) -> u32 {
        match self {
            NvmlClockTypeT::Graphics => 0,
            NvmlClockTypeT::SM => 1,
            NvmlClockTypeT::Memory => 2,
            NvmlClockTypeT::Video => 3,
            NvmlClockTypeT::Count => 4,
        }
    }

    /// Encodes this clock domain as the integer selector a native clock
    /// query takes: Graphics is 0, SM is 1, Memory is 2, Video is 3, and
    /// the domain count is 4.
    pub fn as_raw(&self) -> (raw: u32)
        ensures
            raw == self.as_raw_spec(),
    {
        match self {
            NvmlClockTypeT::Graphics => 0,
            NvmlClockTypeT::SM => 1,
            NvmlClockTypeT::Memory => 2,
            NvmlClockTypeT::Video => 3,
            NvmlClockTypeT::Count => 4,
        }
    }
}

/// Law: distinct clock domains encode to distinct native selectors, so a
/// selector passed through a query identifies its domain.
pub proof fn lemma_clock_encoding_injective(a: NvmlClockTypeT, b: NvmlClockTypeT)
    requires
        a != b,
    ensures
        a.as_raw_spec() != b.as_raw_spec(),
{
}

/// The safe query façade. Stateless: each method interprets the reply of
/// one native call, handed over as plain values.
#[derive(Debug)]
pub struct Nvml;

impl Default for Nvml {
    fn default() -> (nvml: Nvml)
        ensures
            nvml == (Nvml {}),
    {
        Nvml
    }
}

impl Nvml {
    /// Interprets the reply of the native library initialization call.
    /// Success is exactly the zero status code; any other code maps to its
    /// error kind — initializing twice, for example, surfaces the
    /// already-initialized kind.
    pub fn init_nvml(&self, code: u32) -> (outcome: Result<(), NvmlError>)
        ensures
            code == 0 ==> outcome == Ok::<(), NvmlError>(()),
            code != 0 ==> outcome == Err::<(), NvmlError>(error_of_raw(code)),
    {
        let status = NvmlReturnT::from_raw(code);
        match status {
            NvmlReturnT::Success => Ok(()),
            _ => Err(NvmlError::from(status)),
        }
    }

    /// Interprets the reply of the native library shutdown call.
    pub fn shutdown_nvml(&self, code: u32) -> (outcome: Result<(), NvmlError>)
        ensures
            code == 0 ==> outcome == Ok::<(), NvmlError>(()),
            code != 0 ==> outcome == Err::<(), NvmlError>(error_of_raw(code)),
    {
        let status = NvmlReturnT::from_raw(code);
        match status {
            NvmlReturnT::Success => Ok(()),
            _ => Err(NvmlError::from(status)),
        }
    }

    /// Interprets the reply of the device-count query: the counted number
    /// of devices on success, the mapped error otherwise. Querying before
    /// initialization surfaces the uninitialized kind this way.
    pub fn device_get_count(&self, code: u32, count: u32) -> (outcome: Result<u32, NvmlError>)
        ensures
            code == 0 ==> outcome == Ok::<u32, NvmlError>(count),
            code != 0 ==> outcome == Err::<u32, NvmlError>(error_of_raw(code)),
    {
        let status = NvmlReturnT::from_raw(code);
        match status {
            NvmlReturnT::Success => Ok(count),
            _ => Err(NvmlError::from(status)),
        }
    }

    /// Interprets the reply of the enumeration call: wraps the raw handle
    /// the native layer produced for the requested index. This is the one
    /// place a populated handle wrapper comes from. An out-of-range index
    /// surfaces the error kind of the code the native layer reports.
    pub fn get_handle_by_index(&self, code: u32, raw_handle: u64) -> (outcome: Result<
        SafeNvmlDeviceT,
        NvmlError,
    >)
        ensures
            code == 0 ==> (outcome matches Ok(device) && device@ == raw_handle),
            code != 0 ==> outcome == Err::<SafeNvmlDeviceT, NvmlError>(error_of_raw(code)),
    {
        let status = NvmlReturnT::from_raw(code);
        match status {
            NvmlReturnT::Success => Ok(SafeNvmlDeviceT::from_raw(raw_handle)),
            _ => Err(NvmlError::from(status)),
        }
    }

    /// Interprets the reply of the process-name query: on success, the
    /// name buffer decoded as NUL-terminated text; a buffer that does not
    /// decode yields the decoding-failure error, never truncated garbage.
    pub fn system_get_process_name(&self, code: u32, name: &Vec<u8>) -> (outcome: Result<
        String,
        NvmlError,
    >)
        ensures
            code != 0 ==> outcome == Err::<String, NvmlError>(error_of_raw(code)),
            code == 0 && decodes(name@) ==> (outcome matches Ok(text) && text@ == decoded_name(
                name@,
            )),
            code == 0 && !decodes(name@) ==> outcome == Err::<String, NvmlError>(
                NvmlError::NVMLERRORDECODING,
            ),
    {
        let status = NvmlReturnT::from_raw(code);
        match status {
            NvmlReturnT::Success => decode_name(name),
            _ => Err(NvmlError::from(status)),
        }
    }

    /// Interprets the reply of the device-name query, decoding the name
    /// buffer the same way as the process-name query.
    pub fn device_get_name(&self, code: u32, name: &Vec<u8>) -> (outcome: Result<
        String,
        NvmlError,
    >)
        ensures
            code != 0 ==> outcome == Err::<String, NvmlError>(error_of_raw(code)),
            code == 0 && decodes(name@) ==> (outcome matches Ok(text) && text@ == decoded_name(
                name@,
            )),
            code == 0 && !decodes(name@) ==> outcome == Err::<String, NvmlError>(
                NvmlError::NVMLERRORDECODING,
            ),
    {
        let status = NvmlReturnT::from_raw(code);
        match status {
            NvmlReturnT::Success => decode_name(name),
            _ => Err(NvmlError::from(status)),
        }
    }

    /// Interprets the reply of the device-index query.
    pub fn device_get_index(&self, code: u32, index: u32) -> (outcome: Result<u32, NvmlError>)
        ensures
            code == 0 ==> outcome == Ok::<u32, NvmlError>(index),
            code != 0 ==> outcome == Err::<u32, NvmlError>(error_of_raw(code)),
    {
        let status = NvmlReturnT::from_raw(code);
        match status {
            NvmlReturnT::Success => Ok(index),
            _ => Err(NvmlError::from(status)),
        }
    }

    /// Interprets the reply of the maximum-PCIe-link-generation query.
    pub fn device_get_pcie_version(&self, code: u32, max_link_gen: u32) -> (outcome: Result<
        u32,
        NvmlError,
    >)
        ensures
            code == 0 ==> outcome == Ok::<u32, NvmlError>(max_link_gen),
            code != 0 ==> outcome == Err::<u32, NvmlError>(error_of_raw(code)),
    {
        let status = NvmlReturnT::from_raw(code);
        match status {
            NvmlReturnT::Success => Ok(max_link_gen),
            _ => Err(NvmlError::from(status)),
        }
    }

    /// Interprets the reply of the memory-information query: the populated
    /// record on success, untouched — no field is recomputed or defaulted.
    pub fn device_get_memory_info(&self, code: u32, memory: NvmlMemoryT) -> (outcome: Result<
        NvmlMemoryT,
        NvmlError,
    >)
        ensures
            code == 0 ==> outcome == Ok::<NvmlMemoryT, NvmlError>(memory),
            code != 0 ==> outcome == Err::<NvmlMemoryT, NvmlError>(error_of_raw(code)),
    {
        let status = NvmlReturnT::from_raw(code);
        match status {
            NvmlReturnT::Success => Ok(memory),
            _ => Err(NvmlError::from(status)),
        }
    }

    /// Interprets the reply of the power-management-limit query, in
    /// milliwatts.
    pub fn device_get_power_management_limit(&self, code: u32, limit: u32) -> (outcome: Result<
        u32,
        NvmlError,
    >)
        ensures
            code == 0 ==> outcome == Ok::<u32, NvmlError>(limit),
            code != 0 ==> outcome == Err::<u32, NvmlError>(error_of_raw(code)),
    {
        let status = NvmlReturnT::from_raw(code);
        match status {
            NvmlReturnT::Success => Ok(limit),
            _ => Err(NvmlError::from(status)),
        }
    }

    /// Interprets the reply of a maximum-clock query for one clock domain,
    /// in MHz. The domain selector is encoded with
    /// [`NvmlClockTypeT::as_raw`] before the native call.
    pub fn device_get_max_clock_info(&self, code: u32, clock_mhz: u32) -> (outcome: Result<
        u32,
        NvmlError,
    >)
        ensures
            code == 0 ==> outcome == Ok::<u32, NvmlError>(clock_mhz),
            code != 0 ==> outcome == Err::<u32, NvmlError>(error_of_raw(code)),
    {
        let status = NvmlReturnT::from_raw(code);
        match status {
            NvmlReturnT::Success => Ok(clock_mhz),
            _ => Err(NvmlError::from(status)),
        }
    }

    /// Interprets the reply of a current-clock query for one clock domain,
    /// in MHz.
    pub fn device_get_clock_info(&self, code: u32, clock_mhz: u32) -> (outcome: Result<
        u32,
        NvmlError,
    >)
        ensures
            code == 0 ==> outcome == Ok::<u32, NvmlError>(clock_mhz),
            code != 0 ==> outcome == Err::<u32, NvmlError>(error_of_raw(code)),
    {
        let status = NvmlReturnT::from_raw(code);
        match status {
            NvmlReturnT::Success => Ok(clock_mhz),
            _ => Err(NvmlError::from(status)),
        }
    }

    /// Interprets the reply of a temperature query for one sensor, in
    /// degrees Celsius.
    pub fn device_get_temperature(&self, code: u32, temp: u32) -> (outcome: Result<u32, NvmlError>)
        ensures
            code == 0 ==> outcome == Ok::<u32, NvmlError>(temp),
            code != 0 ==> outcome == Err::<u32, NvmlError>(error_of_raw(code)),
    {
        let status = NvmlReturnT::from_raw(code);
        match status {
            NvmlReturnT::Success => Ok(temp),
            _ => Err(NvmlError::from(status)),
        }
    }

    /// Interprets the reply of the fan-speed query, as a percentage of the
    /// maximum speed.
    pub fn device_get_fan_speed(&self, code: u32, speed: u32) -> (outcome: Result<u32, NvmlError>)
        ensures
            code == 0 ==> outcome == Ok::<u32, NvmlError>(speed),
            code != 0 ==> outcome == Err::<u32, NvmlError>(error_of_raw(code)),
    {
        let status = NvmlReturnT::from_raw(code);
        match status {
            NvmlReturnT::Success => Ok(speed),
            _ => Err(NvmlError::from(status)),
        }
    }

    /// Interprets the reply of the power-usage query, in milliwatts.
    pub fn device_get_power_usage(&self, code: u32, power: u32) -> (outcome: Result<u32, NvmlError>)
        ensures
            code == 0 ==> outcome == Ok::<u32, NvmlError>(power),
            code != 0 ==> outcome == Err::<u32, NvmlError>(error_of_raw(code)),
    {
        let status = NvmlReturnT::from_raw(code);
        match status {
            NvmlReturnT::Success => Ok(power),
            _ => Err(NvmlError::from(status)),
        }
    }

    /// Interprets the reply of a PCIe-throughput query for one counter, in
    /// KB/s.
    pub fn device_get_pcie_throughput(&self, code: u32, value: u32) -> (outcome: Result<
        u32,
        NvmlError,
    >)
        ensures
            code == 0 ==> outcome == Ok::<u32, NvmlError>(value),
            code != 0 ==> outcome == Err::<u32, NvmlError>(error_of_raw(code)),
    {
        let status = NvmlReturnT::from_raw(code);
        match status {
            NvmlReturnT::Success => Ok(value),
            _ => Err(NvmlError::from(status)),
        }
    }

    /// Interprets the reply of the utilization-rates query: the populated
    /// record on success, untouched.
    pub fn device_get_utilization_rates(&self, code: u32, utilization: NvmlUtilizationT) -> (outcome:
        Result<NvmlUtilizationT, NvmlError>)
        ensures
            code == 0 ==> outcome == Ok::<NvmlUtilizationT, NvmlError>(utilization),
            code != 0 ==> outcome == Err::<NvmlUtilizationT, NvmlError>(error_of_raw(code)),
    {
        let status = NvmlReturnT::from_raw(code);
        match status {
            NvmlReturnT::Success => Ok(utilization),
            _ => Err(NvmlError::from(status)),
        }
    }
}

} // verus!
