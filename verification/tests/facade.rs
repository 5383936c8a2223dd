//! The query façade: lifecycle outcomes, error propagation, value
//! marshaling, and clock-domain encoding.

use gpu_info::codes::NvmlError;
use gpu_info::device::SafeNvmlDeviceT;
use gpu_info::nvidia::{Nvml, NvmlClockTypeT, NvmlMemoryT, NvmlUtilizationT};

#[test]
fn initialize_then_shutdown_succeeds_trivially() {
    let nvml = Nvml::default();
    // A session with no queries between the bracketing calls: the native
    // layer reports success for both, and both outcomes are successes.
    assert_eq!(nvml.init_nvml(0), Ok(()));
    assert_eq!(nvml.shutdown_nvml(0), Ok(()));
}

#[test]
fn double_initialize_reports_already_initialized() {
    let nvml = Nvml::default();
    assert_eq!(nvml.init_nvml(0), Ok(()));
    assert_eq!(nvml.init_nvml(5), Err(NvmlError::NVMLERRORALREADYINITIALIZED));
}

#[test]
fn query_before_initialize_reports_uninitialized() {
    let nvml = Nvml::default();
    // The native layer answers a query outside a session with code 1; the
    // façade surfaces the uninitialized kind, without a crash.
    assert_eq!(nvml.device_get_count(1, 0), Err(NvmlError::NVMLERRORUNINITIALIZED));
    assert_eq!(
        nvml.get_handle_by_index(1, 0).unwrap_err(),
        NvmlError::NVMLERRORUNINITIALIZED
    );
    assert_eq!(nvml.device_get_temperature(1, 0), Err(NvmlError::NVMLERRORUNINITIALIZED));
    let name = vec![0_u8; 96];
    assert_eq!(
        nvml.device_get_name(1, &name).unwrap_err(),
        NvmlError::NVMLERRORUNINITIALIZED
    );
}

#[test]
fn handles_for_every_index_in_range() {
    let nvml = Nvml::default();
    let count = nvml.device_get_count(0, 3).unwrap();
    assert_eq!(count, 3);
    for index in 0..count {
        // In range, the native layer enumerates a device; each reply wraps
        // into a distinct populated handle.
        let raw = 0x1000 + u64::from(index);
        let device = nvml.get_handle_by_index(0, raw).unwrap();
        assert_eq!(device.as_raw(), raw);
        assert!(!device.is_empty());
    }
    // Out of range, the native layer reports an invalid argument: a
    // documented error, not a crash.
    assert_eq!(
        nvml.get_handle_by_index(2, 0).unwrap_err(),
        NvmlError::NVMLERRORINVALIDARGUMENT
    );
}

#[test]
fn default_handle_is_the_empty_placeholder() {
    let device = SafeNvmlDeviceT::default();
    assert!(device.is_empty());
    assert_eq!(device.as_raw(), 0);
}

#[test]
fn scalar_queries_return_the_out_parameter_on_success() {
    let nvml = Nvml::default();
    assert_eq!(nvml.device_get_index(0, 2), Ok(2));
    assert_eq!(nvml.device_get_pcie_version(0, 4), Ok(4));
    assert_eq!(nvml.device_get_power_management_limit(0, 250_000), Ok(250_000));
    assert_eq!(nvml.device_get_max_clock_info(0, 2100), Ok(2100));
    assert_eq!(nvml.device_get_clock_info(0, 1410), Ok(1410));
    assert_eq!(nvml.device_get_temperature(0, 62), Ok(62));
    assert_eq!(nvml.device_get_fan_speed(0, 35), Ok(35));
    assert_eq!(nvml.device_get_power_usage(0, 117_500), Ok(117_500));
    assert_eq!(nvml.device_get_pcie_throughput(0, 812), Ok(812));
}

#[test]
fn scalar_queries_map_failure_codes() {
    let nvml = Nvml::default();
    assert_eq!(nvml.device_get_fan_speed(3, 35), Err(NvmlError::NVMLERRORNOTSUPPORTED));
    assert_eq!(nvml.device_get_temperature(15, 0), Err(NvmlError::NVMLERRORGPUISLOST));
    assert_eq!(nvml.device_get_power_usage(777, 0), Err(NvmlError::NVMLERRORUNKNOWN));
}

#[test]
fn record_queries_pass_the_record_through_untouched() {
    let nvml = Nvml::default();
    let memory = NvmlMemoryT { total: 8_589_934_592, free: 6_442_450_944, used: 2_147_483_648 };
    assert_eq!(nvml.device_get_memory_info(0, memory), Ok(memory));
    assert_eq!(
        nvml.device_get_memory_info(20, memory),
        Err(NvmlError::NVMLERRORMEMORY)
    );
    let utilization = NvmlUtilizationT { gpu: 87, memory: 42 };
    assert_eq!(nvml.device_get_utilization_rates(0, utilization), Ok(utilization));
    assert_eq!(
        nvml.device_get_utilization_rates(6, utilization),
        Err(NvmlError::NVMLERRORNOTFOUND)
    );
}

#[test]
fn clock_domains_encode_to_their_documented_selectors() {
    // The round trip of a clock-domain selector through a query hands the
    // native layer exactly the documented integer.
    assert_eq!(NvmlClockTypeT::Graphics.as_raw(), 0);
    assert_eq!(NvmlClockTypeT::SM.as_raw(), 1);
    assert_eq!(NvmlClockTypeT::Memory.as_raw(), 2);
    assert_eq!(NvmlClockTypeT::Video.as_raw(), 3);
    assert_eq!(NvmlClockTypeT::Count.as_raw(), 4);
}
