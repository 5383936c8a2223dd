//! The two-phase process-list retrieval: empty success, the single
//! size-driven retry, and the retry ceiling.

use gpu_info::codes::NvmlError;
use gpu_info::nvidia::{NvmlProcessInfoT, MAX_PROCESS_COUNT};
use gpu_info::processes::ProcessListFetch;

fn entry(pid: u32) -> NvmlProcessInfoT {
    NvmlProcessInfoT {
        pid,
        used_gpu_memory: u64::from(pid) * 1024,
        gpu_instance_id: 0,
        compute_instance_id: 0,
    }
}

fn buffer(filled: u32, capacity: u32) -> Vec<NvmlProcessInfoT> {
    let mut entries = vec![NvmlProcessInfoT::default(); capacity as usize];
    for i in 0..filled.min(capacity) {
        entries[i as usize] = entry(i + 1);
    }
    entries
}

#[test]
fn zero_processes_is_an_empty_success() {
    let mut fetch = ProcessListFetch::start(10);
    assert_eq!(fetch.request(), Some(10));
    // The native call succeeds and reports zero entries.
    fetch.step(0, 0, buffer(0, 10));
    assert_eq!(fetch.request(), None);
    assert_eq!(fetch.into_result(), Ok(Vec::new()));
}

#[test]
fn result_length_is_the_reported_count_not_the_capacity() {
    let mut fetch = ProcessListFetch::start(10);
    fetch.step(0, 3, buffer(3, 10));
    let processes = fetch.into_result().unwrap();
    assert_eq!(processes.len(), 3);
    assert_eq!(processes, vec![entry(1), entry(2), entry(3)]);
}

#[test]
fn a_short_buffer_earns_exactly_one_retry_at_the_reported_size() {
    let mut fetch = ProcessListFetch::start(10);
    // First call: insufficient size, 30 processes exist.
    fetch.step(7, 30, buffer(10, 10));
    // Exactly one retry, sized to the reported count.
    assert_eq!(fetch.request(), Some(30));
    // Second call: success, all 30 entries.
    fetch.step(0, 30, buffer(30, 30));
    assert_eq!(fetch.request(), None);
    let processes = fetch.into_result().unwrap();
    assert_eq!(processes.len(), 30);
    assert_eq!(processes[29], entry(30));
}

#[test]
fn a_second_short_buffer_is_an_error_not_another_retry() {
    let mut fetch = ProcessListFetch::start(10);
    fetch.step(7, 30, buffer(10, 10));
    assert_eq!(fetch.request(), Some(30));
    // The retry also comes back short: the retrieval fails.
    fetch.step(7, 35, buffer(30, 30));
    assert_eq!(fetch.request(), None);
    assert_eq!(fetch.into_result(), Err(NvmlError::NVMLERRORINSUFFICIENTSIZE));
}

#[test]
fn a_count_beyond_the_driver_maximum_is_an_error() {
    let max = MAX_PROCESS_COUNT as u32;
    let mut fetch = ProcessListFetch::start(max);
    fetch.step(7, max + 1, buffer(max, max));
    assert_eq!(fetch.into_result(), Err(NvmlError::NVMLERRORINSUFFICIENTSIZE));
}

#[test]
fn a_count_equal_to_the_driver_maximum_fits() {
    let max = MAX_PROCESS_COUNT as u32;
    let mut fetch = ProcessListFetch::start(10);
    fetch.step(7, max, buffer(10, 10));
    assert_eq!(fetch.request(), Some(max));
    fetch.step(0, max, buffer(max, max));
    let processes = fetch.into_result().unwrap();
    assert_eq!(processes.len(), MAX_PROCESS_COUNT);
}

#[test]
fn other_failure_codes_end_the_retrieval_with_their_kind() {
    let mut fetch = ProcessListFetch::start(10);
    fetch.step(1, 0, buffer(0, 10));
    assert_eq!(fetch.into_result(), Err(NvmlError::NVMLERRORUNINITIALIZED));

    let mut fetch = ProcessListFetch::start(10);
    fetch.step(15, 0, buffer(0, 10));
    assert_eq!(fetch.into_result(), Err(NvmlError::NVMLERRORGPUISLOST));
}
