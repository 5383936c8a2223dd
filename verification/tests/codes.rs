//! The return-code mapping: every documented code yields its own error
//! kind, anything else yields the unknown kind, and codes survive the
//! round trip through their raw integers.

use gpu_info::codes::{NvmlError, NvmlReturnT};

fn map(raw: u32) -> NvmlError {
    NvmlError::from(NvmlReturnT::from_raw(raw))
}

#[test]
fn every_documented_code_maps_to_its_own_kind() {
    let expected: [(u32, NvmlError); 28] = [
        (0, NvmlError::NvmlSuccess),
        (1, NvmlError::NVMLERRORUNINITIALIZED),
        (2, NvmlError::NVMLERRORINVALIDARGUMENT),
        (3, NvmlError::NVMLERRORNOTSUPPORTED),
        (4, NvmlError::NVMLERRORNOPERMISSION),
        (5, NvmlError::NVMLERRORALREADYINITIALIZED),
        (6, NvmlError::NVMLERRORNOTFOUND),
        (7, NvmlError::NVMLERRORINSUFFICIENTSIZE),
        (8, NvmlError::NVMLERRORINSUFFICIENTPOWER),
        (9, NvmlError::NVMLERRORDRIVERNOTLOADED),
        (10, NvmlError::NVMLERRORTIMEOUT),
        (11, NvmlError::NVMLERRORIRQISSUE),
        (12, NvmlError::NVMLERRORLIBRARYNOTFOUND),
        (13, NvmlError::NVMLERRORFUNCTIONNOTFOUND),
        (14, NvmlError::NVMLERRORCORRUPTEDINFOROM),
        (15, NvmlError::NVMLERRORGPUISLOST),
        (16, NvmlError::NVMLERRORRESETREQUIRED),
        (17, NvmlError::NVMLERROROPERATINGSYSTEM),
        (18, NvmlError::NVMLERRORLIBRMVERSIONMISMATCH),
        (19, NvmlError::NVMLERRORINUSE),
        (20, NvmlError::NVMLERRORMEMORY),
        (21, NvmlError::NVMLERRORNODATA),
        (22, NvmlError::NVMLERRORVGPUECCNOTSUPPORTED),
        (23, NvmlError::NVMLERRORINSUFFICIENTRESOURCES),
        (24, NvmlError::NVMLERRORFREQNOTSUPPORTED),
        (25, NvmlError::NVMLERRORARGUMENTVERSIONMISMATCH),
        (26, NvmlError::NVMLERRORDEPRECATED),
        (999, NvmlError::NVMLERRORUNKNOWN),
    ];
    for (raw, kind) in expected.iter() {
        assert_eq!(map(*raw), *kind, "code {raw}");
    }
    // Each documented code has its own kind: no two map alike.
    for (raw_a, kind_a) in expected.iter() {
        for (raw_b, kind_b) in expected.iter() {
            if raw_a != raw_b {
                assert_ne!(kind_a, kind_b);
            }
        }
    }
}

#[test]
fn undocumented_codes_map_to_unknown() {
    for raw in [27_u32, 42, 100, 500, 998, 1000, u32::MAX] {
        assert_eq!(map(raw), NvmlError::NVMLERRORUNKNOWN);
    }
}

#[test]
fn codes_round_trip_through_raw_integers() {
    for raw in 0_u32..=26 {
        assert_eq!(NvmlReturnT::from_raw(raw).as_raw(), raw);
    }
    assert_eq!(NvmlReturnT::from_raw(999).as_raw(), 999);
    assert_eq!(NvmlReturnT::from_raw(12345).as_raw(), 999);
}

#[test]
fn every_kind_has_a_message() {
    assert_eq!(
        NvmlError::NVMLERRORUNINITIALIZED.message(),
        "NVML was not first initialized with nvmlInit()"
    );
    assert_eq!(
        NvmlError::NVMLERRORGPUISLOST.message(),
        "The GPU has fallen off the bus or undergone a reset"
    );
    assert!(!NvmlError::NVMLERRORDECODING.message().is_empty());
}
