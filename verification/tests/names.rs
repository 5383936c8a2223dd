//! Name-buffer decoding: NUL-terminated text comes out whole, and
//! anything else is a decoding failure, not truncated garbage.

use gpu_info::codes::NvmlError;
use gpu_info::nvidia::{Nvml, MAX_NAME_LENGTH};
use gpu_info::text::decode_name;

fn buffer_with(text: &[u8]) -> Vec<u8> {
    let mut buf = vec![0_u8; MAX_NAME_LENGTH];
    buf[..text.len()].copy_from_slice(text);
    buf
}

#[test]
fn name_is_read_up_to_the_first_nul() {
    let buf = buffer_with(b"gpu0");
    assert_eq!(decode_name(&buf), Ok(String::from("gpu0")));
}

#[test]
fn bytes_after_the_first_nul_are_ignored() {
    let mut buf = buffer_with(b"gpu0");
    buf[6] = 0xFF; // garbage beyond the terminator does not matter
    assert_eq!(decode_name(&buf), Ok(String::from("gpu0")));
}

#[test]
fn invalid_text_before_the_nul_is_a_decoding_failure() {
    let mut buf = buffer_with(b"gpu0");
    buf[2] = 0xFF; // not valid UTF-8
    assert_eq!(decode_name(&buf), Err(NvmlError::NVMLERRORDECODING));
}

#[test]
fn a_buffer_without_a_terminator_is_a_decoding_failure() {
    let buf = vec![b'a'; MAX_NAME_LENGTH];
    assert_eq!(decode_name(&buf), Err(NvmlError::NVMLERRORDECODING));
}

#[test]
fn an_immediate_nul_decodes_to_the_empty_name() {
    let buf = vec![0_u8; 4];
    assert_eq!(decode_name(&buf), Ok(String::new()));
}

#[test]
fn multibyte_text_is_decoded_not_copied() {
    // "caf\u{e9}" in UTF-8 is five bytes; the decoded string has four
    // characters, so decoding really interprets the bytes.
    let buf = buffer_with("caf\u{e9}".as_bytes());
    let name = decode_name(&buf).unwrap();
    assert_eq!(name, "caf\u{e9}");
    assert_eq!(name.chars().count(), 4);
}

#[test]
fn device_name_query_decodes_on_success() {
    let nvml = Nvml::default();
    let buf = buffer_with(b"Some Graphics Device");
    assert_eq!(
        nvml.device_get_name(0, &buf),
        Ok(String::from("Some Graphics Device"))
    );
}

#[test]
fn device_name_query_reports_decoding_failure() {
    let nvml = Nvml::default();
    let mut buf = buffer_with(b"bad");
    buf[1] = 0xC0; // an invalid UTF-8 byte before the terminator
    assert_eq!(nvml.device_get_name(0, &buf), Err(NvmlError::NVMLERRORDECODING));
}

#[test]
fn device_name_query_prefers_the_native_error() {
    let nvml = Nvml::default();
    let mut buf = buffer_with(b"bad");
    buf[1] = 0xC0;
    // A failed native call reports its own error; the buffer is not read.
    assert_eq!(nvml.device_get_name(3, &buf), Err(NvmlError::NVMLERRORNOTSUPPORTED));
}

#[test]
fn process_name_query_decodes_on_success() {
    let nvml = Nvml::default();
    let buf = buffer_with(b"/usr/bin/compositor");
    assert_eq!(
        nvml.system_get_process_name(0, &buf),
        Ok(String::from("/usr/bin/compositor"))
    );
    assert_eq!(
        nvml.system_get_process_name(6, &buf),
        Err(NvmlError::NVMLERRORNOTFOUND)
    );
}
