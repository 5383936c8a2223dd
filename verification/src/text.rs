//! Decoding of fixed-capacity, NUL-terminated name buffers.
//!
//! The native layer writes device and process names into fixed-size byte
//! buffers as NUL-terminated text. A buffer decodes when it holds a NUL
//! terminator and the bytes before the first NUL are valid UTF-8; the
//! decoded name is exactly those bytes read as text. A buffer with no
//! terminator, or with bytes before the terminator that are not valid
//! UTF-8, is rejected with the wrapper's own decoding-failure error —
//! never truncated garbage, and never a panic.

use vstd::prelude::*;
use vstd::utf8::{decode_utf8, valid_utf8};

use crate::codes::NvmlError;

verus! {

/// True when position `i` holds the first NUL byte of the buffer.
pub open spec fn is_first_nul(bytes: Seq<u8>, i: int) -> bool {
    &&& 0 <= i < bytes.len()
    &&& bytes[i] == 0
    &&& forall|j: int| 0 <= j < i ==> bytes[j] != 0
}

/// True when the buffer holds a NUL terminator at all.
pub open spec fn has_nul(bytes: Seq<u8>) -> bool {
    exists|i: int| is_first_nul(bytes, i)
}

/// The position of the first NUL byte of a terminated buffer.
pub open spec fn first_nul(bytes: Seq<u8>) -> int {
    choose|i: int| is_first_nul(bytes, i)
}

/// The text bytes of a terminated buffer: everything before the first NUL.
pub open spec fn name_bytes(bytes: Seq<u8>) -> Seq<u8> {
    bytes.subrange(0, first_nul(bytes))
}

/// True when the buffer decodes as a name: it is NUL-terminated and the
/// bytes before the terminator are valid UTF-8.
pub open spec fn decodes(bytes: Seq<u8>) -> bool {
    has_nul(bytes) && valid_utf8(name_bytes(bytes))
}

/// The name a decodable buffer holds.
pub open spec fn decoded_name(bytes: Seq<u8>) -> Seq<char> {
    decode_utf8(name_bytes(bytes))
}

/// The first NUL position is the one position satisfying [`is_first_nul`].
proof fn lemma_first_nul_unique(bytes: Seq<u8>, i: int)
    requires
        is_first_nul(bytes, i),
    ensures
        first_nul(bytes) == i,
{
    assert(has_nul(bytes));
    let k = first_nul(bytes);
    assert(is_first_nul(bytes, k));
    if k < i {
        assert(bytes[k] != 0);
    } else if i < k {
        assert(bytes[i] != 0);
    }
}

/// Relies on str::from_utf8: it succeeds exactly on valid UTF-8 input, and
/// the resulting text is the UTF-8 decoding of the bytes.
#[verifier::external_body]
fn utf8_to_string(bytes: &[u8]) -> (text: Option<String>)
    ensures
        text is Some <==> valid_utf8(bytes@),
        text matches Some(s) ==> s@ == decode_utf8(bytes@),
{
    match std::str::from_utf8(bytes) {
        Ok(s) => Some(s.to_owned()),
        Err(_) => None,
    }
}

/// Decodes a NUL-terminated name buffer.
///
/// Returns the text before the first NUL when the buffer decodes, and the
/// decoding-failure error when it holds no NUL or the bytes before the NUL
/// are not valid UTF-8.
pub fn decode_name(buf: &Vec<u8>) -> (name: Result<String, NvmlError>)
    ensures
        decodes(buf@) ==> (name matches Ok(s) && s@ == decoded_name(buf@)),
        !decodes(buf@) ==> name == Err::<String, NvmlError>(NvmlError::NVMLERRORDECODING),
{
    let n = buf.len();
    let mut i: usize = 0;
    while i < n && buf[i] != 0
        invariant
            n == buf@.len(),
            i <= n,
            forall|j: int| 0 <= j < i ==> buf@[j] != 0,
        decreases n - i,
    {
        i = i + 1;
    }
    if i == n {
        proof {
            assert forall|k: int| !is_first_nul(buf@, k) by {
                if 0 <= k < buf@.len() {
                    assert(buf@[k] != 0);
                }
            }
        }
        return Err(NvmlError::NVMLERRORDECODING);
    }
    proof {
        lemma_first_nul_unique(buf@, i as int);
    }
    let mut prefix: Vec<u8> = Vec::new();
    let mut j: usize = 0;
    while j < i
        invariant
            j <= i,
            i < buf@.len(),
            prefix@ =~= buf@.subrange(0, j as int),
        decreases i - j,
    {
        prefix.push(buf[j]);
        j = j + 1;
    }
    assert(prefix@ =~= name_bytes(buf@));
    match utf8_to_string(prefix.as_slice()) {
        Some(s) => Ok(s),
        None => Err(NvmlError::NVMLERRORDECODING),
    }
}

} // verus!
