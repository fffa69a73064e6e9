//! The content checksum by which a photo is known: Adler-32.

use vstd::prelude::*;

verus! {

/// The modulus of both running sums: the largest prime below 65536.
pub open spec fn adler_base() -> int {
    65521
}

/// The low sum after `bytes`: one plus the bytes, modulo the base.
pub open spec fn adler_low(bytes: Seq<u8>) -> int
    decreases bytes.len(),
{
    if bytes.len() == 0 {
        1
    } else {
        (adler_low(bytes.drop_last()) + bytes.last()) % adler_base()
    }
}

/// The high sum after `bytes`: the low sums after each byte, added up modulo
/// the base.
pub open spec fn adler_high(bytes: Seq<u8>) -> int
    decreases bytes.len(),
{
    if bytes.len() == 0 {
        0
    } else {
        (adler_high(bytes.drop_last()) + adler_low(bytes)) % adler_base()
    }
}

/// The Adler-32 checksum of `bytes`: the high sum in the upper sixteen bits,
/// the low sum in the lower.
pub open spec fn adler32_of(bytes: Seq<u8>) -> int {
    adler_high(bytes) * 65536 + adler_low(bytes)
}

/// The checksum of a file's content.
pub fn content_checksum(content: &[u8]) -> (checksum: u32)
    ensures
        checksum == adler32_of(content@),
{
    adler32_hash(content)
}

/// Equal content has equal checksums, wherever it lies.
pub proof fn equal_content_equal_checksum(first: Seq<u8>, second: Seq<u8>)
    requires
        first == second,
    ensures
        adler32_of(first) == adler32_of(second),
{
}

/// Calls `RollingAdler32::from_buffer` and `RollingAdler32::hash` of the
/// adler32 crate. Believed of them: the result is the Adler-32 checksum of
/// the whole buffer, started from the value one.
#[verifier::external_body]
fn adler32_hash(content: &[u8]) -> (checksum: u32)
    ensures
        checksum == adler32_of(content@),
{
    adler32::RollingAdler32::from_buffer(content).hash()
}

} // verus!
