//! Byte quantities.

use vstd::prelude::*;

verus! {

/// The number of bytes in one mebibyte.
pub const BYTES_PER_MIB: u64 = 1_048_576;

/// Trusted: `bytesize::mib` multiplies its argument by 1,048,576, the number
/// of bytes in a mebibyte. Counts whose product does not fit in 64 bits are
/// left out.
#[verifier::external_body]
pub(crate) fn mib(count: u64) -> (bytes: u64)
    requires
        count * BYTES_PER_MIB <= u64::MAX,
    ensures
        bytes == count * BYTES_PER_MIB,
{
    bytesize::mib(count)
}

} // verus!
