//! The CRC-32 of the patch files.

use vstd::prelude::*;

verus! {

/// The state of a CRC-32 computation.
#[verifier::external_type_specification]
#[verifier::external_body]
pub struct ExHasher(crc32fast::Hasher);

/// The bytes that a hasher was given.
pub uninterp spec fn bytes_fed(hasher: crc32fast::Hasher) -> Seq<u8>;

/// The polynomial of CRC-32 (IEEE), its lowest power in the highest bit.
pub const POLYNOMIAL: u32 = 0xedb8_8320;

/// A register from which the given number of bits was shifted out, each that was set having been
/// divided out by the polynomial.
pub open spec fn shifted(register: u32, bits: nat) -> u32
    decreases bits,
{
    if bits == 0 {
        register
    } else {
        let rest = register >> 1;
        shifted(
            if register & 1 == 1 {
                rest ^ POLYNOMIAL
            } else {
                rest
            },
            (bits - 1) as nat,
        )
    }
}

/// The register after the bytes; all its bits are set at first.
pub open spec fn register_after(bytes: Seq<u8>) -> u32
    decreases bytes.len(),
{
    if bytes.len() == 0 {
        0xffff_ffff
    } else {
        shifted(register_after(bytes.drop_last()) ^ (bytes.last() as u32), 8)
    }
}

/// The CRC-32 (IEEE) of the bytes.
pub open spec fn crc32(bytes: Seq<u8>) -> u32 {
    !register_after(bytes)
}

/// `crc32fast::Hasher::new` gives a hasher that was given no bytes.
pub assume_specification[ crc32fast::Hasher::new ]() -> (r: crc32fast::Hasher)
    ensures
        bytes_fed(r) == Seq::<u8>::empty(),
;

/// `crc32fast::Hasher::update` gives the hasher the bytes of `buf` behind those that it has. It
/// counts them in a `u64`, which they must not exceed.
pub assume_specification[ crc32fast::Hasher::update ](hasher: &mut crc32fast::Hasher, buf: &[u8])
    requires
        bytes_fed(*old(hasher)).len() + buf@.len() <= u64::MAX,
    ensures
        bytes_fed(*final(hasher)) == bytes_fed(*old(hasher)) + buf@,
;

/// `crc32fast::Hasher::finalize` returns the CRC-32 of all the bytes that the hasher was given,
/// however they were split.
pub assume_specification[ crc32fast::Hasher::finalize ](hasher: crc32fast::Hasher) -> (r: u32)
    ensures
        r == crc32(bytes_fed(hasher)),
;

} // verus!
