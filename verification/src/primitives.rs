//! Fixed-width values that the execution rules speak of.

use vstd::prelude::*;

verus! {

/// A 20-byte account address.
#[derive(Debug, Clone, Copy, Eq, Hash, Default)]
pub struct Address {
    /// The bytes, in the order in which the address is written.
    pub bytes: [u8; 20],
}

/// A 32-byte hash.
#[derive(Debug, Clone, Copy, PartialEq, Eq, Hash, Default)]
pub struct B256 {
    /// The bytes, in the order in which the hash is written.
    pub bytes: [u8; 32],
}

/// An unsigned integer of 256 bits.
#[derive(Debug, Clone, Copy, PartialEq, Eq, Hash, Default)]
pub struct U256 {
    /// The 64-bit limbs, least significant first.
    pub limbs: [u64; 4],
}

/// The bytes of the address that system calls are made from.
pub const SYSTEM_ADDRESS: [u8; 20] = [
    0xff, 0xff, 0xff, 0xff, 0xff, 0xff, 0xff, 0xff, 0xff, 0xff,
    0xff, 0xff, 0xff, 0xff, 0xff, 0xff, 0xff, 0xff, 0xff, 0xfe,
];

/// The address that system calls are made from.
///
/// Reads `eip7002::SYSTEM_ADDRESS` of `alloy-eips`, whose bytes are claimed to be those of
/// [`SYSTEM_ADDRESS`].
#[verifier::external_body]
pub(crate) fn system_address() -> (address: Address)
    ensures
        address.bytes == SYSTEM_ADDRESS,
{
    Address { bytes: alloy_eips::eip7002::SYSTEM_ADDRESS.into_array() }
}

impl PartialEq for Address {
    fn eq(&self, other: &Address) -> (equal: bool) {
        let mut i: usize = 0;
        while i < 20
            invariant
                i <= 20,
                forall|j: int| 0 <= j < i ==> self.bytes@[j] == other.bytes@[j],
            decreases 20 - i,
        {
            if self.bytes[i] != other.bytes[i] {
                assert(self.bytes@[i as int] != other.bytes@[i as int]);
                return false;
            }
            i = i + 1;
        }
        assert(self.bytes =~= other.bytes);
        true
    }
}

impl vstd::std_specs::cmp::PartialEqSpecImpl for Address {
    open spec fn obeys_eq_spec() -> bool {
        true
    }

    open spec fn eq_spec(&self, other: &Address) -> bool {
        *self == *other
    }
}

/// `value` as `len` bytes with the most significant first; what does not fit is cut off.
pub open spec fn big_endian_bytes(value: nat, len: nat) -> Seq<u8>
    decreases len,
{
    if len == 0 {
        seq![]
    } else {
        big_endian_bytes(value / 256, (len - 1) as nat).push((value % 256) as u8)
    }
}

impl U256 {
    /// The number that the limbs stand for.
    pub open spec fn value(self) -> nat {
        (self.limbs@[0] + self.limbs@[1] * 0x1_0000_0000_0000_0000
            + self.limbs@[2] * 0x1_0000_0000_0000_0000_0000_0000_0000_0000
            + self.limbs@[3] * 0x1_0000_0000_0000_0000_0000_0000_0000_0000_0000_0000_0000_0000) as nat
    }

    /// The smaller of the number and `u64::MAX`.
    pub open spec fn saturated(self) -> u64 {
        if self.value() <= u64::MAX {
            self.value() as u64
        } else {
            u64::MAX
        }
    }

    /// The number as a `u64`, or `u64::MAX` where it does not fit.
    ///
    /// Calls `saturating_to` of the 256-bit integer of `alloy-primitives`, which is claimed to
    /// return the smaller of the number and `u64::MAX`.
    #[verifier::external_body]
    pub(crate) fn saturating_to_u64(self) -> (n: u64)
        ensures
            n == self.saturated(),
    {
        alloy_primitives::U256::from_limbs(self.limbs).saturating_to::<u64>()
    }

    /// The number as 32 bytes, the most significant first.
    ///
    /// Calls `to_be_bytes` of the 256-bit integer of `alloy-primitives`, which is claimed to write
    /// out all bytes of the number in that order.
    #[verifier::external_body]
    pub(crate) fn to_be_bytes(self) -> (bytes: [u8; 32])
        ensures
            bytes@ == big_endian_bytes(self.value(), 32),
    {
        alloy_primitives::U256::from_limbs(self.limbs).to_be_bytes::<32>()
    }
}

} // verus!
