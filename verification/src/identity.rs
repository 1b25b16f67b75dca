//! Account identities and the fixed identities the protocol trusts.

use vstd::prelude::*;
use vstd::std_specs::cmp::PartialEqSpecImpl;

verus! {

/// The only router the protocol delegates conversions to.
pub const JUPITER_PROGRAM_ID: [u8; 32] = [
    0x04, 0x79, 0xd5, 0x64, 0x0a, 0x7b, 0xf4, 0xe5, 0xa0, 0x15, 0xd0, 0xaa, 0xc6, 0xe9, 0xa2, 0x65,
    0x90, 0x9e, 0xa8, 0x71, 0xef, 0x77, 0x99, 0xe4, 0x82, 0x8a, 0x98, 0x0b, 0xe3, 0x7f, 0xa3, 0x8b,
];

/// The only asset in which commission is settled.
pub const USDC_MINT: [u8; 32] = [
    0xc6, 0xfa, 0x7a, 0xf3, 0xbe, 0xdb, 0xad, 0x3a, 0x3d, 0x65, 0xf3, 0x6a, 0xab, 0xc9, 0x74, 0x31,
    0xb1, 0xbb, 0xe4, 0xc2, 0xd2, 0xf6, 0xe0, 0xe4, 0x7c, 0xa6, 0x02, 0x03, 0x45, 0x2f, 0x5d, 0x61,
];

/// An opaque account identifier: 32 bytes that the protocol only ever compares and forwards.
#[derive(Clone, Copy, Debug, Eq, Hash)]
pub struct Identity {
    pub bytes: [u8; 32],
}

impl PartialEq for Identity {
    fn eq(&self, other: &Identity) -> (same: bool) {
        let mut i: usize = 0;
        while i < 32
            invariant
                i <= 32,
                forall|k: int| 0 <= k < i ==> self.bytes[k] == other.bytes[k],
            decreases 32 - i,
        {
            if self.bytes[i] != other.bytes[i] {
                return false;
            }
            i += 1;
        }
        assert(self.bytes =~= other.bytes);
        true
    }
}

impl PartialEqSpecImpl for Identity {
    open spec fn obeys_eq_spec() -> bool {
        true
    }

    open spec fn eq_spec(&self, other: &Identity) -> bool {
        self.bytes == other.bytes
    }
}

impl Identity {
    /// The identity made of exactly these bytes.
    pub fn new(bytes: [u8; 32]) -> (id: Identity)
        ensures
            id.bytes == bytes,
    {
        Identity { bytes }
    }

    /// The bytes of this identity.
    pub fn to_bytes(&self) -> (bytes: [u8; 32])
        ensures
            bytes == self.bytes,
    {
        self.bytes
    }

    /// Whether this is the trusted router.
    pub open spec fn is_trusted_router(self) -> bool {
        self.bytes == JUPITER_PROGRAM_ID
    }

    /// Whether this is the settlement asset.
    pub open spec fn is_settlement_asset(self) -> bool {
        self.bytes == USDC_MINT
    }
}

/// The identity of the trusted router.
pub fn trusted_router() -> (id: Identity)
    ensures
        id.bytes == JUPITER_PROGRAM_ID,
{
    Identity { bytes: JUPITER_PROGRAM_ID }
}

/// The identity of the settlement asset.
pub fn settlement_asset() -> (id: Identity)
    ensures
        id.bytes == USDC_MINT,
{
    Identity { bytes: USDC_MINT }
}

} // verus!
