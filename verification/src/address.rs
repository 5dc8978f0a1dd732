//! Account addresses: 32 bytes, compared byte by byte.

use vstd::prelude::*;
use vstd::std_specs::cmp::PartialEqSpecImpl;

verus! {

/// A 32-byte account address.
#[derive(Clone, Copy, Debug)]
pub struct Address {
    pub bytes: [u8; 32],
}

impl View for Address {
    type V = Seq<u8>;

    open spec fn view(&self) -> Seq<u8> {
        self.bytes@
    }
}

impl PartialEq for Address {
    fn eq(&self, other: &Self) -> (same: bool) {
        let mut i: usize = 0;
        while i < 32
            invariant
                i <= 32,
                forall|j: int| 0 <= j < i ==> self.bytes@[j] == other.bytes@[j],
            decreases 32 - i,
        {
            if self.bytes[i] != other.bytes[i] {
                return false;
            }
            i += 1;
        }
        assert(self.bytes =~= other.bytes);
        true
    }
}

impl Eq for Address {}

impl PartialEqSpecImpl for Address {
    open spec fn obeys_eq_spec() -> bool {
        true
    }

    open spec fn eq_spec(&self, other: &Self) -> bool {
        *self == *other
    }
}

impl Address {
    /// The address made of `bytes`.
    pub fn new(bytes: [u8; 32]) -> (address: Address)
        ensures
            address.bytes == bytes,
            address@ == bytes@,
    {
        Address { bytes }
    }

    /// The 32 bytes of the address.
    pub fn to_bytes(&self) -> (bytes: [u8; 32])
        ensures
            bytes == self.bytes,
            bytes@ == self@,
    {
        self.bytes
    }
}

/// Two addresses are the same address exactly when their bytes agree.
pub proof fn lemma_address_view_injective(a: Address, b: Address)
    ensures
        (a@ == b@) <==> (a == b),
        a@.len() == 32,
{
    if a@ == b@ {
        assert(a.bytes =~= b.bytes);
    }
}

/// Bytes of the address of the settlement program.
pub const ID: [u8; 32] = [
    243, 207, 222, 69, 122, 78, 227, 106, 122, 230, 89, 87, 226, 249, 82, 16,
    190, 96, 168, 182, 105, 249, 145, 131, 138, 149, 250, 48, 25, 173, 202, 212,
];

/// The settlement program as an [`Address`].
pub fn id() -> (program: Address)
    ensures
        program.bytes == ID,
        program@ == ID@,
{
    Address { bytes: ID }
}

/// Bytes of the mint whose token every order pays out.
pub const MINT_ADDRESS: [u8; 32] = [
    83, 71, 62, 24, 52, 239, 3, 112, 91, 203, 40, 149, 125, 78, 195, 6,
    50, 235, 18, 231, 139, 210, 95, 126, 206, 108, 48, 117, 185, 87, 207, 247,
];

/// The mint as an [`Address`].
pub fn mint_address() -> (mint: Address)
    ensures
        mint.bytes == MINT_ADDRESS,
        mint@ == MINT_ADDRESS@,
{
    Address { bytes: MINT_ADDRESS }
}

} // verus!
