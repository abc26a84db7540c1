//! Fixed-size EVM values held as plain integers and bytes.

use vstd::prelude::*;

verus! {

/// A 20-byte account address.
pub type Address = [u8; 20];

/// A 32-byte hash.
pub type B256 = [u8; 32];

/// The number of bytes in an [`Address`].
pub const ADDRESS_LEN: usize = 20;

/// A 256-bit unsigned integer, least significant limb first.
#[derive(Clone, Copy, Debug, PartialEq, Eq)]
pub struct U256 {
    /// The four 64-bit limbs.
    pub limbs: [u64; 4],
}

impl View for U256 {
    type V = nat;

    /// The number that the limbs write in base two to the sixty-fourth.
    open spec fn view(&self) -> nat {
        let b: nat = 0x1_0000_0000_0000_0000;
        self.limbs@[0] as nat + b * (self.limbs@[1] as nat + b * (self.limbs@[2] as nat + b
            * self.limbs@[3] as nat))
    }
}

impl U256 {
    /// The 256-bit integer with the value of `n`.
    pub fn from_u64(n: u64) -> (r: U256)
        ensures
            r@ == n,
            r.limbs@ =~= seq![n, 0u64, 0u64, 0u64],
    {
        U256 { limbs: [n, 0, 0, 0] }
    }

    /// The 256-bit integer zero.
    pub fn zero() -> (r: U256)
        ensures
            r@ == 0,
            r.limbs@ =~= seq![0u64, 0u64, 0u64, 0u64],
    {
        U256::from_u64(0)
    }
}

/// The bytes of the address that is all zeros.
pub open spec fn zero_address() -> Seq<u8> {
    Seq::new(20, |i: int| 0u8)
}

/// The address whose bytes are those of `bytes`.
pub fn address_from_slice(bytes: &[u8]) -> (r: Address)
    requires
        bytes@.len() == ADDRESS_LEN,
    ensures
        r@ == bytes@,
{
    let mut address: Address = [0u8; 20];
    let mut i: usize = 0;
    while i < ADDRESS_LEN
        invariant
            i <= ADDRESS_LEN,
            bytes@.len() == ADDRESS_LEN,
            address@.len() == ADDRESS_LEN,
            forall|j: int| 0 <= j < i ==> address@[j] == bytes@[j],
        decreases ADDRESS_LEN - i,
    {
        address[i] = bytes[i];
        i += 1;
    }
    address
}

/// Whether two hashes are the same.
pub fn hash_eq(a: &B256, b: &B256) -> (r: bool)
    ensures
        r == (a@ == b@),
{
    let mut i: usize = 0;
    while i < 32
        invariant
            i <= 32,
            forall|j: int| 0 <= j < i ==> a@[j] == b@[j],
        decreases 32 - i,
    {
        if a[i] != b[i] {
            return false;
        }
        i += 1;
    }
    assert(a@ =~= b@);
    true
}

/// The bytes of `bytes` in a vector of their own.
pub fn bytes_to_vec(bytes: &[u8]) -> (r: Vec<u8>)
    ensures
        r@ == bytes@,
{
    let mut out: Vec<u8> = Vec::new();
    let mut i: usize = 0;
    while i < bytes.len()
        invariant
            i <= bytes@.len(),
            out@ =~= bytes@.take(i as int),
        decreases bytes@.len() - i,
    {
        out.push(bytes[i]);
        i += 1;
    }
    out
}

} // verus!
