//! Plain records of the ledger accounts that the engine reads and writes.

use vstd::prelude::*;

verus! {

/// The identity of a party or of an asset: thirty-two bytes.
#[derive(Clone, Copy, Debug, PartialEq, Eq)]
pub struct Address {
    pub bytes: [u8; 32],
}

impl Address {
    /// Whether two identities are the same, byte for byte.
    pub fn same(&self, other: &Address) -> (equal: bool)
        ensures
            equal == (*self == *other),
    {
        let mut i: usize = 0;
        while i < 32
            invariant
                i <= 32,
                forall|j: int| 0 <= j < i ==> self.bytes[j] == other.bytes[j],
            decreases 32 - i,
        {
            if self.bytes[i] != other.bytes[i] {
                return false;
            }
            i = i + 1;
        }
        assert(self.bytes =~= other.bytes);
        true
    }
}

/// The engine's exclusive right to move the inventory held for one asset.
/// It is made from the asset's identity and a tag, under a fixed label, and
/// is compared field by field wherever custody is debited.
#[derive(Clone, Copy, Debug, PartialEq, Eq)]
pub struct CustodyAuthority {
    pub asset: Address,
    pub tag: u8,
}

/// A balance of the ledger's native currency.
#[derive(Clone, Copy, Debug, PartialEq, Eq)]
pub struct Wallet {
    pub key: Address,
    pub lamports: u64,
}

/// A party's holding of one asset.
#[derive(Clone, Copy, Debug, PartialEq, Eq)]
pub struct TokenHolding {
    pub mint: Address,
    pub amount: u64,
}

/// The account that holds the inventory behind a curve.
#[derive(Clone, Copy, Debug, PartialEq, Eq)]
pub struct CustodyAccount {
    pub mint: Address,
    pub authority: CustodyAuthority,
    pub amount: u64,
}

/// The fixed label under which every custody authority is made: the bytes
/// of the words "bonding_curve".
pub open spec fn custody_label() -> Seq<u8> {
    seq![98u8, 111u8, 110u8, 100u8, 105u8, 110u8, 103u8, 95u8, 99u8, 117u8, 114u8, 118u8, 101u8]
}

/// Copies a run of bytes into a vector of its own.
pub fn bytes_of(bytes: &[u8]) -> (copy: Vec<u8>)
    ensures
        copy@ == bytes@,
{
    let mut copy: Vec<u8> = Vec::new();
    let mut i: usize = 0;
    while i < bytes.len()
        invariant
            i <= bytes.len(),
            copy@ == bytes@.take(i as int),
        decreases bytes.len() - i,
    {
        copy.push(bytes[i]);
        assert(copy@ =~= bytes@.take(i + 1));
        i = i + 1;
    }
    assert(bytes@.take(i as int) =~= bytes@);
    copy
}

impl CustodyAuthority {
    /// The three seeds from which the authority is derived, in order: the
    /// fixed label, the asset's identity, and the tag as a single byte.
    pub fn signer_seeds(&self) -> (seeds: Vec<Vec<u8>>)
        ensures
            seeds@.len() == 3,
            seeds@[0]@ == custody_label(),
            seeds@[1]@ == self.asset.bytes@,
            seeds@[2]@ == seq![self.tag],
    {
        let label: [u8; 13] = [98, 111, 110, 100, 105, 110, 103, 95, 99, 117, 114, 118, 101];
        let tag: [u8; 1] = [self.tag];
        let first = bytes_of(label.as_slice());
        let second = bytes_of(self.asset.bytes.as_slice());
        let third = bytes_of(tag.as_slice());
        assert(first@ =~= custody_label());
        assert(third@ =~= seq![self.tag]);
        let mut seeds: Vec<Vec<u8>> = Vec::new();
        seeds.push(first);
        seeds.push(second);
        seeds.push(third);
        seeds
    }

    /// Whether two authorities were made from the same asset and tag.
    pub fn same(&self, other: &CustodyAuthority) -> (equal: bool)
        ensures
            equal == (*self == *other),
    {
        self.tag == other.tag && self.asset.same(&other.asset)
    }
}

} // verus!
