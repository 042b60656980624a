//! Plain value types shared by every component: account addresses, 256-bit
//! unsigned integers and secret keys.

use vstd::prelude::*;

verus! {

/// A 20-byte account address.
#[derive(Clone, Copy, Debug, PartialEq, Eq)]
pub struct Address {
    pub bytes: [u8; 20],
}

impl Address {
    /// Whether two addresses are the same twenty bytes.
    pub fn same(&self, other: &Address) -> (equal: bool)
        ensures
            equal == (*self == *other),
            equal == (self.bytes@ == other.bytes@),
    {
        let mut i: usize = 0;
        while i < 20
            invariant
                i <= 20,
                forall|j: int| 0 <= j < i ==> self.bytes@[j] == other.bytes@[j],
            decreases 20 - i,
        {
            if self.bytes[i] != other.bytes[i] {
                return false;
            }
            i = i + 1;
        }
        assert(self.bytes@ =~= other.bytes@);
        assert(self.bytes == other.bytes);
        true
    }
}

/// Two to the power 64.
pub open spec fn pow64() -> nat {
    0x1_0000_0000_0000_0000nat
}

/// Two to the power 128.
pub open spec fn pow128() -> nat {
    0x1_0000_0000_0000_0000_0000_0000_0000_0000nat
}

/// Two to the power 192.
pub open spec fn pow192() -> nat {
    0x1_0000_0000_0000_0000_0000_0000_0000_0000_0000_0000_0000_0000nat
}

/// Two to the power 256.
pub open spec fn pow256() -> nat {
    0x1_0000_0000_0000_0000_0000_0000_0000_0000_0000_0000_0000_0000_0000_0000_0000_0000nat
}

/// The number that four 64-bit limbs stand for, least significant first.
pub open spec fn limbs_value(limbs: Seq<u64>) -> nat {
    limbs[0] as nat + limbs[1] as nat * pow64() + limbs[2] as nat * pow128() + limbs[3] as nat
        * pow192()
}

/// A 256-bit unsigned integer held as four 64-bit limbs, least significant
/// first.
#[derive(Clone, Copy, Debug, PartialEq, Eq)]
pub struct U256 {
    pub limbs: [u64; 4],
}

impl View for U256 {
    type V = nat;

    open spec fn view(&self) -> nat {
        limbs_value(self.limbs@)
    }
}

impl U256 {
    /// Zero.
    pub fn zero() -> (wide: U256)
        ensures
            wide@ == 0,
    {
        U256 { limbs: [0, 0, 0, 0] }
    }

    /// The largest value: two to the power 256, less one.
    pub fn max_value() -> (wide: U256)
        ensures
            wide@ == pow256() - 1,
    {
        U256 {
            limbs: [
                0xffff_ffff_ffff_ffff,
                0xffff_ffff_ffff_ffff,
                0xffff_ffff_ffff_ffff,
                0xffff_ffff_ffff_ffff,
            ],
        }
    }

    /// The value `value`, widened.
    pub fn from_u64(value: u64) -> (wide: U256)
        ensures
            wide@ == value,
    {
        U256 { limbs: [value, 0, 0, 0] }
    }

    /// `Some` of the value as a `u64` where it fits, `None` where any bit
    /// above the lowest 64 is set.
    pub fn to_u64(&self) -> (narrow: Option<u64>)
        ensures
            narrow == if self@ < pow64() {
                Some(self@ as u64)
            } else {
                None::<u64>
            },
    {
        if self.limbs[1] == 0 && self.limbs[2] == 0 && self.limbs[3] == 0 {
            Some(self.limbs[0])
        } else {
            None
        }
    }
}

/// `U256::checked_add` of ethers-core: the sum where it is below two to
/// the 256, else nothing.
#[verifier::external_body]
pub(crate) fn checked_add(left: &U256, right: &U256) -> (sum: Option<U256>)
    ensures
        sum.is_some() == (left@ + right@ < pow256()),
        sum.is_some() ==> sum.unwrap()@ == left@ + right@,
{
    let left = ethers_core::types::U256(left.limbs);
    let sum = left.checked_add(ethers_core::types::U256(right.limbs));
    sum.map(|sum| U256 { limbs: sum.0 })
}

/// The order of ethers-core's `U256`: that of the numbers.
#[verifier::external_body]
pub(crate) fn exceeds(left: &U256, right: &U256) -> (more: bool)
    ensures
        more == (left@ > right@),
{
    ethers_core::types::U256(left.limbs) > ethers_core::types::U256(right.limbs)
}

/// The number that a byte string stands for, most significant byte first.
pub open spec fn be_value(bytes: Seq<u8>) -> nat
    decreases bytes.len(),
{
    if bytes.len() == 0 {
        0
    } else {
        be_value(bytes.drop_last()) * 256 + bytes.last() as nat
    }
}

/// The order of the secp256k1 group.
pub open spec fn curve_order() -> nat {
    0xFFFF_FFFF_FFFF_FFFF_FFFF_FFFF_FFFF_FFFE_BAAE_DCE6_AF48_A03B_BFD2_5E8C_D036_4141nat
}

/// Whether a byte string encodes a secret key: 24 to 32 bytes that stand
/// for a number above zero and below the group order.
pub open spec fn is_secret_scalar(bytes: Seq<u8>) -> bool {
    24 <= bytes.len() <= 32 && 0 < be_value(bytes) < curve_order()
}

/// A byte string of at most 32 bytes, filled to 32 with leading zeros.
pub open spec fn padded32(bytes: Seq<u8>) -> Seq<u8> {
    Seq::new((32 - bytes.len()) as nat, |i: int| 0u8) + bytes
}

/// `SecretKey::from_slice` of k256, and `to_bytes` of the key it accepts:
/// a byte string is accepted exactly if it encodes a secret key, and the
/// key's 32 bytes are the input behind leading zeros, themselves such an
/// encoding.
#[verifier::external_body]
fn secret_scalar_from_slice(bytes: &[u8]) -> (scalar: Option<[u8; 32]>)
    ensures
        scalar.is_some() == is_secret_scalar(bytes@),
        scalar.is_some() ==> scalar.unwrap()@ == padded32(bytes@),
        scalar.is_some() ==> is_secret_scalar(scalar.unwrap()@),
{
    let key = ethers_core::k256::SecretKey::from_slice(bytes).ok();
    key.map(|key| key.to_bytes().into())
}

/// A secp256k1 secret key, held as its 32 bytes.
#[derive(Clone, Copy, PartialEq, Eq)]
pub struct SecretKey {
    bytes: [u8; 32],
}

impl SecretKey {
    /// Every key encodes a number above zero and below the group order.
    #[verifier::type_invariant]
    pub closed spec fn wf(self) -> bool {
        is_secret_scalar(self.bytes@)
    }

    /// The key's 32 bytes.
    pub closed spec fn bytes(self) -> Seq<u8> {
        self.bytes@
    }

    /// Reads a key from 24 to 32 bytes, most significant first. A string of
    /// another length, zero, and a number at or above the group order are
    /// no key.
    pub fn from_slice(bytes: &[u8]) -> (key: Option<SecretKey>)
        ensures
            key.is_some() == is_secret_scalar(bytes@),
            key.is_some() ==> key.unwrap().bytes() == padded32(bytes@),
    {
        match secret_scalar_from_slice(bytes) {
            Some(scalar) => Some(SecretKey { bytes: scalar }),
            None => None,
        }
    }

    /// The key's 32 bytes.
    pub fn to_bytes(&self) -> (bytes: [u8; 32])
        ensures
            bytes@ == self.bytes(),
            is_secret_scalar(bytes@),
    {
        proof {
            use_type_invariant(self);
        }
        self.bytes
    }
}

} // verus!
