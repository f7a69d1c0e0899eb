//! Amounts, gas and keys of the NEAR protocol as plain values.
//!
//! An amount is a number of yoctoNEAR, gas a number of gas units.

use vstd::prelude::*;

use crate::json::joined;
use crate::text::decimal;

verus! {

/// One NEAR in yoctoNEAR.
pub const ONE_NEAR: u128 = 1_000_000_000_000_000_000_000_000;

/// One teragas in gas units.
pub const ONE_TGAS: u64 = 1_000_000_000_000;

/// Calls `NearToken::from_near`. Claimed: this gives the amount in yoctoNEAR.
#[verifier::external_body]
pub(crate) fn near_to_yocto(near: u128) -> (yocto: u128)
    requires
        near * ONE_NEAR <= u128::MAX,
    ensures
        yocto == near * ONE_NEAR,
{
    near_sdk::NearToken::from_near(near).as_yoctonear()
}

/// Calls `NearToken::as_near`. Claimed: this gives the whole NEAR in an amount, rounded down.
#[verifier::external_body]
pub(crate) fn yocto_to_near(yocto: u128) -> (near: u128)
    ensures
        near == yocto / ONE_NEAR,
{
    near_sdk::NearToken::from_yoctonear(yocto).as_near()
}

/// Calls `NearToken::saturating_sub`. Claimed: this gives the difference, or zero where the
/// second amount is the larger one.
#[verifier::external_body]
pub(crate) fn yocto_saturating_sub(amount: u128, less: u128) -> (rest: u128)
    ensures
        rest == (if amount >= less {
            amount - less
        } else {
            0
        }),
{
    let less = near_sdk::NearToken::from_yoctonear(less);
    near_sdk::NearToken::from_yoctonear(amount).saturating_sub(less).as_yoctonear()
}

/// Calls `Gas::from_tgas`. Claimed: this gives the gas units in a number of teragas.
#[verifier::external_body]
pub(crate) fn tgas_to_gas(tgas: u64) -> (gas: u64)
    requires
        tgas * ONE_TGAS <= u64::MAX,
    ensures
        gas == tgas * ONE_TGAS,
{
    near_sdk::Gas::from_tgas(tgas).as_gas()
}

/// Bytes that are a public key: a first byte for the curve, and behind it as many bytes as a
/// key of that curve has.
pub open spec fn valid_key_bytes(data: Seq<u8>) -> bool {
    &&& data.len() > 0
    &&& match data[0] {
        0u8 => data.len() == 33,
        1u8 => data.len() == 65,
        2u8 => data.len() == 1953,
        _ => false,
    }
}

/// Calls `near_sdk::PublicKey::try_from`. Claimed: this accepts an ed25519 key of 32 bytes
/// behind a zero, a secp256k1 key of 64 bytes behind a one and an ml-dsa-65 key of 1952 bytes
/// behind a two, and nothing else.
#[verifier::external_body]
fn is_public_key(data: &Vec<u8>) -> (accepted: bool)
    ensures
        accepted == valid_key_bytes(data@),
{
    near_sdk::PublicKey::try_from(data.clone()).is_ok()
}

/// How a public key is shown in a log line.
pub open spec fn public_key_shown(data: Seq<u8>) -> Seq<char> {
    "PublicKey { data: ["@ + joined(data.map_values(|byte: u8| decimal(byte as nat)), ", "@)
        + "] }"@
}

/// Formats a `near_sdk::PublicKey` with its derived `Debug`. Claimed: this names the type and
/// its one field, and gives the bytes in decimal, with a comma and a space between two of them.
#[verifier::external_body]
fn show_public_key(data: &Vec<u8>) -> (text: String)
    requires
        valid_key_bytes(data@),
    ensures
        text@ == public_key_shown(data@),
{
    format!("{:?}", near_sdk::PublicKey::try_from(data.clone()).unwrap())
}

/// A public key in its binary form.
#[derive(Debug)]
pub struct PublicKey {
    data: Vec<u8>,
}

impl View for PublicKey {
    type V = Seq<u8>;

    closed spec fn view(&self) -> Seq<u8> {
        self.data@
    }
}

impl PublicKey {
    #[verifier::type_invariant]
    spec fn well_formed(self) -> bool {
        valid_key_bytes(self.data@)
    }

    /// The key with these bytes, where they are a public key.
    pub fn from_bytes(data: Vec<u8>) -> (key: Option<PublicKey>)
        ensures
            match key {
                Some(key) => valid_key_bytes(data@) && key@ == data@,
                None => !valid_key_bytes(data@),
            },
    {
        if is_public_key(&data) {
            Some(PublicKey { data })
        } else {
            None
        }
    }

    /// The bytes of the key.
    pub fn as_bytes(&self) -> (data: &Vec<u8>)
        ensures
            data@ == self@,
            valid_key_bytes(data@),
    {
        proof {
            use_type_invariant(self);
        }
        &self.data
    }

    /// The key as a log line shows it.
    pub fn shown(&self) -> (text: String)
        ensures
            text@ == public_key_shown(self@),
    {
        proof {
            use_type_invariant(self);
        }
        show_public_key(&self.data)
    }

    /// Whether two keys have the same bytes.
    pub fn same_as(&self, other: &PublicKey) -> (same: bool)
        ensures
            same == (self@ == other@),
    {
        if self.data.len() != other.data.len() {
            return false;
        }
        let mut i: usize = 0;
        while i < self.data.len()
            invariant
                i <= self.data.len(),
                self.data.len() == other.data.len(),
                forall|j: int| 0 <= j < i ==> self.data[j] == other.data[j],
            decreases self.data.len() - i,
        {
            if self.data[i] != other.data[i] {
                return false;
            }
            i = i + 1;
        }
        assert(self@ =~= other@);
        true
    }
}

} // verus!
