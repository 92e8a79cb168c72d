//! Blockchain account addresses.
//!
//! An account address is a fixed-size identifier: the SHA3-256 digest of the
//! canonical byte encoding of the account's aggregated public key.  It is a
//! pure function of the public key and is never mutated.

use vstd::prelude::*;

use crate::codec::clone_bytes;
use crate::error::AddressError;

verus! {

/// The width of an account address in bytes.
pub const ADDRESS_LENGTH: usize = 32;

/// A fixed-size account identifier.
#[derive(Debug, PartialEq, Eq)]
pub struct AccountAddress {
    bytes: Vec<u8>,
}

impl View for AccountAddress {
    type V = Seq<u8>;

    closed spec fn view(&self) -> Seq<u8> {
        self.bytes@
    }
}

impl Clone for AccountAddress {
    fn clone(&self) -> (r: Self)
        ensures
            r@ == self@,
    {
        AccountAddress { bytes: clone_bytes(&self.bytes) }
    }
}

impl AccountAddress {
    /// The fixed width of an address.
    pub open spec fn wf(&self) -> bool {
        self@.len() == ADDRESS_LENGTH
    }

    /// Attempts to reinterpret raw hash output as an address; fails exactly
    /// when the byte string does not have the fixed address width.
    pub fn try_from_bytes(bytes: &Vec<u8>) -> (r: Result<AccountAddress, AddressError>)
        ensures
            r is Ok <==> bytes@.len() == ADDRESS_LENGTH,
            r matches Ok(a) ==> a@ == bytes@ && a.wf(),
            r is Err ==> r == Err::<AccountAddress, AddressError>(AddressError::WidthMismatch),
    {
        if bytes.len() == ADDRESS_LENGTH {
            Ok(AccountAddress { bytes: clone_bytes(bytes) })
        } else {
            Err(AddressError::WidthMismatch)
        }
    }

    /// The address as raw bytes.
    pub fn to_vec(&self) -> (r: Vec<u8>)
        ensures
            r@ == self@,
    {
        clone_bytes(&self.bytes)
    }

    /// Byte-for-byte equality of two addresses.
    pub fn equals(&self, other: &AccountAddress) -> (r: bool)
        ensures
            r == (self@ == other@),
    {
        if self.bytes.len() != other.bytes.len() {
            return false;
        }
        let n = self.bytes.len();
        let mut i: usize = 0;
        while i < n
            invariant
                i <= n,
                n == self@.len(),
                n == other@.len(),
                forall|j: int| 0 <= j < i ==> self@[j] == other@[j],
            decreases n - i,
        {
            if self.bytes[i] != other.bytes[i] {
                return false;
            }
            i = i + 1;
        }
        proof {
            assert(self@ =~= other@);
        }
        true
    }
}

} // verus!
