//! The 256-bit cryptographic hash used for address derivation and for the
//! canonical transaction digest.
//!
//! The hash itself is computed by an outside implementation of SHA3-256; its
//! output is named by the uninterpreted function [`sha3_of`], and everything
//! the wallet derives from a digest is specified in terms of that name.

use vstd::prelude::*;

use crate::codec::clone_bytes;

verus! {

/// The SHA3-256 digest of a byte string.  The digest is a function of the
/// input bytes alone; it is not given a definition here.
pub uninterp spec fn sha3_of(data: Seq<u8>) -> Seq<u8>;

/// Relies on `tiny_keccak::Sha3::v256` with `update` and `finalize`: the
/// SHA3-256 digest of the input, 32 bytes, a function of the input alone.
#[verifier::external_body]
fn sha3_256_raw(data: &Vec<u8>) -> (r: Vec<u8>)
    ensures
        r@ == sha3_of(data@),
        r@.len() == 32,
{
    let mut keccak = tiny_keccak::Sha3::v256();
    let mut hash = [0u8; 32];
    tiny_keccak::Hasher::update(&mut keccak, data.as_slice());
    tiny_keccak::Hasher::finalize(keccak, &mut hash);
    hash.to_vec()
}

/// A 256-bit hash value, the unit that is signed: the wallet never signs the
/// raw bytes of a transaction, only their 32-byte digest.
pub struct HashValue {
    bytes: Vec<u8>,
}

impl View for HashValue {
    type V = Seq<u8>;

    closed spec fn view(&self) -> Seq<u8> {
        self.bytes@
    }
}

impl HashValue {
    /// The fixed width of a hash value.
    pub open spec fn wf(&self) -> bool {
        self@.len() == 32
    }

    /// The digest as raw bytes.
    pub fn to_vec(&self) -> (r: Vec<u8>)
        ensures
            r@ == self@,
    {
        clone_bytes(&self.bytes)
    }
}

/// The SHA3-256 digest of `data`, as a [`HashValue`].
pub fn sha3_256(data: &Vec<u8>) -> (h: HashValue)
    ensures
        h@ == sha3_of(data@),
        h.wf(),
{
    let bytes = sha3_256_raw(data);
    HashValue { bytes }
}

} // verus!
