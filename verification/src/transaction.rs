//! Transaction payloads, at the boundary the wallet works on.
//!
//! Serializing a transaction into its canonical wire form is the concern of
//! an external collaborator; the wallet receives the already-serialized raw
//! bytes, signs their 256-bit digest, and packages the result.  A signed
//! transaction is the triple the envelope format carries: the raw bytes,
//! the sender's public key, and the signature.

use vstd::prelude::*;

use crate::codec::clone_bytes;

verus! {

/// An unsigned transaction, as its serialized raw bytes.
pub struct RawTransaction {
    bytes: Vec<u8>,
}

impl View for RawTransaction {
    type V = Seq<u8>;

    closed spec fn view(&self) -> Seq<u8> {
        self.bytes@
    }
}

impl RawTransaction {
    /// Wraps already-serialized transaction bytes.
    pub fn new(bytes: Vec<u8>) -> (r: RawTransaction)
        ensures
            r@ == bytes@,
    {
        RawTransaction { bytes }
    }

    /// The serialized transaction bytes.
    pub fn to_vec(&self) -> (r: Vec<u8>)
        ensures
            r@ == self@,
    {
        clone_bytes(&self.bytes)
    }
}

/// A signed transaction: the raw transaction bytes together with the
/// sender's public key and the signature over the transaction digest.
#[derive(Debug, PartialEq, Eq)]
pub struct SignedTransaction {
    raw_txn_bytes: Vec<u8>,
    sender_public_key: Vec<u8>,
    sender_signature: Vec<u8>,
}

impl SignedTransaction {
    /// The raw bytes of the signed transaction.
    pub closed spec fn spec_raw_txn_bytes(&self) -> Seq<u8> {
        self.raw_txn_bytes@
    }

    /// The sender's public key, in its canonical 32-byte encoding.
    pub closed spec fn spec_sender_public_key(&self) -> Seq<u8> {
        self.sender_public_key@
    }

    /// The 64-byte signature over the transaction digest.
    pub closed spec fn spec_sender_signature(&self) -> Seq<u8> {
        self.sender_signature@
    }

    /// Assembles the envelope triple.
    pub fn new(raw_txn_bytes: Vec<u8>, sender_public_key: Vec<u8>, sender_signature: Vec<u8>) -> (r:
        SignedTransaction)
        ensures
            r.spec_raw_txn_bytes() == raw_txn_bytes@,
            r.spec_sender_public_key() == sender_public_key@,
            r.spec_sender_signature() == sender_signature@,
    {
        SignedTransaction { raw_txn_bytes, sender_public_key, sender_signature }
    }

    /// The raw bytes of the signed transaction.
    pub fn raw_txn_bytes(&self) -> (r: Vec<u8>)
        ensures
            r@ == self.spec_raw_txn_bytes(),
    {
        clone_bytes(&self.raw_txn_bytes)
    }

    /// The sender's public key.
    pub fn sender_public_key(&self) -> (r: Vec<u8>)
        ensures
            r@ == self.spec_sender_public_key(),
    {
        clone_bytes(&self.sender_public_key)
    }

    /// The sender's signature.
    pub fn sender_signature(&self) -> (r: Vec<u8>)
        ensures
            r@ == self.spec_sender_signature(),
    {
        clone_bytes(&self.sender_signature)
    }
}

} // verus!
