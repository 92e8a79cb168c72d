//! The interface to the remote co-signing party.
//!
//! A child key is a share of a two-party key: neither party alone can sign.
//! Key generation and co-signing are interactive protocol round trips with
//! the other party, reached through an implementation of [`SigningService`]
//! that the wallet's owner injects at construction time.  The trait promises
//! nothing about the values that come back: everything the wallet guarantees
//! holds for every implementation, and whatever the service returns is
//! validated before it enters the wallet's state.

use vstd::prelude::*;

use crate::codec::clone_bytes;
use crate::error::ProtocolError;

verus! {

/// This party's share of a two-party key.  Not a usable private key on its
/// own; the wallet stores it and hands it back to the service on every
/// signing call, without ever interpreting it.
pub struct KeyShare {
    bytes: Vec<u8>,
}

impl View for KeyShare {
    type V = Seq<u8>;

    closed spec fn view(&self) -> Seq<u8> {
        self.bytes@
    }
}

impl Clone for KeyShare {
    fn clone(&self) -> (r: Self)
        ensures
            r@ == self@,
    {
        KeyShare { bytes: clone_bytes(&self.bytes) }
    }
}

impl KeyShare {
    /// Wraps the share material handed back by the service.
    pub fn new(bytes: Vec<u8>) -> (r: KeyShare)
        ensures
            r@ == bytes@,
    {
        KeyShare { bytes }
    }

    /// The share material as raw bytes.
    pub fn to_vec(&self) -> (r: Vec<u8>)
        ensures
            r@ == self@,
    {
        clone_bytes(&self.bytes)
    }
}

/// The combined public key of a two-party key pair, in the protocol's
/// big-endian representation with leading zeroes possibly stripped, the way
/// a big integer prints.  The canonical fixed 32-byte encoding is recovered
/// by zero-padding on the left.
pub struct AggregatedPublicKey {
    bytes: Vec<u8>,
}

impl View for AggregatedPublicKey {
    type V = Seq<u8>;

    closed spec fn view(&self) -> Seq<u8> {
        self.bytes@
    }
}

impl Clone for AggregatedPublicKey {
    fn clone(&self) -> (r: Self)
        ensures
            r@ == self@,
    {
        AggregatedPublicKey { bytes: clone_bytes(&self.bytes) }
    }
}

impl AggregatedPublicKey {
    /// Wraps the key material handed back by the service.
    pub fn new(bytes: Vec<u8>) -> (r: AggregatedPublicKey)
        ensures
            r@ == bytes@,
    {
        AggregatedPublicKey { bytes }
    }

    /// The key material as raw bytes.
    pub fn to_vec(&self) -> (r: Vec<u8>)
        ensures
            r@ == self@,
    {
        clone_bytes(&self.bytes)
    }
}

/// The two components of a completed co-signing round: the curve point `R`
/// and the scalar `s`, both as big-endian byte strings with leading zeroes
/// possibly stripped.
pub struct ProtocolSignature {
    /// The curve point `R` of the signature.
    pub r: Vec<u8>,
    /// The scalar `s` of the signature, big-endian.
    pub s: Vec<u8>,
}

/// The remote co-signing party.
///
/// `generate_key` performs the two-party key-generation handshake and hands
/// back this party's key share, the aggregated public key, and the session
/// id that ties the share to its protocol run.  `cosign` performs the
/// two-party signing handshake over an already-hashed message.  Both are
/// blocking calls on an external collaborator; failure is an error value,
/// never a crash, and no promise is made here about the data that comes
/// back.
pub trait SigningService: Sized {
    /// One two-party key-generation round trip.
    fn generate_key(&self) -> Result<(KeyShare, AggregatedPublicKey, String), ProtocolError>;

    /// One two-party co-signing round trip over an already-hashed message.
    fn cosign(
        &self,
        message: &Vec<u8>,
        key_share: &KeyShare,
        aggregated_public_key: &AggregatedPublicKey,
        id: &String,
    ) -> Result<ProtocolSignature, ProtocolError>;
}

} // verus!
