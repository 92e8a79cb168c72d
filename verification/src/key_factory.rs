//! Hierarchical derivation of child keys.
//!
//! A [`KeyFactory`] owns the handle to the remote co-signing party and a
//! cache of the child keys derived so far, one per [`ChildNumber`].  A child
//! key is born on the first request for its index with a single two-party
//! key-generation round trip, and lives for the lifetime of the factory:
//! requesting the same index again returns the cached key material, never a
//! fresh key.  Every wallet guarantee about address stability rests on that
//! generate-once, reuse-forever contract.

use std::collections::HashMap;

use vstd::prelude::*;

use crate::account_address::AccountAddress;
use crate::codec::{pad_left32, spec_pad32, spec_signature_bytes, encode_signature, PublicKey,
    Signature};
use crate::error::{AddressError, ProtocolError};
use crate::hash::{sha3_256, sha3_of, HashValue};
use crate::signing_service::{AggregatedPublicKey, KeyShare, SigningService};

verus! {

/// Raw bytes usable as a root for child key derivation.  This wallet
/// keeps no such secret locally — every child key is generated with the
/// co-signing party — so this carrier stays empty of behaviour.
pub struct Master(pub [u8; 32]);

/// A child number for a derived key: the derivation slot of one child key,
/// a monotonically incrementing 64-bit counter.
#[derive(Copy, Clone, PartialEq, Eq, Structural, Debug)]
pub struct ChildNumber(u64);

impl View for ChildNumber {
    type V = u64;

    closed spec fn view(&self) -> u64 {
        self.0
    }
}

impl ChildNumber {
    /// Constructor from u64.
    pub fn new(child_number: u64) -> (r: Self)
        ensures
            r@ == child_number,
    {
        ChildNumber(child_number)
    }

    /// The slot as a plain integer.
    pub fn value(&self) -> (r: u64)
        ensures
            r == self@,
    {
        self.0
    }

    /// Bump the child number by exactly one.  Overflow of the 64-bit
    /// counter is a precondition violation, not a wraparound.
    pub fn increment(&mut self)
        requires
            old(self)@ < u64::MAX,
        ensures
            final(self)@ == old(self)@ + 1,
    {
        self.0 = self.0 + 1;
    }
}

impl Default for ChildNumber {
    /// The first derivation slot.
    fn default() -> (r: Self)
        ensures
            r@ == 0,
    {
        ChildNumber(0)
    }
}

/// Whether 32 bytes decode to a valid ed25519 curve point.  A function of
/// the bytes alone; it is not given a definition here.
pub uninterp spec fn ed25519_point_decodable(bytes: Seq<u8>) -> bool;

/// Relies on `ed25519_dalek::VerifyingKey::from_bytes`: whether the 32
/// bytes are the canonical encoding of a valid curve point, a function of
/// the bytes alone.
#[verifier::external_body]
fn ed25519_decodable(bytes: &Vec<u8>) -> (r: bool)
    requires
        bytes@.len() == 32,
    ensures
        r == ed25519_point_decodable(bytes@),
{
    match <&[u8; 32]>::try_from(bytes.as_slice()) {
        Ok(arr) => ed25519_dalek::VerifyingKey::from_bytes(arr).is_ok(),
        Err(_) => false,
    }
}

/// The account address derived from aggregated-public-key material: the
/// SHA3-256 digest of the material's canonical 32-byte encoding.
pub open spec fn spec_address_of(apk: Seq<u8>) -> Seq<u8> {
    sha3_of(spec_pad32(apk))
}

/// One derived child key: this party's key share, the aggregated public
/// key, the protocol session id, and a handle to the co-signing party.
/// Handles are derived by the factory, not user-constructed, and a cloned
/// handle is a copy of the same logical key, never a new one.
pub struct ExtendedPrivKey<S> {
    client_shim: S,
    key_share: KeyShare,
    aggregated_public_key: AggregatedPublicKey,
    id: String,
}

impl<S> ExtendedPrivKey<S> {
    /// This party's share of the child key.
    pub closed spec fn spec_key_share(&self) -> Seq<u8> {
        self.key_share@
    }

    /// The aggregated public key, in the protocol's stripped big-endian
    /// representation.
    pub closed spec fn spec_public_key_material(&self) -> Seq<u8> {
        self.aggregated_public_key@
    }

    /// The protocol session id of the key's generation run.
    pub closed spec fn spec_id(&self) -> Seq<char> {
        self.id@
    }

    /// The handle to the co-signing party.
    pub closed spec fn spec_client(&self) -> S {
        self.client_shim
    }

    /// The key material fits the canonical 32-byte encoding.
    pub open spec fn wf(&self) -> bool {
        self.spec_public_key_material().len() <= 32
    }

    /// The address this child key owns.
    pub open spec fn spec_address(&self) -> Seq<u8> {
        spec_address_of(self.spec_public_key_material())
    }
}

/// Two handles stand for the same logical key: identical share, identical
/// aggregated public key, identical session id.
pub open spec fn same_material<S>(a: ExtendedPrivKey<S>, b: ExtendedPrivKey<S>) -> bool {
    &&& a.spec_key_share() == b.spec_key_share()
    &&& a.spec_public_key_material() == b.spec_public_key_material()
    &&& a.spec_id() == b.spec_id()
}

impl<S: Clone> Clone for ExtendedPrivKey<S> {
    /// A logical copy of the same key: the material is duplicated
    /// bit-for-bit, not regenerated.
    fn clone(&self) -> (r: Self)
        ensures
            same_material(r, *self),
    {
        ExtendedPrivKey {
            client_shim: self.client_shim.clone(),
            key_share: self.key_share.clone(),
            aggregated_public_key: self.aggregated_public_key.clone(),
            id: self.id.clone(),
        }
    }
}

impl<S: SigningService + Clone> ExtendedPrivKey<S> {
    /// Assembles a handle from already-generated key material.
    pub fn new(
        client_shim: S,
        key_share: KeyShare,
        aggregated_public_key: AggregatedPublicKey,
        id: String,
    ) -> (r: Self)
        ensures
            r.spec_client() == client_shim,
            r.spec_key_share() == key_share@,
            r.spec_public_key_material() == aggregated_public_key@,
            r.spec_id() == id@,
    {
        Self { client_shim, key_share, aggregated_public_key, id }
    }

    /// The canonical byte encoding of the aggregated public key: the
    /// protocol's big-endian representation zero-padded to 32 bytes.
    pub fn get_public(&self) -> (r: PublicKey)
        requires
            self.wf(),
        ensures
            r@ == spec_pad32(self.spec_public_key_material()),
            r.wf(),
    {
        let bytes = self.aggregated_public_key.to_vec();
        let padded = pad_left32(&bytes);
        PublicKey::from_padded(padded)
    }

    /// Computes the SHA3-256 digest of the public key and reinterprets the
    /// raw digest bytes as an account address.  The digest has exactly the
    /// address width, so the conversion is owed to succeed; the defensive
    /// error remains for a hash of the wrong width, which cannot arise
    /// here.
    pub fn get_address(&self) -> (r: Result<AccountAddress, AddressError>)
        requires
            self.wf(),
        ensures
            r is Ok,
            r matches Ok(a) ==> a@ == self.spec_address() && a.wf(),
    {
        let public_key = self.get_public();
        let hash = sha3_256(&public_key.to_bytes());
        AccountAddress::try_from_bytes(&hash.to_vec())
    }

    /// Signs an already-hashed message with the two-party protocol: one
    /// co-signing round trip, then the canonical 64-byte encoding of the
    /// components that came back.  Fails when the co-signer fails, or when
    /// a component is too long to be a curve point or scalar; a default
    /// signature is never substituted.
    pub fn sign(&self, msg: &HashValue) -> (res: Result<Signature, ProtocolError>)
        ensures
            res matches Ok(sig) ==> sig.wf() && (exists|rr: Seq<u8>, ss: Seq<u8>|
                rr.len() <= 32 && ss.len() <= 32 && sig@ == #[trigger] spec_signature_bytes(
                    rr,
                    ss,
                )),
    {
        let message = msg.to_vec();
        let outcome = self.client_shim.cosign(
            &message,
            &self.key_share,
            &self.aggregated_public_key,
            &self.id,
        );
        match outcome {
            Err(e) => Err(e),
            Ok(protocol_signature) => {
                match encode_signature(&protocol_signature.r, &protocol_signature.s) {
                    Err(e) => Err(e),
                    Ok(sig) => {
                        proof {
                            assert(sig@ == spec_signature_bytes(
                                protocol_signature.r@,
                                protocol_signature.s@,
                            ));
                        }
                        Ok(sig)
                    },
                }
            },
        }
    }
}

/// The factory from which child keys are derived: the co-signing handle and
/// the cache of every child derived so far, keyed by child number.
pub struct KeyFactory<S> {
    client_shim: S,
    children: HashMap<u64, ExtendedPrivKey<S>>,
}

/// The relation between a factory's state before and after a successful
/// derivation of `child_number` that returned `epk`: the cache gains the
/// returned material at exactly that slot, every other entry stays, and a
/// cache hit returns the stored material with the whole factory unchanged.
pub open spec fn private_child_post<S>(
    pre: KeyFactory<S>,
    post: KeyFactory<S>,
    child_number: u64,
    epk: ExtendedPrivKey<S>,
) -> bool {
    &&& epk.wf()
    &&& post.spec_children().dom() == pre.spec_children().dom().insert(child_number)
    &&& post.spec_children().contains_key(child_number)
    &&& same_material(post.spec_children()[child_number], epk)
    &&& forall|k: u64|
        k != child_number && #[trigger] pre.spec_children().contains_key(k) ==> post.spec_children(
        )[k] == pre.spec_children()[k]
    &&& pre.spec_children().contains_key(child_number) ==> post == pre && same_material(
        epk,
        pre.spec_children()[child_number],
    )
}

impl<S> KeyFactory<S> {
    /// The cache of derived children, by child number.
    pub closed spec fn spec_children(&self) -> Map<u64, ExtendedPrivKey<S>> {
        self.children@
    }

    /// The handle to the co-signing party.
    pub closed spec fn spec_client(&self) -> S {
        self.client_shim
    }

    /// Every cached handle carries well-formed key material.
    pub open spec fn wf(&self) -> bool {
        forall|k: u64| #[trigger]
            self.spec_children().contains_key(k) ==> self.spec_children()[k].wf()
    }
}

impl<S: SigningService + Clone> KeyFactory<S> {
    /// A factory with an empty cache around an injected co-signing handle.
    pub fn new(client_shim: S) -> (r: Self)
        ensures
            r.spec_client() == client_shim,
            r.spec_children() == Map::<u64, ExtendedPrivKey<S>>::empty(),
            r.wf(),
    {
        Self { client_shim, children: HashMap::new() }
    }

    /// Validates freshly generated key material and assembles the handle.
    /// The material is accepted exactly when the aggregated public key
    /// fits the canonical 32-byte encoding and its padded form decodes to
    /// a curve point; anything else is a malformed response, never a
    /// silently truncated key.
    pub fn accept_generated_key(
        &self,
        key_share: KeyShare,
        aggregated_public_key: AggregatedPublicKey,
        id: String,
    ) -> (r: Result<ExtendedPrivKey<S>, ProtocolError>)
        ensures
            r is Ok <==> aggregated_public_key@.len() <= 32 && ed25519_point_decodable(
                spec_pad32(aggregated_public_key@),
            ),
            r matches Ok(epk) ==> epk.wf() && epk.spec_key_share() == key_share@
                && epk.spec_public_key_material() == aggregated_public_key@ && epk.spec_id()
                == id@,
            r is Err ==> r == Err::<ExtendedPrivKey<S>, ProtocolError>(
                ProtocolError::MalformedResponse,
            ),
    {
        let apk_bytes = aggregated_public_key.to_vec();
        if apk_bytes.len() > 32 {
            return Err(ProtocolError::MalformedResponse);
        }
        let padded = pad_left32(&apk_bytes);
        if !ed25519_decodable(&padded) {
            return Err(ProtocolError::MalformedResponse);
        }
        Ok(ExtendedPrivKey {
            client_shim: self.client_shim.clone(),
            key_share,
            aggregated_public_key,
            id,
        })
    }

    /// The child key at `child_number`: the cached handle when the slot was
    /// derived before — the cryptographically identical key, with no new
    /// network call — or else the outcome of exactly one key-generation
    /// round trip, validated by `accept_generated_key`, cached, and
    /// returned.  On any failure the factory is left exactly as it was.
    pub fn private_child(&mut self, child_number: ChildNumber) -> (res: Result<
        ExtendedPrivKey<S>,
        ProtocolError,
    >)
        requires
            old(self).wf(),
        ensures
            final(self).wf(),
            final(self).spec_client() == old(self).spec_client(),
            res matches Ok(epk) ==> private_child_post(*old(self), *final(self), child_number@, epk),
            old(self).spec_children().contains_key(child_number@) ==> res is Ok,
            res is Err ==> *final(self) == *old(self),
    {
        match self.children.get(&child_number.value()) {
            Some(extended_priv_key) => {
                let r = extended_priv_key.clone();
                proof {
                    assert(self.spec_children().dom() =~= self.spec_children().dom().insert(
                        child_number@,
                    ));
                }
                Ok(r)
            },
            None => {
                let generated = self.client_shim.generate_key();
                match generated {
                    Err(e) => Err(e),
                    Ok((key_share, aggregated_public_key, id)) => {
                        match self.accept_generated_key(key_share, aggregated_public_key, id) {
                            Err(e) => Err(e),
                            Ok(extended_priv_key) => {
                                let stored = extended_priv_key.clone();
                                self.children.insert(child_number.value(), stored);
                                proof {
                                    assert(self.spec_children().dom() =~= old(
                                        self,
                                    ).spec_children().dom().insert(child_number@));
                                }
                                Ok(extended_priv_key)
                            },
                        }
                    },
                }
            },
        }
    }
}

/// Memoization correctness: deriving the same child number twice in a row
/// yields handles with identical key material, and therefore identical
/// public-key bytes and identical derived addresses.
pub proof fn lemma_private_child_memoized<S>(
    f0: KeyFactory<S>,
    f1: KeyFactory<S>,
    f2: KeyFactory<S>,
    child_number: u64,
    h1: ExtendedPrivKey<S>,
    h2: ExtendedPrivKey<S>,
)
    requires
        private_child_post(f0, f1, child_number, h1),
        private_child_post(f1, f2, child_number, h2),
    ensures
        same_material(h2, h1),
        spec_pad32(h2.spec_public_key_material()) == spec_pad32(h1.spec_public_key_material()),
        h2.spec_address() == h1.spec_address(),
{
    assert(f1.spec_children().contains_key(child_number));
    assert(same_material(h2, f1.spec_children()[child_number]));
}

} // verus!
