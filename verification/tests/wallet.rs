use std::cell::Cell;
use std::rc::Rc;

use ed25519_dalek::{Signer, Verifier};

use libra_wallet::account_address::AccountAddress;
use libra_wallet::error::{ProtocolError, WalletError};
use libra_wallet::hash::sha3_256;
use libra_wallet::key_factory::{ChildNumber, KeyFactory};
use libra_wallet::signing_service::{
    AggregatedPublicKey, KeyShare, ProtocolSignature, SigningService,
};
use libra_wallet::transaction::RawTransaction;
use libra_wallet::wallet_library::{addresses_in_index_order, WalletLibrary};

/// Strips leading zero bytes, the way a big integer prints.
fn strip_leading_zeros(mut v: Vec<u8>) -> Vec<u8> {
    while v.first() == Some(&0u8) {
        v.remove(0);
    }
    v
}

/// A deterministic in-process stand-in for the co-signing party: each key
/// generation hands out a fresh ed25519 key derived from a counter, and
/// co-signing signs with that key, returning the components in the
/// protocol's stripped big-endian form.
#[derive(Clone)]
struct StubService {
    generated: Rc<Cell<u64>>,
    cosigned: Rc<Cell<u64>>,
}

impl StubService {
    fn new() -> StubService {
        StubService { generated: Rc::new(Cell::new(0)), cosigned: Rc::new(Cell::new(0)) }
    }
}

impl SigningService for StubService {
    fn generate_key(
        &self,
    ) -> Result<(KeyShare, AggregatedPublicKey, String), ProtocolError> {
        let n = self.generated.get();
        self.generated.set(n + 1);
        let mut seed = [0u8; 32];
        seed[..8].copy_from_slice(&n.to_le_bytes());
        seed[8] = 0x5a;
        let sk = ed25519_dalek::SigningKey::from_bytes(&seed);
        let apk = strip_leading_zeros(sk.verifying_key().to_bytes().to_vec());
        Ok((
            KeyShare::new(seed.to_vec()),
            AggregatedPublicKey::new(apk),
            format!("session-{}", n),
        ))
    }

    fn cosign(
        &self,
        message: &Vec<u8>,
        key_share: &KeyShare,
        _aggregated_public_key: &AggregatedPublicKey,
        _id: &String,
    ) -> Result<ProtocolSignature, ProtocolError> {
        self.cosigned.set(self.cosigned.get() + 1);
        let seed: [u8; 32] = key_share.to_vec().try_into().unwrap();
        let sk = ed25519_dalek::SigningKey::from_bytes(&seed);
        let sig = sk.sign(message.as_slice()).to_bytes();
        let r = strip_leading_zeros(sig[0..32].to_vec());
        let mut s_big_endian = sig[32..64].to_vec();
        s_big_endian.reverse();
        let s = strip_leading_zeros(s_big_endian);
        Ok(ProtocolSignature { r, s })
    }
}

/// A service that always fails, to exercise error propagation.
#[derive(Clone)]
struct FailingService {}

impl SigningService for FailingService {
    fn generate_key(
        &self,
    ) -> Result<(KeyShare, AggregatedPublicKey, String), ProtocolError> {
        Err(ProtocolError::NetworkFailure)
    }

    fn cosign(
        &self,
        _message: &Vec<u8>,
        _key_share: &KeyShare,
        _aggregated_public_key: &AggregatedPublicKey,
        _id: &String,
    ) -> Result<ProtocolSignature, ProtocolError> {
        Err(ProtocolError::NetworkFailure)
    }
}

/// A service whose key material is too long to be a public key.
#[derive(Clone)]
struct OverlongKeyService {}

impl SigningService for OverlongKeyService {
    fn generate_key(
        &self,
    ) -> Result<(KeyShare, AggregatedPublicKey, String), ProtocolError> {
        Ok((
            KeyShare::new(vec![1u8; 32]),
            AggregatedPublicKey::new(vec![1u8; 33]),
            "session".to_string(),
        ))
    }

    fn cosign(
        &self,
        _message: &Vec<u8>,
        _key_share: &KeyShare,
        _aggregated_public_key: &AggregatedPublicKey,
        _id: &String,
    ) -> Result<ProtocolSignature, ProtocolError> {
        Err(ProtocolError::ProtocolAbort)
    }
}

#[test]
fn assert_default_child_number() {
    assert_eq!(ChildNumber::default(), ChildNumber::new(0));
}

#[test]
fn factory_memoizes_derivations() {
    // Derive index 0 and index 1 from a deterministic stub service:
    // their addresses differ, and re-deriving index 0 returns
    // byte-identical public-key bytes with no further round trip.
    let service = StubService::new();
    let mut factory = KeyFactory::new(service.clone());
    let child0 = factory.private_child(ChildNumber::new(0)).unwrap();
    let child1 = factory.private_child(ChildNumber::new(1)).unwrap();
    let addr0 = child0.get_address().unwrap();
    let addr1 = child1.get_address().unwrap();
    assert_ne!(addr0, addr1);
    let pk0_first = child0.get_public().to_bytes();
    let child0_again = factory.private_child(ChildNumber::new(0)).unwrap();
    assert_eq!(child0_again.get_public().to_bytes(), pk0_first);
    assert_eq!(child0_again.get_address().unwrap(), addr0);
    assert_eq!(service.generated.get(), 2);
}

#[test]
fn new_address_yields_distinct_ordered_addresses() {
    // Three calls yield three distinct addresses mapped to child numbers
    // 0, 1, 2 in call order, and get_addresses returns them in that same
    // order.
    let mut wallet = WalletLibrary::new(StubService::new());
    let mut seen: Vec<AccountAddress> = Vec::new();
    for i in 0u64..3u64 {
        let (addr, child) = wallet.new_address().unwrap();
        assert_eq!(child, ChildNumber::new(i));
        assert!(!seen.contains(&addr));
        seen.push(addr);
    }
    assert_eq!(wallet.key_leaf(), 3);
    for addr in &seen {
        assert!(wallet.contains_address(addr));
    }
    let listed = wallet.get_addresses().unwrap();
    assert_eq!(listed, seen);
}

#[test]
fn get_public_zero_pads_short_key_material() {
    let handle = libra_wallet::key_factory::ExtendedPrivKey::new(
        StubService::new(),
        KeyShare::new(vec![1u8; 32]),
        AggregatedPublicKey::new(vec![0xab, 0xcd]),
        "session".to_string(),
    );
    let pk = handle.get_public().to_bytes();
    let mut expected = vec![0u8; 30];
    expected.extend_from_slice(&[0xab, 0xcd]);
    assert_eq!(pk, expected);
}

#[test]
fn generate_addresses_is_idempotent_at_current_depth() {
    let mut wallet = WalletLibrary::new(StubService::new());
    wallet.generate_addresses(2).unwrap();
    assert_eq!(wallet.key_leaf(), 2);
    // Same depth again: a no-op success.
    wallet.generate_addresses(2).unwrap();
    assert_eq!(wallet.key_leaf(), 2);
    let addresses = wallet.get_addresses().unwrap();
    assert_eq!(addresses.len(), 2);
    // A smaller depth cannot "ungenerate" addresses.
    assert_eq!(wallet.generate_addresses(1), Err(WalletError::AlreadyGenerated));
    assert_eq!(wallet.key_leaf(), 2);
    assert_eq!(wallet.get_addresses().unwrap(), addresses);
}

#[test]
fn generate_addresses_propagates_service_failure() {
    let mut wallet = WalletLibrary::new(FailingService {});
    assert_eq!(
        wallet.generate_addresses(1),
        Err(WalletError::Protocol(ProtocolError::NetworkFailure))
    );
    assert_eq!(wallet.key_leaf(), 0);
}

#[test]
fn overlong_key_material_is_a_malformed_response() {
    let mut wallet = WalletLibrary::new(OverlongKeyService {});
    assert_eq!(
        wallet.new_address(),
        Err(WalletError::Protocol(ProtocolError::MalformedResponse))
    );
    assert_eq!(wallet.key_leaf(), 0);
}

#[test]
fn accept_generated_key_validates_material() {
    let factory = KeyFactory::new(StubService::new());
    // Material from a real key generation is accepted with its fields kept.
    let (share, apk, id) = StubService::new().generate_key().unwrap();
    let apk_bytes = apk.to_vec();
    let handle = factory.accept_generated_key(share, apk, id).unwrap();
    assert_eq!(handle.get_public().to_bytes()[32 - apk_bytes.len()..], apk_bytes);
    // Material longer than the canonical encoding is malformed.
    let rejected = factory.accept_generated_key(
        KeyShare::new(vec![1u8; 32]),
        AggregatedPublicKey::new(vec![1u8; 33]),
        "session".to_string(),
    );
    assert!(matches!(rejected, Err(ProtocolError::MalformedResponse)));
}

#[test]
fn new_address_uses_the_cached_leaf_child() {
    // Deriving the leaf slot out of band first caches the child without
    // advancing the leaf; the following new_address is then owed to
    // succeed with that same child's address.
    let service = StubService::new();
    let mut wallet = WalletLibrary::new(service.clone());
    let addr0 = wallet.new_address_at_child_number(ChildNumber::new(0)).unwrap();
    assert_eq!(wallet.key_leaf(), 0);
    let (addr, child) = wallet.new_address().unwrap();
    assert_eq!(addr, addr0);
    assert_eq!(child, ChildNumber::new(0));
    assert_eq!(service.generated.get(), 1);
}

#[test]
fn new_address_at_child_number_leaves_leaf_alone() {
    let mut wallet = WalletLibrary::new(StubService::new());
    let addr5 = wallet.new_address_at_child_number(ChildNumber::new(5)).unwrap();
    assert_eq!(wallet.key_leaf(), 0);
    // The same slot derives the same address again.
    let addr5_again = wallet.new_address_at_child_number(ChildNumber::new(5)).unwrap();
    assert_eq!(addr5, addr5_again);
}

#[test]
fn sign_txn_unknown_address_fails_without_network_call() {
    let service = StubService::new();
    let mut wallet = WalletLibrary::new(service.clone());
    wallet.generate_addresses(1).unwrap();
    let generated_before = service.generated.get();
    let stranger = AccountAddress::try_from_bytes(&vec![9u8; 32]).unwrap();
    let txn = RawTransaction::new(vec![1, 2, 3]);
    assert_eq!(wallet.sign_txn(&stranger, txn), Err(WalletError::UnknownAddress));
    assert_eq!(service.generated.get(), generated_before);
    assert_eq!(service.cosigned.get(), 0);
}

#[test]
fn signature_verifies_under_standard_eddsa() {
    // The byte-reversal transform must produce a signature that verifies
    // against the handle's own public key, not just a well-formed one.
    let mut wallet = WalletLibrary::new(StubService::new());
    let (addr, _) = wallet.new_address().unwrap();
    let raw = vec![0x10u8, 0x20, 0x30, 0x40];
    let signed = wallet.sign_txn(&addr, RawTransaction::new(raw.clone())).unwrap();
    assert_eq!(signed.raw_txn_bytes(), raw);

    let pk: [u8; 32] = signed.sender_public_key().try_into().unwrap();
    let sig: [u8; 64] = signed.sender_signature().try_into().unwrap();
    let vk = ed25519_dalek::VerifyingKey::from_bytes(&pk).unwrap();
    let digest = sha3_256(&raw).to_vec();
    let signature = ed25519_dalek::Signature::from_bytes(&sig);
    assert!(vk.verify(digest.as_slice(), &signature).is_ok());
}

#[test]
fn handle_sign_verifies_against_its_own_public_key() {
    let mut factory = KeyFactory::new(StubService::new());
    let child = factory.private_child(ChildNumber::new(0)).unwrap();
    let message = vec![7u8; 20];
    let hash = sha3_256(&message);
    let sig_bytes: [u8; 64] = child.sign(&hash).unwrap().to_bytes().try_into().unwrap();
    let pk: [u8; 32] = child.get_public().to_bytes().try_into().unwrap();
    let vk = ed25519_dalek::VerifyingKey::from_bytes(&pk).unwrap();
    let signature = ed25519_dalek::Signature::from_bytes(&sig_bytes);
    assert!(vk.verify(hash.to_vec().as_slice(), &signature).is_ok());
}

/// A service that generates keys like the stub but refuses to co-sign.
#[derive(Clone)]
struct CosignRefusingService {
    inner: StubService,
}

impl SigningService for CosignRefusingService {
    fn generate_key(
        &self,
    ) -> Result<(KeyShare, AggregatedPublicKey, String), ProtocolError> {
        self.inner.generate_key()
    }

    fn cosign(
        &self,
        _message: &Vec<u8>,
        _key_share: &KeyShare,
        _aggregated_public_key: &AggregatedPublicKey,
        _id: &String,
    ) -> Result<ProtocolSignature, ProtocolError> {
        Err(ProtocolError::ProtocolAbort)
    }
}

#[test]
fn sign_fails_when_cosigner_fails() {
    let mut wallet = WalletLibrary::new(CosignRefusingService { inner: StubService::new() });
    let (addr, _) = wallet.new_address().unwrap();
    assert_eq!(
        wallet.sign_txn(&addr, RawTransaction::new(vec![1])),
        Err(WalletError::Protocol(ProtocolError::ProtocolAbort))
    );
}

#[test]
fn address_list_with_a_gap_is_rejected() {
    // Simulated corruption: an entry for child number 1 is missing while
    // the depth says three children exist.
    let a0 = AccountAddress::try_from_bytes(&vec![1u8; 32]).unwrap();
    let a2 = AccountAddress::try_from_bytes(&vec![2u8; 32]).unwrap();
    let entries = vec![(a0, ChildNumber::new(0)), (a2, ChildNumber::new(2))];
    assert_eq!(addresses_in_index_order(&entries, 3), Err(WalletError::IndexGap));
    // Without the gap the same inversion succeeds in index order.
    let b0 = AccountAddress::try_from_bytes(&vec![1u8; 32]).unwrap();
    let b1 = AccountAddress::try_from_bytes(&vec![2u8; 32]).unwrap();
    let complete = vec![(b1, ChildNumber::new(1)), (b0, ChildNumber::new(0))];
    let ordered = addresses_in_index_order(&complete, 2).unwrap();
    assert_eq!(ordered[0], AccountAddress::try_from_bytes(&vec![1u8; 32]).unwrap());
    assert_eq!(ordered[1], AccountAddress::try_from_bytes(&vec![2u8; 32]).unwrap());
}

#[test]
fn address_is_sha3_of_padded_public_key() {
    let mut factory = KeyFactory::new(StubService::new());
    let child = factory.private_child(ChildNumber::new(0)).unwrap();
    let pk = child.get_public().to_bytes();
    assert_eq!(pk.len(), 32);
    let mut keccak = tiny_keccak::Sha3::v256();
    let mut digest = [0u8; 32];
    tiny_keccak::Hasher::update(&mut keccak, pk.as_slice());
    tiny_keccak::Hasher::finalize(keccak, &mut digest);
    let addr = child.get_address().unwrap();
    assert_eq!(addr.to_vec(), digest.to_vec());
}
