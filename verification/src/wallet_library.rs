//! The wallet: address generation and transaction signing.
//!
//! A [`WalletLibrary`] owns a [`KeyFactory`], the map from account address
//! to child number, and the next unused child number (the "key leaf").  A
//! new address derives the child key at the leaf, records the address, and
//! advances the leaf; the map therefore always holds exactly the indices
//! below the leaf, one address each, all distinct.  Remote-call failures
//! are surfaced as errors and never corrupt that state.

use vstd::prelude::*;

use crate::account_address::AccountAddress;
use crate::codec::{spec_pad32, spec_signature_bytes};
use crate::error::WalletError;
use crate::hash::sha3_256;
use crate::key_factory::{same_material, ChildNumber, KeyFactory};
use crate::signing_service::SigningService;
use crate::transaction::{RawTransaction, SignedTransaction};

verus! {

/// The wallet state: the key factory, the address -> child-number map, and
/// the next unused child number.
pub struct WalletLibrary<S> {
    key_factory: KeyFactory<S>,
    addr_map: Vec<(AccountAddress, ChildNumber)>,
    key_leaf: ChildNumber,
}

impl<S> WalletLibrary<S> {
    /// The address map as a sequence of entries in creation order.
    pub closed spec fn spec_entries(&self) -> Seq<(AccountAddress, ChildNumber)> {
        self.addr_map@
    }

    /// The next unused child number.
    pub closed spec fn spec_key_leaf(&self) -> u64 {
        self.key_leaf@
    }

    /// The factory holding the derived child keys.
    pub closed spec fn spec_factory(&self) -> KeyFactory<S> {
        self.key_factory
    }

    /// Whether the child at the key leaf is already cached in the factory.
    pub open spec fn spec_leaf_cached(&self) -> bool {
        self.spec_factory().spec_children().contains_key(self.spec_key_leaf())
    }

    /// The address owned by the child cached at the key leaf.
    pub open spec fn spec_leaf_address(&self) -> Seq<u8> {
        self.spec_factory().spec_children()[self.spec_key_leaf()].spec_address()
    }

    /// Whether some entry maps the address `a`.
    pub open spec fn spec_contains_address(&self, a: Seq<u8>) -> bool {
        exists|j: int|
            0 <= j < self.spec_entries().len() && (#[trigger] self.spec_entries()[j]).0@ == a
    }

    /// The wallet invariant: the key leaf counts the entries, entry `j`
    /// maps the address of child number `j` — creation order is index
    /// order — all addresses are distinct and well formed, and every
    /// cached child key is well formed.
    pub open spec fn wf(&self) -> bool {
        &&& self.spec_key_leaf() == self.spec_entries().len()
        &&& forall|j: int|
            0 <= j < self.spec_entries().len() ==> (#[trigger] self.spec_entries()[j]).1@ == j
        &&& forall|j: int|
            0 <= j < self.spec_entries().len() ==> (#[trigger] self.spec_entries()[j]).0.wf()
        &&& forall|j: int, k: int|
            0 <= j < k < self.spec_entries().len() ==> (#[trigger] self.spec_entries()[j]).0@ != (
            #[trigger] self.spec_entries()[k]).0@
        &&& self.spec_factory().wf()
    }
}

/// The relation between a wallet's state before and after a successful
/// `new_address` call that returned the address `addr` and child number
/// `cn`: the child number is the old key leaf, the leaf advanced by one,
/// the new entry was appended with every old entry kept, the address was
/// not in the wallet before, and it is the address of the child key now
/// cached at `cn`.
pub open spec fn new_address_post<S>(
    pre: WalletLibrary<S>,
    post: WalletLibrary<S>,
    addr: Seq<u8>,
    cn: u64,
) -> bool {
    &&& cn == pre.spec_key_leaf()
    &&& post.spec_key_leaf() == pre.spec_key_leaf() + 1
    &&& post.spec_entries().len() == pre.spec_entries().len() + 1
    &&& forall|j: int|
        0 <= j < pre.spec_entries().len() ==> post.spec_entries()[j] == pre.spec_entries()[j]
    &&& (post.spec_entries()[pre.spec_entries().len() as int]).0@ == addr
    &&& (post.spec_entries()[pre.spec_entries().len() as int]).1@ == cn
    &&& !pre.spec_contains_address(addr)
    &&& post.spec_factory().spec_children().contains_key(cn)
    &&& addr == post.spec_factory().spec_children()[cn].spec_address()
}

impl<S: SigningService + Clone> WalletLibrary<S> {
    /// An empty wallet around an injected co-signing handle: no addresses,
    /// key leaf at zero.
    pub fn new(client_shim: S) -> (r: Self)
        ensures
            r.wf(),
            r.spec_entries().len() == 0,
            r.spec_key_leaf() == 0,
            r.spec_factory().spec_client() == client_shim,
    {
        Self {
            key_factory: KeyFactory::new(client_shim),
            addr_map: Vec::new(),
            key_leaf: ChildNumber::new(0),
        }
    }

    /// The current key leaf in u64 format: the count of addresses
    /// generated so far.
    pub fn key_leaf(&self) -> (r: u64)
        ensures
            r == self.spec_key_leaf(),
    {
        self.key_leaf.value()
    }

    /// The position of the entry mapping `a`, if the wallet controls that
    /// address.
    pub fn index_of_address(&self, a: &AccountAddress) -> (r: Option<usize>)
        ensures
            r matches Some(j) ==> j < self.spec_entries().len() && (self.spec_entries()[j as int]).0@
                == a@,
            r is None <==> !self.spec_contains_address(a@),
    {
        let n = self.addr_map.len();
        let mut i: usize = 0;
        while i < n
            invariant
                i <= n,
                n == self.spec_entries().len(),
                forall|j: int| 0 <= j < i ==> (#[trigger] self.spec_entries()[j]).0@ != a@,
            decreases n - i,
        {
            if self.addr_map[i].0.equals(a) {
                return Some(i);
            }
            i = i + 1;
        }
        None
    }

    /// Whether the wallet controls the address `a`.
    pub fn contains_address(&self, a: &AccountAddress) -> (r: bool)
        ensures
            r == self.spec_contains_address(a@),
    {
        self.index_of_address(a).is_some()
    }

    /// Generates a new child key at the current key leaf, derives its
    /// address, records the mapping, and advances the leaf by one.  A
    /// collision with an address already in the wallet is a critical
    /// invariant violation, surfaced as `DuplicateAddress` with the map
    /// and leaf untouched; a co-signer failure is carried through with the
    /// wallet unchanged.
    pub fn new_address(&mut self) -> (res: Result<(AccountAddress, ChildNumber), WalletError>)
        requires
            old(self).wf(),
            old(self).spec_key_leaf() < u64::MAX,
        ensures
            final(self).wf(),
            res matches Ok((addr, cn)) ==> new_address_post(*old(self), *final(self), addr@, cn@),
            res is Err ==> final(self).spec_entries() == old(self).spec_entries() && final(self).spec_key_leaf() == old(self).spec_key_leaf(),
            res matches Err(e) ==> e == WalletError::DuplicateAddress || e matches
                WalletError::Protocol(_),
            old(self).spec_leaf_cached() && !old(self).spec_contains_address(
                old(self).spec_leaf_address(),
            ) ==> res is Ok,
            old(self).spec_leaf_cached() && old(self).spec_contains_address(
                old(self).spec_leaf_address(),
            ) ==> res == Err::<(AccountAddress, ChildNumber), WalletError>(
                WalletError::DuplicateAddress,
            ),
    {
        let child = self.key_leaf;
        let derived = self.key_factory.private_child(child);
        let epk = match derived {
            Ok(epk) => epk,
            Err(e) => {
                return Err(WalletError::Protocol(e));
            },
        };
        let address = match epk.get_address() {
            Ok(address) => address,
            Err(e) => {
                return Err(WalletError::Address(e));
            },
        };
        if self.contains_address(&address) {
            proof {
                let j = choose|j: int|
                    0 <= j < self.spec_entries().len() && (#[trigger] self.spec_entries()[j]).0@
                        == address@;
                assert(old(self).spec_entries()[j] == self.spec_entries()[j]);
                assert(old(self).spec_contains_address(address@));
            }
            return Err(WalletError::DuplicateAddress);
        }
        proof {
            assert forall|j: int|
                0 <= j < old(self).spec_entries().len() implies (#[trigger] old(
                self,
            ).spec_entries()[j]).0@ != address@ by {
                assert(old(self).spec_entries()[j] == self.spec_entries()[j]);
            }
            assert(!old(self).spec_contains_address(address@));
        }
        let recorded = address.clone();
        self.key_leaf.increment();
        self.addr_map.push((recorded, child));
        proof {
            let pre = *old(self);
            let l = pre.spec_entries().len() as int;
            assert(self.spec_entries().len() == l + 1);
            assert((self.spec_entries()[l]).0@ == address@);
            assert(forall|j: int|
                0 <= j < l ==> self.spec_entries()[j] == #[trigger] pre.spec_entries()[j]);
            assert(!pre.spec_contains_address(address@));
            assert forall|j: int, k: int|
                0 <= j < k < self.spec_entries().len() implies (#[trigger] self.spec_entries()[
                j]).0@ != (#[trigger] self.spec_entries()[k]).0@ by {
                if k < l {
                    assert((pre.spec_entries()[j]).0@ != (pre.spec_entries()[k]).0@);
                } else {
                    assert(self.spec_entries()[j] == pre.spec_entries()[j]);
                    if (pre.spec_entries()[j]).0@ == address@ {
                        assert(pre.spec_contains_address(address@));
                    }
                }
            }
            assert(new_address_post(pre, *self, address@, child@));
        }
        Ok((address, child))
    }

    /// Derives addresses until the key leaf reaches `depth`.  Fails with
    /// `AlreadyGenerated`, leaving the wallet untouched, exactly when the
    /// leaf is already past `depth`; a failure of a single step is carried
    /// through with all addresses generated so far kept.
    pub fn generate_addresses(&mut self, depth: u64) -> (res: Result<(), WalletError>)
        requires
            old(self).wf(),
        ensures
            final(self).wf(),
            res == Err::<(), WalletError>(WalletError::AlreadyGenerated) <==> old(self).spec_key_leaf() > depth,
            res matches Err(e) ==> e == WalletError::AlreadyGenerated || e
                == WalletError::DuplicateAddress || e matches WalletError::Protocol(_),
            old(self).spec_key_leaf() > depth ==> *final(self) == *old(self),
            old(self).spec_key_leaf() == depth ==> res is Ok && *final(self) == *old(self),
            res is Ok ==> final(self).spec_key_leaf() == depth,
            old(self).spec_key_leaf() <= final(self).spec_key_leaf() <= depth || *final(self)
                == *old(self),
            forall|j: int|
                0 <= j < old(self).spec_entries().len() ==> final(self).spec_entries()[j] == old(self).spec_entries()[j],
    {
        let current = self.key_leaf.value();
        if current > depth {
            return Err(WalletError::AlreadyGenerated);
        }
        while self.key_leaf.value() != depth
            invariant
                self.wf(),
                old(self).wf(),
                old(self).spec_key_leaf() <= depth,
                self.spec_key_leaf() <= depth,
                old(self).spec_key_leaf() == depth ==> *self == *old(self),
                forall|j: int|
                    0 <= j < old(self).spec_entries().len() ==> self.spec_entries()[j] == old(self).spec_entries()[j],
                old(self).spec_entries().len() <= self.spec_entries().len(),
            decreases depth - self.spec_key_leaf(),
        {
            match self.new_address() {
                Ok(_) => (),
                Err(e) => {
                    return Err(e);
                },
            }
        }
        Ok(())
    }

    /// The address of the child key at an arbitrary child number, derived
    /// (or reused) without advancing the key leaf or touching the address
    /// map.
    pub fn new_address_at_child_number(&mut self, child_number: ChildNumber) -> (res: Result<
        AccountAddress,
        WalletError,
    >)
        requires
            old(self).wf(),
        ensures
            final(self).wf(),
            final(self).spec_entries() == old(self).spec_entries(),
            final(self).spec_key_leaf() == old(self).spec_key_leaf(),
            res matches Ok(a) ==> a.wf() && final(self).spec_factory().spec_children().contains_key(
                child_number@,
            ) && a@ == final(self).spec_factory().spec_children()[child_number@].spec_address(),
            old(self).spec_factory().spec_children().contains_key(child_number@) ==> res is Ok
                && *final(self) == *old(self),
            res matches Err(e) ==> e matches WalletError::Protocol(_),
    {
        let derived = self.key_factory.private_child(child_number);
        match derived {
            Ok(child) => {
                match child.get_address() {
                    Ok(address) => {
                        proof {
                            assert(same_material(
                                self.spec_factory().spec_children()[child_number@],
                                child,
                            ));
                        }
                        Ok(address)
                    },
                    Err(e) => Err(WalletError::Address(e)),
                }
            },
            Err(e) => Err(WalletError::Protocol(e)),
        }
    }

    /// All addresses the wallet controls, ordered by child number
    /// ascending.  Under the wallet invariant the list is owed to exist:
    /// it is the entries in creation order.
    pub fn get_addresses(&self) -> (res: Result<Vec<AccountAddress>, WalletError>)
        requires
            self.wf(),
        ensures
            res is Ok,
            res matches Ok(v) ==> v@.len() == self.spec_entries().len() && (forall|i: int|
                0 <= i < v@.len() ==> (#[trigger] v@[i])@ == (self.spec_entries()[i]).0@),
            res matches Ok(v) ==> forall|i: int, k: int|
                0 <= i < k < v@.len() ==> (#[trigger] v@[i])@ != (#[trigger] v@[k])@,
    {
        let depth = self.addr_map.len() as u64;
        let res = addresses_in_index_order(&self.addr_map, depth);
        match res {
            Ok(v) => {
                proof {
                    assert forall|i: int| 0 <= i < v@.len() implies (#[trigger] v@[i])@ == (
                    self.spec_entries()[i]).0@ by {
                        assert(spec_maps_index_to(self.spec_entries(), i as u64, v@[i]@));
                        let j = choose|j: int|
                            0 <= j < self.spec_entries().len() && (#[trigger] self.spec_entries()[j]).1@
                                == i as u64 && (self.spec_entries()[j]).0@ == v@[i]@;
                        assert((self.spec_entries()[j]).1@ == j);
                    }
                }
                Ok(v)
            },
            Err(e) => {
                proof {
                    assert forall|i: u64| i < depth implies #[trigger] spec_has_index(
                        self.spec_entries(),
                        i,
                    ) by {
                        assert((self.spec_entries()[i as int]).1@ == i as int);
                    }
                }
                Err(e)
            },
        }
    }

    /// Looks up the child owning `addr`, re-derives its key, signs the
    /// transaction's SHA3-256 digest with the two-party protocol, and
    /// packages raw bytes, public key and signature into the signed
    /// envelope.  An address the wallet does not control fails with
    /// `UnknownAddress` before any network call, with the wallet exactly
    /// as it was.
    pub fn sign_txn(&mut self, addr: &AccountAddress, txn: RawTransaction) -> (res: Result<
        SignedTransaction,
        WalletError,
    >)
        requires
            old(self).wf(),
        ensures
            final(self).wf(),
            final(self).spec_entries() == old(self).spec_entries(),
            final(self).spec_key_leaf() == old(self).spec_key_leaf(),
            !old(self).spec_contains_address(addr@) ==> res == Err::<
                SignedTransaction,
                WalletError,
            >(WalletError::UnknownAddress) && *final(self) == *old(self),
            res == Err::<SignedTransaction, WalletError>(WalletError::UnknownAddress) ==> !old(self).spec_contains_address(addr@),
            res matches Err(e) ==> e == WalletError::UnknownAddress || e matches
                WalletError::Protocol(_),
            res matches Ok(st) ==> {
                &&& st.spec_raw_txn_bytes() == txn@
                &&& exists|j: int|
                    {
                        &&& 0 <= j < old(self).spec_entries().len()
                        &&& (#[trigger] old(self).spec_entries()[j]).0@ == addr@
                        &&& final(self).spec_factory().spec_children().contains_key(
                            (old(self).spec_entries()[j]).1@,
                        )
                        &&& st.spec_sender_public_key() == spec_pad32(
                            final(self).spec_factory().spec_children()[(old(self).spec_entries()[j]).1@].spec_public_key_material(),
                        )
                    }
                &&& exists|rr: Seq<u8>, ss: Seq<u8>|
                    rr.len() <= 32 && ss.len() <= 32 && st.spec_sender_signature()
                        == #[trigger] spec_signature_bytes(rr, ss)
            },
    {
        let found = self.index_of_address(addr);
        match found {
            None => Err(WalletError::UnknownAddress),
            Some(j) => {
                let child = self.addr_map[j].1;
                let raw_bytes = txn.to_vec();
                let txn_hashvalue = sha3_256(&raw_bytes);
                let derived = self.key_factory.private_child(child);
                let child_key = match derived {
                    Ok(child_key) => child_key,
                    Err(e) => {
                        return Err(WalletError::Protocol(e));
                    },
                };
                let signature = match child_key.sign(&txn_hashvalue) {
                    Ok(signature) => signature,
                    Err(e) => {
                        return Err(WalletError::Protocol(e));
                    },
                };
                let public_key = child_key.get_public();
                proof {
                    assert(same_material(
                        self.spec_factory().spec_children()[child@],
                        child_key,
                    ));
                }
                Ok(SignedTransaction::new(
                    raw_bytes,
                    public_key.to_bytes(),
                    signature.to_bytes(),
                ))
            },
        }
    }
}

/// Some entry among `entries` carries child number `i`.
pub open spec fn spec_has_index(entries: Seq<(AccountAddress, ChildNumber)>, i: u64) -> bool {
    exists|j: int| 0 <= j < entries.len() && (#[trigger] entries[j]).1@ == i
}

/// Some entry among `entries` carries child number `i` with address `a`.
pub open spec fn spec_maps_index_to(
    entries: Seq<(AccountAddress, ChildNumber)>,
    i: u64,
    a: Seq<u8>,
) -> bool {
    exists|j: int|
        0 <= j < entries.len() && (#[trigger] entries[j]).1@ == i && (entries[j]).0@ == a
}

/// The addresses among `entries` ordered by child number ascending, for
/// every child number below `depth`: position `i` of the result holds the
/// address of an entry with child number `i`.  Fails with `IndexGap`
/// exactly when some child number below `depth` has no entry — the
/// corruption that inverting a well-formed wallet map can never hit.
pub fn addresses_in_index_order(
    entries: &Vec<(AccountAddress, ChildNumber)>,
    depth: u64,
) -> (res: Result<Vec<AccountAddress>, WalletError>)
    ensures
        res is Ok <==> (forall|i: u64| i < depth ==> #[trigger] spec_has_index(entries@, i)),
        res matches Ok(v) ==> v@.len() == depth && (forall|i: int|
            0 <= i < depth ==> spec_maps_index_to(entries@, i as u64, (#[trigger] v@[i])@)),
        res is Err ==> res == Err::<Vec<AccountAddress>, WalletError>(WalletError::IndexGap),
{
    let mut ret: Vec<AccountAddress> = Vec::new();
    let n = entries.len();
    let mut i: u64 = 0;
    while i < depth
        invariant
            i <= depth,
            n == entries@.len(),
            ret@.len() == i,
            forall|ii: int|
                0 <= ii < i ==> spec_maps_index_to(entries@, ii as u64, (#[trigger] ret@[ii])@),
        decreases depth - i,
    {
        let mut j: usize = 0;
        let mut found: Option<usize> = None;
        while j < n
            invariant
                j <= n,
                n == entries@.len(),
                found matches Some(jj) ==> jj < entries@.len() && (entries@[jj as int]).1@ == i,
                found is None ==> forall|jj: int|
                    0 <= jj < j ==> (#[trigger] entries@[jj]).1@ != i,
            decreases n - j,
        {
            if found.is_none() && entries[j].1.value() == i {
                found = Some(j);
            }
            j = j + 1;
        }
        match found {
            Some(jj) => {
                let a = entries[jj].0.clone();
                proof {
                    assert((entries@[jj as int]).1@ == i && (entries@[jj as int]).0@ == a@);
                    assert(spec_maps_index_to(entries@, i, a@));
                }
                ret.push(a);
            },
            None => {
                proof {
                    assert(!spec_has_index(entries@, i));
                }
                return Err(WalletError::IndexGap);
            },
        }
        i = i + 1;
    }
    proof {
        assert forall|ii: u64| ii < depth implies #[trigger] spec_has_index(entries@, ii) by {
            assert(spec_maps_index_to(entries@, ii, ret@[ii as int]@));
            let j = choose|j: int|
                0 <= j < entries@.len() && (#[trigger] entries@[j]).1@ == ii && (entries@[j]).0@
                    == ret@[ii as int]@;
            assert((entries@[j]).1@ == ii);
        }
    }
    Ok(ret)
}

/// Two successful `new_address` calls in sequence yield distinct addresses
/// at consecutive child numbers: the second call can only return an
/// address that was not yet in the wallet, and the first call's address
/// already is.
pub proof fn lemma_new_address_distinct<S>(
    w0: WalletLibrary<S>,
    w1: WalletLibrary<S>,
    w2: WalletLibrary<S>,
    a1: Seq<u8>,
    n1: u64,
    a2: Seq<u8>,
    n2: u64,
)
    requires
        new_address_post(w0, w1, a1, n1),
        new_address_post(w1, w2, a2, n2),
    ensures
        a1 != a2,
        n2 == n1 + 1,
{
    let l0 = w0.spec_entries().len() as int;
    assert((w1.spec_entries()[l0]).0@ == a1);
    assert(w1.spec_contains_address(a1));
}

} // verus!
