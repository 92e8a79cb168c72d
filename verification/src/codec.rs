//! Byte-level encodings used by the wallet.
//!
//! The signing protocol hands back its curve point `R` and scalar `s` as
//! big-endian byte strings with leading zeroes stripped, the way a big
//! integer prints.  The target signature format is a fixed 64-byte layout:
//! `R` zero-padded to 32 bytes, followed by `s` zero-padded to 32 bytes and
//! then byte-reversed, because the signature format wants the scalar in
//! little-endian order.  The reversal is deliberate and is kept here as a
//! single, independently specified transform.

use vstd::prelude::*;

use crate::error::ProtocolError;

verus! {

/// `b` zero-extended on the left to exactly 32 bytes.
pub open spec fn spec_pad32(b: Seq<u8>) -> Seq<u8> {
    Seq::new(32, |i: int| if i < 32 - b.len() { 0u8 } else { b[i - (32 - b.len())] })
}

/// `b` with its byte order reversed.
pub open spec fn spec_reverse(b: Seq<u8>) -> Seq<u8> {
    Seq::new(b.len(), |i: int| b[b.len() - 1 - i])
}

/// The canonical 64-byte signature layout: `R` padded to 32 bytes, then the
/// scalar `s` padded to 32 bytes and byte-reversed into little-endian order.
pub open spec fn spec_signature_bytes(r: Seq<u8>, s: Seq<u8>) -> Seq<u8> {
    spec_pad32(r) + spec_reverse(spec_pad32(s))
}

/// The lower-case hexadecimal digit for a value below 16.
pub open spec fn spec_hex_digit(n: u8) -> char {
    if n == 0 {
        '0'
    } else if n == 1 {
        '1'
    } else if n == 2 {
        '2'
    } else if n == 3 {
        '3'
    } else if n == 4 {
        '4'
    } else if n == 5 {
        '5'
    } else if n == 6 {
        '6'
    } else if n == 7 {
        '7'
    } else if n == 8 {
        '8'
    } else if n == 9 {
        '9'
    } else if n == 10 {
        'a'
    } else if n == 11 {
        'b'
    } else if n == 12 {
        'c'
    } else if n == 13 {
        'd'
    } else if n == 14 {
        'e'
    } else {
        'f'
    }
}

/// The lower-case hexadecimal rendering of a byte string: two digits per
/// byte, high nibble first.
pub open spec fn spec_hex(b: Seq<u8>) -> Seq<char> {
    Seq::new(2 * b.len(), |i: int| if i % 2 == 0 {
        spec_hex_digit(b[i / 2] / 16)
    } else {
        spec_hex_digit(b[i / 2] % 16)
    })
}

/// Relies on `hex::encode`: two lower-case hexadecimal digits per input
/// byte, high nibble first, in input order.
#[verifier::external_body]
pub(crate) fn hex_encode(data: &Vec<u8>) -> (r: String)
    ensures
        r@ == spec_hex(data@),
{
    hex::encode(data.as_slice())
}

/// A canonical byte encoding of an aggregated public key: exactly 32 bytes,
/// the protocol's big-endian representation zero-padded on the left.
pub struct PublicKey {
    bytes: Vec<u8>,
}

impl View for PublicKey {
    type V = Seq<u8>;

    closed spec fn view(&self) -> Seq<u8> {
        self.bytes@
    }
}

impl PublicKey {
    /// The fixed width of an encoded public key.
    pub open spec fn wf(&self) -> bool {
        self@.len() == 32
    }

    /// Wraps bytes already known to have the canonical width.
    pub fn from_padded(bytes: Vec<u8>) -> (r: PublicKey)
        requires
            bytes@.len() == 32,
        ensures
            r@ == bytes@,
            r.wf(),
    {
        PublicKey { bytes }
    }

    /// The encoded key as raw bytes.
    pub fn to_bytes(&self) -> (r: Vec<u8>)
        ensures
            r@ == self@,
    {
        clone_bytes(&self.bytes)
    }
}

/// A complete 64-byte signature in the canonical layout of
/// [`spec_signature_bytes`].
#[derive(Debug, PartialEq, Eq)]
pub struct Signature {
    bytes: Vec<u8>,
}

impl View for Signature {
    type V = Seq<u8>;

    closed spec fn view(&self) -> Seq<u8> {
        self.bytes@
    }
}

impl Signature {
    /// The fixed width of an encoded signature.
    pub open spec fn wf(&self) -> bool {
        self@.len() == 64
    }

    /// The encoded signature as raw bytes.
    pub fn to_bytes(&self) -> (r: Vec<u8>)
        ensures
            r@ == self@,
    {
        clone_bytes(&self.bytes)
    }
}

/// An owned copy of a byte string.
pub fn clone_bytes(b: &Vec<u8>) -> (r: Vec<u8>)
    ensures
        r@ == b@,
{
    let r = b.clone();
    proof {
        assert(r@ =~= b@);
    }
    r
}

/// `b` zero-extended on the left to exactly 32 bytes.
pub fn pad_left32(b: &Vec<u8>) -> (r: Vec<u8>)
    requires
        b@.len() <= 32,
    ensures
        r@ == spec_pad32(b@),
{
    let pad: usize = 32 - b.len();
    let mut r: Vec<u8> = Vec::new();
    let mut i: usize = 0;
    while i < pad
        invariant
            i <= pad,
            pad == 32 - b@.len(),
            r@.len() == i,
            forall|j: int| 0 <= j < i ==> r@[j] == 0u8,
        decreases pad - i,
    {
        r.push(0u8);
        i = i + 1;
    }
    let mut k: usize = 0;
    while k < b.len()
        invariant
            k <= b@.len(),
            pad == 32 - b@.len(),
            b@.len() <= 32,
            r@.len() == pad + k,
            forall|j: int| 0 <= j < pad ==> r@[j] == 0u8,
            forall|j: int| pad <= j < pad + k ==> r@[j] == b@[j - pad],
        decreases b@.len() - k,
    {
        r.push(b[k]);
        k = k + 1;
    }
    proof {
        assert(r@ =~= spec_pad32(b@));
    }
    r
}

/// `b` with its byte order reversed.
pub fn reversed(b: &Vec<u8>) -> (r: Vec<u8>)
    ensures
        r@ == spec_reverse(b@),
{
    let n = b.len();
    let mut r: Vec<u8> = Vec::new();
    let mut i: usize = 0;
    while i < n
        invariant
            i <= n,
            n == b@.len(),
            r@.len() == i,
            forall|j: int| 0 <= j < i ==> r@[j] == b@[n - 1 - j],
        decreases n - i,
    {
        r.push(b[n - 1 - i]);
        i = i + 1;
    }
    proof {
        assert(r@ =~= spec_reverse(b@));
    }
    r
}

/// Assembles the canonical 64-byte signature from the protocol's raw `R` and
/// `s` components.  Components longer than 32 bytes cannot come from a
/// well-behaved co-signer and are rejected as a malformed response; a valid
/// signature is never silently substituted.
pub fn encode_signature(r: &Vec<u8>, s: &Vec<u8>) -> (res: Result<Signature, ProtocolError>)
    ensures
        res is Ok <==> r@.len() <= 32 && s@.len() <= 32,
        res matches Ok(sig) ==> sig@ == spec_signature_bytes(r@, s@) && sig.wf(),
        res is Err ==> res == Err::<Signature, ProtocolError>(ProtocolError::MalformedResponse),
{
    if r.len() > 32 || s.len() > 32 {
        return Err(ProtocolError::MalformedResponse);
    }
    let mut bytes = pad_left32(r);
    let s_padded = pad_left32(s);
    let mut s_le = reversed(&s_padded);
    bytes.append(&mut s_le);
    proof {
        assert(bytes@ =~= spec_signature_bytes(r@, s@));
    }
    Ok(Signature { bytes })
}

} // verus!
