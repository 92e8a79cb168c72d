//! Typed errors for the wallet core.
//!
//! Remote-call failures and local invariant violations are all surfaced as
//! values of these enums; no operation of the library aborts the process.

use vstd::prelude::*;

verus! {

/// The remote co-signing party could not complete key generation or
/// co-signing.
#[derive(Clone, Copy, Debug, PartialEq, Eq, Structural)]
pub enum ProtocolError {
    /// The service could not be reached or the connection broke down.
    NetworkFailure,
    /// The service answered but aborted or rejected the protocol run.
    ProtocolAbort,
    /// The service answered with data the wallet cannot accept, such as an
    /// over-long key or signature component.
    MalformedResponse,
}

/// Hash-to-address conversion failed: the raw bytes handed to
/// [`crate::account_address::AccountAddress::try_from_bytes`] do not have the
/// fixed address width.
#[derive(Clone, Copy, Debug, PartialEq, Eq, Structural)]
pub enum AddressError {
    WidthMismatch,
}

/// A recovery line could not be read back.
#[derive(Clone, Copy, Debug, PartialEq, Eq, Structural)]
pub enum RecoveryError {
    /// The line does not consist of exactly two parts around one delimiter.
    MalformedEntry,
    /// The count part is not a decimal number that fits in 64 bits.
    InvalidCount,
}

/// Errors surfaced by the wallet itself.
#[derive(Clone, Copy, Debug, PartialEq, Eq, Structural)]
pub enum WalletError {
    /// A requested generation depth lies behind the current key leaf;
    /// addresses cannot be "ungenerated".
    AlreadyGenerated,
    /// A freshly computed address collides with an entry already in the
    /// wallet; a critical invariant violation, never silently merged.
    DuplicateAddress,
    /// The address map is missing an index below the current key leaf; the
    /// map is corrupt.
    IndexGap,
    /// Signing was requested for an address this wallet does not control.
    UnknownAddress,
    /// The remote signing service failed; carried through unchanged.
    Protocol(ProtocolError),
    /// Address derivation failed; carried through unchanged.
    Address(AddressError),
}

} // verus!
