//! Commands to submit a transaction to the network.
//!
//! Only the commands' descriptions live here.  The submission itself
//! drives a network client and console I/O and stays outside the library.

use vstd::prelude::*;

verus! {

/// Command to load a raw transaction from a file and submit it.
pub struct SubmitTransactionFromDiskCommand {}

/// Command to submit a transaction given its raw bytes, the sender's
/// public key and the signature.
pub struct SubmitSignedTransactionCommand {}

impl SubmitTransactionFromDiskCommand {
    /// The names under which the command is invoked.
    pub fn get_aliases(&self) -> (r: Vec<&'static str>)
        ensures
            r@.len() == 4,
            r@[0]@ == "submit"@,
            r@[1]@ == "submitb"@,
            r@[2]@ == "s"@,
            r@[3]@ == "sb"@,
    {
        let mut v: Vec<&'static str> = Vec::new();
        v.push("submit");
        v.push("submitb");
        v.push("s");
        v.push("sb");
        v
    }

    /// What the command does.
    pub fn get_description(&self) -> (r: &'static str)
        ensures
            r@ == "Load a RawTransaction from file and submit to the network"@,
    {
        "Load a RawTransaction from file and submit to the network"
    }

    /// The usage line for the command's parameters.
    pub fn get_params_help(&self) -> (r: &'static str)
        ensures
            r@ == "\n\t<signer_account_address>|<signer_account_ref_id> <path_to_raw_transaction> Suffix 'b' is for blocking. "@,
    {
        "\n\t<signer_account_address>|<signer_account_ref_id> <path_to_raw_transaction> Suffix 'b' is for blocking. "
    }
}

impl SubmitSignedTransactionCommand {
    /// The names under which the command is invoked.
    pub fn get_aliases(&self) -> (r: Vec<&'static str>)
        ensures
            r@.len() == 2,
            r@[0]@ == "submits"@,
            r@[1]@ == "ss"@,
    {
        let mut v: Vec<&'static str> = Vec::new();
        v.push("submits");
        v.push("ss");
        v
    }

    /// The usage line for the command's parameters.
    pub fn get_params_help(&self) -> (r: &'static str)
        ensures
            r@ == "\n\t<raw_bytes> <public_key_raw_bytes> <signature_raw_bytes>"@,
    {
        "\n\t<raw_bytes> <public_key_raw_bytes> <signature_raw_bytes>"
    }

    /// What the command does.
    pub fn get_description(&self) -> (r: &'static str)
        ensures
            r@ == "Submit a transaction given raw hex bytes of the transaction, sender public key and signature"@,
    {
        "Submit a transaction given raw hex bytes of the transaction, sender public key and signature"
    }
}

} // verus!
