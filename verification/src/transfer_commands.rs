//! Commands to transfer coins between two accounts.
//!
//! Only the commands' descriptions and their one computation — the digest a
//! prepared transfer prints for out-of-band signing — live here.  The
//! interactive dispatch drives a network client and console I/O and stays
//! outside the library.

use vstd::prelude::*;

use crate::codec::{hex_encode, spec_hex};
use crate::hash::{sha3_256, sha3_of};
use crate::transaction::RawTransaction;

verus! {

/// Command to transfer coins between two accounts.
pub struct TransferCommand {}

/// Command to prepare a transfer of coins between two accounts.
pub struct PrepareTransferCommand {}

impl TransferCommand {
    /// The names under which the command is invoked.
    pub fn get_aliases(&self) -> (r: Vec<&'static str>)
        ensures
            r@.len() == 4,
            r@[0]@ == "transfer"@,
            r@[1]@ == "transferb"@,
            r@[2]@ == "t"@,
            r@[3]@ == "tb"@,
    {
        let mut v: Vec<&'static str> = Vec::new();
        v.push("transfer");
        v.push("transferb");
        v.push("t");
        v.push("tb");
        v
    }

    /// The usage line for the command's parameters.
    pub fn get_params_help(&self) -> (r: &'static str)
        ensures
            r@ == "\n\t<sender_account_address>|<sender_account_ref_id> \
         <receiver_account_address>|<receiver_account_ref_id> <number_of_coins> \
         [gas_unit_price_in_micro_libras (default=0)] [max_gas_amount_in_micro_libras (default 100000)] \
         Suffix 'b' is for blocking. "@,
    {
        "\n\t<sender_account_address>|<sender_account_ref_id> \
         <receiver_account_address>|<receiver_account_ref_id> <number_of_coins> \
         [gas_unit_price_in_micro_libras (default=0)] [max_gas_amount_in_micro_libras (default 100000)] \
         Suffix 'b' is for blocking. "
    }

    /// What the command does.
    pub fn get_description(&self) -> (r: &'static str)
        ensures
            r@ == "Transfer coins (in libra) from account to another."@,
    {
        "Transfer coins (in libra) from account to another."
    }
}

impl PrepareTransferCommand {
    /// The names under which the command is invoked.
    pub fn get_aliases(&self) -> (r: Vec<&'static str>)
        ensures
            r@.len() == 2,
            r@[0]@ == "prepare_transfer"@,
            r@[1]@ == "p"@,
    {
        let mut v: Vec<&'static str> = Vec::new();
        v.push("prepare_transfer");
        v.push("p");
        v
    }

    /// The usage line for the command's parameters.
    pub fn get_params_help(&self) -> (r: &'static str)
        ensures
            r@ == "\n\t<sender_account_address>|<sender_account_ref_id> \
         <sender_sequence_number> \
         <receiver_account_address>|<receiver_account_ref_id> <number_of_coins> \
         [gas_unit_price_in_micro_libras (default=0)] [max_gas_amount_in_micro_libras (default 10000)]"@,
    {
        "\n\t<sender_account_address>|<sender_account_ref_id> \
         <sender_sequence_number> \
         <receiver_account_address>|<receiver_account_ref_id> <number_of_coins> \
         [gas_unit_price_in_micro_libras (default=0)] [max_gas_amount_in_micro_libras (default 10000)]"
    }

    /// What the command does.
    pub fn get_description(&self) -> (r: &'static str)
        ensures
            r@ == "Return an unsigned transaction of a transfer of coins (in libra) from account to another."@,
    {
        "Return an unsigned transaction of a transfer of coins (in libra) from account to another."
    }

    /// The hex rendering of an unsigned transaction's canonical digest:
    /// what a prepared transfer reports so the transaction can be signed
    /// out of band.
    pub fn transaction_hash_hex(txn: &RawTransaction) -> (s: String)
        ensures
            s@ == spec_hex(sha3_of(txn@)),
    {
        let raw = txn.to_vec();
        let hash = sha3_256(&raw);
        hex_encode(&hash.to_vec())
    }
}

} // verus!
