use libra_wallet::submit_transaction_command::{
    SubmitSignedTransactionCommand, SubmitTransactionFromDiskCommand,
};
use libra_wallet::transfer_commands::{PrepareTransferCommand, TransferCommand};

#[test]
fn transfer_command_surface() {
    let cmd = TransferCommand {};
    assert_eq!(cmd.get_aliases(), vec!["transfer", "transferb", "t", "tb"]);
    assert_eq!(cmd.get_description(), "Transfer coins (in libra) from account to another.");
    assert!(cmd.get_params_help().contains("<number_of_coins>"));
}

#[test]
fn prepare_transfer_command_surface() {
    let cmd = PrepareTransferCommand {};
    assert_eq!(cmd.get_aliases(), vec!["prepare_transfer", "p"]);
    assert_eq!(
        cmd.get_description(),
        "Return an unsigned transaction of a transfer of coins (in libra) from account to another."
    );
    assert!(cmd.get_params_help().contains("<sender_sequence_number>"));
}

#[test]
fn submit_from_disk_command_surface() {
    let cmd = SubmitTransactionFromDiskCommand {};
    assert_eq!(cmd.get_aliases(), vec!["submit", "submitb", "s", "sb"]);
    assert_eq!(cmd.get_description(), "Load a RawTransaction from file and submit to the network");
    assert!(cmd.get_params_help().contains("<path_to_raw_transaction>"));
}

#[test]
fn submit_signed_command_surface() {
    let cmd = SubmitSignedTransactionCommand {};
    assert_eq!(cmd.get_aliases(), vec!["submits", "ss"]);
    assert_eq!(
        cmd.get_description(),
        "Submit a transaction given raw hex bytes of the transaction, sender public key and signature"
    );
    assert!(cmd.get_params_help().contains("<signature_raw_bytes>"));
}
