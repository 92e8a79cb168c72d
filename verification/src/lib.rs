//! A minimalist hierarchical wallet core for a two-party (threshold) EdDSA
//! scheme.
//!
//! No private key is ever held in full locally: every child key is a share of
//! a two-party key, and both key generation and signing require a round trip
//! with a remote co-signing party, reached through the [`SigningService`]
//! trait.  The wallet enumerates child keys by an incrementing index, derives
//! a blockchain account address from each child's aggregated public key,
//! keeps the address -> index mapping, and drives the signing protocol to
//! produce a canonical 64-byte signature for a transaction payload.
//!
//! [`SigningService`]: signing_service::SigningService

pub mod account_address;
pub mod cluster;
pub mod codec;
pub mod error;
pub mod hash;
pub mod io_utils;
pub mod key_factory;
pub mod reboot_random_validator;
pub mod signing_service;
pub mod submit_transaction_command;
pub mod transaction;
pub mod transfer_commands;
pub mod wallet_library;
