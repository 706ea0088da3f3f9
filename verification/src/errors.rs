//! Failure conditions of the builder and the loader.

use vstd::prelude::*;

verus! {

/// Every way a lifecycle step can fail.
///
/// The variants fall into the classes of the error-handling design:
/// precondition failures (a required prior step was skipped), collision
/// failures (a target file or directory already exists and must never be
/// overwritten), decoding failures (malformed persisted bytes), and the
/// missing-safety-store failure on load.
#[derive(Clone, Copy, Debug, PartialEq, Eq, Structural)]
pub enum Error {
    /// A step needed the protocol parameters, which were never attached.
    MissingChainSpec,
    /// A step needed the voting keypair, which was never generated.
    MissingVotingKeypair,
    /// A step needed the withdrawal keypair, which was never generated.
    MissingWithdrawalKeypair,
    /// A step needed the deposit amount, which was never chosen.
    MissingAmount,
    /// A file-writing step ran before the directory was materialized.
    MissingDirectory,
    /// A directory of this name is already present; it is never reused.
    DirectoryExists,
    /// The named directory is not present on the disk.
    DirectoryNotFound,
    /// A keypair file is already present; secret material is never overwritten.
    KeypairFileExists,
    /// The deposit-data file is already present; it is never overwritten.
    DepositFileExists,
    /// A safety store is already present; stores are never recreated.
    SlashingStoreExists,
    /// The stored slots-per-epoch read back from a fresh block store did not
    /// match what was just recorded.
    SlashingParameterMismatch,
    /// On load, at least one of the two safety stores is absent.  A record
    /// without both stores must never be used for signing.
    SlashingProtectionNotFound,
    /// The keypair file to load is absent.
    KeypairFileNotFound,
    /// The keypair file holds malformed or truncated bytes.
    InvalidKeypairEncoding,
    /// The deposit-data file to load is absent.
    DepositFileNotFound,
    /// The deposit-data file does not begin with the mandatory `0x`.
    InvalidDepositPrefix,
    /// The deposit-data file holds a character that is no hex digit, or an
    /// odd number of them.
    InvalidDepositHex,
}

} // verus!
