//! The step-accumulating builder of a validator directory.
//!
//! Each step validates its own prerequisites, fails fast with a descriptive
//! condition, and otherwise returns the updated builder; the file-writing
//! steps state their exact effect on the disk.  Nothing is ever overwritten:
//! an existing directory, keypair file, deposit file or safety store is a
//! hard error.  Key material and the encoded deposit payload are produced
//! by the external signature scheme and payload encoder; they enter the
//! builder as plain values.

use vstd::prelude::*;
use crate::bytes::clone_bytes;
use crate::directory::{
    attester_slashing_db, attester_slashing_db_name, block_producer_slashing_db,
    block_producer_slashing_db_name, dir_name, dir_name_spec, join_path, joined_path,
    keypair_slot, KeypairKind, RecordView, ValidatorDirectory,
};
use crate::disk::{
    Disk, SecretFile, SecretFileView, StoreFile, StoreFileView, VaultEntry,
    VaultView, PutOutcome, OWNER_READ_WRITE_MODE,
};
use crate::errors::Error;
use crate::hexenc::hex_of;
use crate::keypair::{encode_keypair, Keypair, KeypairView};

verus! {

/// The protocol parameters later steps read.
#[derive(Clone, Copy, Debug, PartialEq, Eq, Structural)]
pub struct ChainSpec {
    /// The deposit amount of a full validator, in gwei.
    pub max_effective_balance: u64,
    /// The prefix byte of derived withdrawal credentials.
    pub bls_withdrawal_prefix_byte: u8,
}

/// The mathematical content of a builder in progress.
#[verifier::ext_equal]
pub ghost struct BuilderView {
    pub directory: Option<Seq<u8>>,
    pub voting_keypair: Option<KeypairView>,
    pub withdrawal_keypair: Option<KeypairView>,
    pub amount: Option<u64>,
    pub deposit_data: Option<Seq<u8>>,
    pub attestation_slashing_protection: Option<Seq<u8>>,
    pub block_slashing_protection: Option<Seq<u8>>,
    pub chain_spec: Option<ChainSpec>,
    pub slots_per_epoch: Option<u64>,
}

impl BuilderView {
    /// The builder before any step has run.
    pub open spec fn empty() -> BuilderView {
        BuilderView {
            directory: None,
            voting_keypair: None,
            withdrawal_keypair: None,
            amount: None,
            deposit_data: None,
            attestation_slashing_protection: None,
            block_slashing_protection: None,
            chain_spec: None,
            slots_per_epoch: None,
        }
    }
}

/// The builder after the key-generation step stored one derived keypair as
/// both the voting and the withdrawal keypair.
pub open spec fn with_insecure_keypairs(b: BuilderView, kp: KeypairView) -> BuilderView {
    BuilderView { voting_keypair: Some(kp), withdrawal_keypair: Some(kp), ..b }
}

/// The persisted form of a keypair: its encoding, under owner-only mode bits.
pub open spec fn keypair_file_view(kp: KeypairView) -> SecretFileView {
    SecretFileView { bytes: kp.encoding(), mode: OWNER_READ_WRITE_MODE }
}

/// The deposit-data file content for a payload: `0x` then lowercase hex.
pub open spec fn deposit_file_bytes(payload: Seq<u8>) -> Seq<u8> {
    seq![48u8, 120u8] + hex_of(payload)
}

/// Render the deposit-data file content for a payload.
pub fn deposit_file_contents(payload: &Vec<u8>) -> (r: Vec<u8>)
    ensures
        r@ == deposit_file_bytes(payload@),
{
    let mut r: Vec<u8> = Vec::new();
    r.push(48);
    r.push(120);
    let hex = crate::hexenc::hex_encode(payload);
    crate::bytes::append_bytes(&mut r, &hex);
    proof {
        assert(r@ =~= deposit_file_bytes(payload@));
    }
    r
}

/// Builds a validator directory, both in memory and on the modelled disk.
pub struct ValidatorDirectoryBuilder {
    directory: Option<Vec<u8>>,
    voting_keypair: Option<Keypair>,
    withdrawal_keypair: Option<Keypair>,
    amount: Option<u64>,
    deposit_data: Option<Vec<u8>>,
    attestation_slashing_protection: Option<Vec<u8>>,
    block_slashing_protection: Option<Vec<u8>>,
    chain_spec: Option<ChainSpec>,
    slots_per_epoch: Option<u64>,
}

impl View for ValidatorDirectoryBuilder {
    type V = BuilderView;

    closed spec fn view(&self) -> BuilderView {
        BuilderView {
            directory: match self.directory {
                Some(ref d) => Some(d@),
                None => None,
            },
            voting_keypair: match self.voting_keypair {
                Some(ref k) => Some(k@),
                None => None,
            },
            withdrawal_keypair: match self.withdrawal_keypair {
                Some(ref k) => Some(k@),
                None => None,
            },
            amount: self.amount,
            deposit_data: match self.deposit_data {
                Some(ref b) => Some(b@),
                None => None,
            },
            attestation_slashing_protection: match self.attestation_slashing_protection {
                Some(ref b) => Some(b@),
                None => None,
            },
            block_slashing_protection: match self.block_slashing_protection {
                Some(ref b) => Some(b@),
                None => None,
            },
            chain_spec: self.chain_spec,
            slots_per_epoch: self.slots_per_epoch,
        }
    }
}

impl Default for ValidatorDirectoryBuilder {
    /// The builder before any step has run.
    fn default() -> (r: Self)
        ensures
            r@ == BuilderView::empty(),
    {
        let r = ValidatorDirectoryBuilder {
            directory: None,
            voting_keypair: None,
            withdrawal_keypair: None,
            amount: None,
            deposit_data: None,
            attestation_slashing_protection: None,
            block_slashing_protection: None,
            chain_spec: None,
            slots_per_epoch: None,
        };
        proof {
            assert(r@ =~= BuilderView::empty());
        }
        r
    }
}

impl ValidatorDirectoryBuilder {
    /// Attach the protocol parameters for this validator.
    pub fn chain_spec(self, chain_spec: ChainSpec) -> (r: Self)
        ensures
            r@ == (BuilderView { chain_spec: Some(chain_spec), ..self@ }),
    {
        let ghost s0 = self@;
        let r = ValidatorDirectoryBuilder { chain_spec: Some(chain_spec), ..self };
        proof {
            assert(r@ =~= (BuilderView { chain_spec: Some(chain_spec), ..s0 }));
        }
        r
    }

    /// Use the maximum effective balance as this validator's deposit.
    pub fn full_deposit_amount(self) -> (r: Result<Self, Error>)
        ensures
            self@.chain_spec is None ==> r == Err::<ValidatorDirectoryBuilder, Error>(
                Error::MissingChainSpec,
            ),
            self@.chain_spec matches Some(cs) ==> r matches Ok(b) && b@ == (BuilderView {
                amount: Some(cs.max_effective_balance),
                ..self@
            }),
    {
        let ghost s0 = self@;
        let amount = match &self.chain_spec {
            None => {
                return Err(Error::MissingChainSpec);
            },
            Some(cs) => cs.max_effective_balance,
        };
        let r = ValidatorDirectoryBuilder { amount: Some(amount), ..self };
        proof {
            assert(r@ =~= (BuilderView { amount: Some(amount), ..s0 }));
        }
        Ok(r)
    }

    /// Use a validator deposit of `gwei`.
    pub fn custom_deposit_amount(self, gwei: u64) -> (r: Self)
        ensures
            r@ == (BuilderView { amount: Some(gwei), ..self@ }),
    {
        let ghost s0 = self@;
        let r = ValidatorDirectoryBuilder { amount: Some(gwei), ..self };
        proof {
            assert(r@ =~= (BuilderView { amount: Some(gwei), ..s0 }));
        }
        r
    }

    /// Store two freshly generated random keypairs, as handed over by the
    /// external signature scheme.
    pub fn thread_random_keypairs(self, voting: Keypair, withdrawal: Keypair) -> (r: Self)
        requires
            voting@.wf(),
            withdrawal@.wf(),
        ensures
            r@ == (BuilderView {
                voting_keypair: Some(voting@),
                withdrawal_keypair: Some(withdrawal@),
                ..self@
            }),
    {
        let ghost s0 = self@;
        let ghost v = voting@;
        let ghost w = withdrawal@;
        let r = ValidatorDirectoryBuilder {
            voting_keypair: Some(voting),
            withdrawal_keypair: Some(withdrawal),
            ..self
        };
        proof {
            assert(r@ =~= (BuilderView {
                voting_keypair: Some(v),
                withdrawal_keypair: Some(w),
                ..s0
            }));
        }
        r
    }

    /// Record the slots-per-epoch parameter for the block safety store.
    pub fn slots_per_epoch(self, slots_per_epoch: u64) -> (r: Self)
        ensures
            r@ == (BuilderView { slots_per_epoch: Some(slots_per_epoch), ..self@ }),
    {
        let ghost s0 = self@;
        let r = ValidatorDirectoryBuilder { slots_per_epoch: Some(slots_per_epoch), ..self };
        proof {
            assert(r@ =~= (BuilderView { slots_per_epoch: Some(slots_per_epoch), ..s0 }));
        }
        r
    }

    /// Store one deterministically derived keypair as both the voting and
    /// the withdrawal keypair.  Only for reproducible test fixtures: such
    /// keys hold no secret worth protecting.
    pub fn insecure_keypairs(self, keypair: Keypair) -> (r: Self)
        requires
            keypair@.wf(),
        ensures
            r@ == with_insecure_keypairs(self@, keypair@),
    {
        let ghost s0 = self@;
        let ghost k = keypair@;
        let copy = keypair.clone();
        let r = ValidatorDirectoryBuilder {
            voting_keypair: Some(copy),
            withdrawal_keypair: Some(keypair),
            ..self
        };
        proof {
            assert(r@ =~= with_insecure_keypairs(s0, k));
        }
        r
    }

    /// Materialize the validator directory on the disk.  Its name is
    /// derived from the voting public key; a directory of that name must
    /// not yet exist, and existing contents are never touched.
    pub fn create_directory(self, disk: &mut Disk) -> (r: Result<Self, Error>)
        requires
            old(disk).wf(),
        ensures
            final(disk).wf(),
            self@.voting_keypair is None ==> r == Err::<ValidatorDirectoryBuilder, Error>(
                Error::MissingVotingKeypair,
            ) && *final(disk) == *old(disk),
            self@.voting_keypair matches Some(vk) ==> {
                let name = dir_name_spec(vk.pk);
                if old(disk)@.contains_key(name) {
                    &&& r == Err::<ValidatorDirectoryBuilder, Error>(Error::DirectoryExists)
                    &&& *final(disk) == *old(disk)
                } else {
                    &&& r matches Ok(b) && b@ == (BuilderView { directory: Some(name), ..self@ })
                    &&& final(disk)@ == old(disk)@.insert(name, VaultView::empty())
                }
            },
    {
        let ghost s0 = self@;
        let name = match &self.voting_keypair {
            None => {
                return Err(Error::MissingVotingKeypair);
            },
            Some(k) => dir_name(&k.pk),
        };
        if disk.create_vault(&name) {
            let ghost n = name@;
            let r = ValidatorDirectoryBuilder { directory: Some(name), ..self };
            proof {
                assert(r@ =~= (BuilderView { directory: Some(n), ..s0 }));
            }
            Ok(r)
        } else {
            Err(Error::DirectoryExists)
        }
    }

    /// Write one keypair file into the materialized directory: the encoded
    /// pair under owner-only mode bits, never over an existing file.
    fn save_keypair(&self, disk: &mut Disk, keypair: &Keypair, kind: KeypairKind) -> (r: Result<
        (),
        Error,
    >)
        requires
            old(disk).wf(),
        ensures
            final(disk).wf(),
            self@.directory is None ==> r == Err::<(), Error>(Error::MissingDirectory)
                && *final(disk) == *old(disk),
            self@.directory matches Some(d) ==> {
                if !old(disk)@.contains_key(d) {
                    &&& r == Err::<(), Error>(Error::DirectoryNotFound)
                    &&& *final(disk) == *old(disk)
                } else if keypair_slot(old(disk)@[d], kind) is Some {
                    &&& r == Err::<(), Error>(Error::KeypairFileExists)
                    &&& *final(disk) == *old(disk)
                } else {
                    &&& r == Ok::<(), Error>(())
                    &&& final(disk)@ == old(disk)@.insert(
                        d,
                        if kind == KeypairKind::Voting {
                            VaultView {
                                voting_keypair_file: Some(keypair_file_view(keypair@)),
                                ..old(disk)@[d]
                            }
                        } else {
                            VaultView {
                                withdrawal_keypair_file: Some(keypair_file_view(keypair@)),
                                ..old(disk)@[d]
                            }
                        },
                    )
                }
            },
    {
        let dir = match &self.directory {
            None => {
                return Err(Error::MissingDirectory);
            },
            Some(d) => d,
        };
        let file = SecretFile { bytes: encode_keypair(keypair), mode: OWNER_READ_WRITE_MODE };
        let entry = match kind {
            KeypairKind::Voting => VaultEntry::VotingKeypairFile(file),
            KeypairKind::Withdrawal => VaultEntry::WithdrawalKeypairFile(file),
        };
        match disk.put_entry(dir, entry) {
            PutOutcome::MissingVault => Err(Error::DirectoryNotFound),
            PutOutcome::SlotTaken => Err(Error::KeypairFileExists),
            PutOutcome::Stored => Ok(()),
        }
    }

    /// Write both keypair files, the voting one first.
    pub fn write_keypair_files(self, disk: &mut Disk) -> (r: Result<Self, Error>)
        requires
            old(disk).wf(),
        ensures
            final(disk).wf(),
            self@.voting_keypair is None ==> r == Err::<ValidatorDirectoryBuilder, Error>(
                Error::MissingVotingKeypair,
            ) && *final(disk) == *old(disk),
            self@.voting_keypair is Some && self@.withdrawal_keypair is None ==> r == Err::<
                ValidatorDirectoryBuilder,
                Error,
            >(Error::MissingWithdrawalKeypair) && *final(disk) == *old(disk),
            self@.voting_keypair matches Some(vk) ==> self@.withdrawal_keypair matches Some(wk)
                ==> {
                if self@.directory is None {
                    &&& r == Err::<ValidatorDirectoryBuilder, Error>(Error::MissingDirectory)
                    &&& *final(disk) == *old(disk)
                } else {
                    let d = self@.directory.unwrap();
                    if !old(disk)@.contains_key(d) {
                        &&& r == Err::<ValidatorDirectoryBuilder, Error>(Error::DirectoryNotFound)
                        &&& *final(disk) == *old(disk)
                    } else if old(disk)@[d].voting_keypair_file is Some {
                        &&& r == Err::<ValidatorDirectoryBuilder, Error>(Error::KeypairFileExists)
                        &&& *final(disk) == *old(disk)
                    } else {
                        let v1 = VaultView {
                            voting_keypair_file: Some(keypair_file_view(vk)),
                            ..old(disk)@[d]
                        };
                        if old(disk)@[d].withdrawal_keypair_file is Some {
                            &&& r == Err::<ValidatorDirectoryBuilder, Error>(
                                Error::KeypairFileExists,
                            )
                            &&& final(disk)@ == old(disk)@.insert(d, v1)
                        } else {
                            &&& r matches Ok(b) && b@ == self@
                            &&& final(disk)@ == old(disk)@.insert(
                                d,
                                (VaultView {
                                    withdrawal_keypair_file: Some(keypair_file_view(wk)),
                                    ..v1
                                }),
                            )
                        }
                    }
                }
            },
    {
        let voting = match &self.voting_keypair {
            None => {
                return Err(Error::MissingVotingKeypair);
            },
            Some(k) => k.clone(),
        };
        let withdrawal = match &self.withdrawal_keypair {
            None => {
                return Err(Error::MissingWithdrawalKeypair);
            },
            Some(k) => k.clone(),
        };
        match self.save_keypair(disk, &voting, KeypairKind::Voting) {
            Ok(()) => {},
            Err(e) => {
                return Err(e);
            },
        }
        match self.save_keypair(disk, &withdrawal, KeypairKind::Withdrawal) {
            Ok(()) => {},
            Err(e) => {
                return Err(e);
            },
        }
        Ok(self)
    }

    /// Write the one-time deposit transaction data to its file: `0x`, then
    /// the lowercase hex of the encoded payload.  The payload is produced
    /// by the external deposit-payload encoder from the keypairs, amount
    /// and parameters this builder checks for.
    pub fn write_eth1_data_file(self, disk: &mut Disk, deposit_payload: &Vec<u8>) -> (r: Result<
        Self,
        Error,
    >)
        requires
            old(disk).wf(),
        ensures
            final(disk).wf(),
            self@.voting_keypair is None ==> r == Err::<ValidatorDirectoryBuilder, Error>(
                Error::MissingVotingKeypair,
            ) && *final(disk) == *old(disk),
            self@.voting_keypair is Some && self@.withdrawal_keypair is None ==> r == Err::<
                ValidatorDirectoryBuilder,
                Error,
            >(Error::MissingWithdrawalKeypair) && *final(disk) == *old(disk),
            self@.voting_keypair is Some && self@.withdrawal_keypair is Some && self@.amount
                is None ==> r == Err::<ValidatorDirectoryBuilder, Error>(Error::MissingAmount)
                && *final(disk) == *old(disk),
            self@.voting_keypair is Some && self@.withdrawal_keypair is Some && self@.amount
                is Some && self@.chain_spec is None ==> r == Err::<
                ValidatorDirectoryBuilder,
                Error,
            >(Error::MissingChainSpec) && *final(disk) == *old(disk),
            self@.voting_keypair is Some && self@.withdrawal_keypair is Some && self@.amount
                is Some && self@.chain_spec is Some ==> {
                if self@.directory is None {
                    &&& r == Err::<ValidatorDirectoryBuilder, Error>(Error::MissingDirectory)
                    &&& *final(disk) == *old(disk)
                } else {
                    let d = self@.directory.unwrap();
                    if !old(disk)@.contains_key(d) {
                        &&& r == Err::<ValidatorDirectoryBuilder, Error>(Error::DirectoryNotFound)
                        &&& *final(disk) == *old(disk)
                    } else if old(disk)@[d].deposit_data_file is Some {
                        &&& r == Err::<ValidatorDirectoryBuilder, Error>(Error::DepositFileExists)
                        &&& *final(disk) == *old(disk)
                    } else {
                        &&& r matches Ok(b) && b@ == (BuilderView {
                            deposit_data: Some(deposit_payload@),
                            ..self@
                        })
                        &&& final(disk)@ == old(disk)@.insert(
                            d,
                            (VaultView {
                                deposit_data_file: Some(deposit_file_bytes(deposit_payload@)),
                                ..old(disk)@[d]
                            }),
                        )
                    }
                }
            },
    {
        let ghost s0 = self@;
        if self.voting_keypair.is_none() {
            return Err(Error::MissingVotingKeypair);
        }
        if self.withdrawal_keypair.is_none() {
            return Err(Error::MissingWithdrawalKeypair);
        }
        if self.amount.is_none() {
            return Err(Error::MissingAmount);
        }
        if self.chain_spec.is_none() {
            return Err(Error::MissingChainSpec);
        }
        let dir = match &self.directory {
            None => {
                return Err(Error::MissingDirectory);
            },
            Some(d) => d,
        };
        let contents = deposit_file_contents(deposit_payload);
        match disk.put_entry(dir, VaultEntry::DepositDataFile(contents)) {
            PutOutcome::MissingVault => Err(Error::DirectoryNotFound),
            PutOutcome::SlotTaken => Err(Error::DepositFileExists),
            PutOutcome::Stored => {
                let payload = clone_bytes(deposit_payload);
                let r = ValidatorDirectoryBuilder { deposit_data: Some(payload), ..self };
                proof {
                    assert(r@ =~= (BuilderView {
                        deposit_data: Some(deposit_payload@),
                        ..s0
                    }));
                }
                Ok(r)
            },
        }
    }

    /// Create the two safety stores at their well-known names, record the
    /// slots-per-epoch parameter in the block store, and read it back at
    /// once to confirm it was stored correctly.
    pub fn create_sqlite_slashing_dbs(self, disk: &mut Disk) -> (r: Result<Self, Error>)
        requires
            old(disk).wf(),
        ensures
            final(disk).wf(),
            self@.directory is None ==> r == Err::<ValidatorDirectoryBuilder, Error>(
                Error::MissingDirectory,
            ) && *final(disk) == *old(disk),
            self@.directory matches Some(d) ==> {
                if !old(disk)@.contains_key(d) {
                    &&& r == Err::<ValidatorDirectoryBuilder, Error>(Error::DirectoryNotFound)
                    &&& *final(disk) == *old(disk)
                } else if old(disk)@[d].attestation_store is Some {
                    &&& r == Err::<ValidatorDirectoryBuilder, Error>(Error::SlashingStoreExists)
                    &&& *final(disk) == *old(disk)
                } else {
                    let v1 = VaultView {
                        attestation_store: Some(StoreFileView { slots_per_epoch: None }),
                        ..old(disk)@[d]
                    };
                    if old(disk)@[d].block_store is Some {
                        &&& r == Err::<ValidatorDirectoryBuilder, Error>(
                            Error::SlashingStoreExists,
                        )
                        &&& final(disk)@ == old(disk)@.insert(d, v1)
                    } else {
                        &&& r matches Ok(b) && b@ == (BuilderView {
                            attestation_slashing_protection: Some(
                                joined_path(d, attester_slashing_db_name()),
                            ),
                            block_slashing_protection: Some(
                                joined_path(d, block_producer_slashing_db_name()),
                            ),
                            ..self@
                        })
                        &&& final(disk)@ == old(disk)@.insert(
                            d,
                            (VaultView {
                                block_store: Some(
                                    StoreFileView { slots_per_epoch: self@.slots_per_epoch },
                                ),
                                ..v1
                            }),
                        )
                    }
                }
            },
    {
        let ghost s0 = self@;
        let dir = match &self.directory {
            None => {
                return Err(Error::MissingDirectory);
            },
            Some(d) => clone_bytes(d),
        };
        match disk.put_entry(&dir, VaultEntry::AttestationStore(StoreFile { slots_per_epoch: None })) {
            PutOutcome::MissingVault => {
                return Err(Error::DirectoryNotFound);
            },
            PutOutcome::SlotTaken => {
                return Err(Error::SlashingStoreExists);
            },
            PutOutcome::Stored => {},
        }
        match disk.put_entry(
            &dir,
            VaultEntry::BlockStore(StoreFile { slots_per_epoch: self.slots_per_epoch }),
        ) {
            PutOutcome::MissingVault => {
                return Err(Error::DirectoryNotFound);
            },
            PutOutcome::SlotTaken => {
                return Err(Error::SlashingStoreExists);
            },
            PutOutcome::Stored => {},
        }
        let stored_slots: Option<u64> = match disk.get_vault(&dir) {
            None => None,
            Some(vault) => match &vault.block_store {
                None => None,
                Some(store) => store.slots_per_epoch,
            },
        };
        if stored_slots != self.slots_per_epoch {
            return Err(Error::SlashingParameterMismatch);
        }
        let attestation_path = join_path(&dir, &attester_slashing_db());
        let block_path = join_path(&dir, &block_producer_slashing_db());
        let ghost ap = attestation_path@;
        let ghost bp = block_path@;
        let r = ValidatorDirectoryBuilder {
            attestation_slashing_protection: Some(attestation_path),
            block_slashing_protection: Some(block_path),
            ..self
        };
        proof {
            assert(r@ =~= (BuilderView {
                attestation_slashing_protection: Some(ap),
                block_slashing_protection: Some(bp),
                ..s0
            }));
        }
        Ok(r)
    }

    /// Assemble the immutable record from whichever fields were populated.
    /// A materialized directory is mandatory; everything else is optional.
    pub fn build(self) -> (r: Result<ValidatorDirectory, Error>)
        ensures
            self@.directory is None ==> r == Err::<ValidatorDirectory, Error>(
                Error::MissingDirectory,
            ),
            self@.directory matches Some(d) ==> r matches Ok(v) && v@ == (RecordView {
                directory: d,
                voting_keypair: self@.voting_keypair,
                withdrawal_keypair: self@.withdrawal_keypair,
                deposit_data: self@.deposit_data,
                attestation_slashing_protection: self@.attestation_slashing_protection,
                block_slashing_protection: self@.block_slashing_protection,
                slots_per_epoch: self@.slots_per_epoch,
            }),
    {
        let ghost s0 = self@;
        let directory = match self.directory {
            None => {
                return Err(Error::MissingDirectory);
            },
            Some(d) => d,
        };
        let r = ValidatorDirectory {
            directory,
            voting_keypair: self.voting_keypair,
            withdrawal_keypair: self.withdrawal_keypair,
            deposit_data: self.deposit_data,
            attestation_slashing_protection: self.attestation_slashing_protection,
            block_slashing_protection: self.block_slashing_protection,
            slots_per_epoch: self.slots_per_epoch,
        };
        proof {
            assert(r@ =~= (RecordView {
                directory: s0.directory.unwrap(),
                voting_keypair: s0.voting_keypair,
                withdrawal_keypair: s0.withdrawal_keypair,
                deposit_data: s0.deposit_data,
                attestation_slashing_protection: s0.attestation_slashing_protection,
                block_slashing_protection: s0.block_slashing_protection,
                slots_per_epoch: s0.slots_per_epoch,
            }));
        }
        Ok(r)
    }
}

} // verus!
