//! The finalized validator directory record and the load path.
//!
//! A directory's name is a deterministic function of the voting public key:
//! `0x` followed by its lowercase hex rendering.  Loading reconstructs the
//! minimal record needed for signing and insists on both safety stores; a
//! missing withdrawal keypair or deposit file is tolerated, a missing
//! safety store never is.

use vstd::prelude::*;
use vstd::string::StringExecFns;
use crate::bytes::{append_bytes, clone_bytes};
use crate::disk::{Disk, VaultDir, VaultView};
use crate::errors::Error;
use crate::hexenc::{hex_decode, hex_decode_spec, hex_encode, hex_of};
use crate::keypair::{decode_keypair, decode_keypair_spec, Keypair, KeypairView};

verus! {

/// File-name prefix of the persisted voting keypair.
pub const VOTING_KEY_PREFIX: &'static str = "voting";

/// File-name prefix of the persisted withdrawal keypair.
pub const WITHDRAWAL_KEY_PREFIX: &'static str = "withdrawal";

/// The name of a persisted keypair file for a given prefix.
pub fn keypair_file(prefix: &str) -> (r: String)
    ensures
        r@ == prefix@ + "_keypair"@,
{
    let mut r = prefix.to_owned();
    r.append("_keypair");
    r
}

/// Name of the attestation safety store inside a validator directory.
pub open spec fn attester_slashing_db_name() -> Seq<u8> {
    seq![97u8, 116u8, 116u8, 101u8, 115u8, 116u8, 101u8, 114u8, 95u8, 115u8, 108u8, 97u8, 115u8,
        104u8, 105u8, 110u8, 103u8, 95u8, 112u8, 114u8, 111u8, 116u8, 101u8, 99u8, 116u8, 105u8,
        111u8, 110u8, 46u8, 115u8, 113u8, 108u8, 105u8, 116u8, 101u8]
}

/// Name of the block-proposal safety store inside a validator directory.
pub open spec fn block_producer_slashing_db_name() -> Seq<u8> {
    seq![98u8, 108u8, 111u8, 99u8, 107u8, 95u8, 112u8, 114u8, 111u8, 100u8, 117u8, 99u8, 101u8,
        114u8, 95u8, 115u8, 108u8, 97u8, 115u8, 104u8, 105u8, 110u8, 103u8, 95u8, 112u8, 114u8,
        111u8, 116u8, 101u8, 99u8, 116u8, 105u8, 111u8, 110u8, 46u8, 115u8, 113u8, 108u8, 105u8,
        116u8, 101u8]
}

/// The attestation safety-store file name, as bytes.
pub fn attester_slashing_db() -> (r: Vec<u8>)
    ensures
        r@ == attester_slashing_db_name(),
{
    let mut r: Vec<u8> = Vec::new();
    r.push(97);
    r.push(116);
    r.push(116);
    r.push(101);
    r.push(115);
    r.push(116);
    r.push(101);
    r.push(114);
    r.push(95);
    r.push(115);
    r.push(108);
    r.push(97);
    r.push(115);
    r.push(104);
    r.push(105);
    r.push(110);
    r.push(103);
    r.push(95);
    r.push(112);
    r.push(114);
    r.push(111);
    r.push(116);
    r.push(101);
    r.push(99);
    r.push(116);
    r.push(105);
    r.push(111);
    r.push(110);
    r.push(46);
    r.push(115);
    r.push(113);
    r.push(108);
    r.push(105);
    r.push(116);
    r.push(101);
    proof {
        assert(r@ =~= attester_slashing_db_name());
    }
    r
}

/// The block-proposal safety-store file name, as bytes.
pub fn block_producer_slashing_db() -> (r: Vec<u8>)
    ensures
        r@ == block_producer_slashing_db_name(),
{
    let mut r: Vec<u8> = Vec::new();
    r.push(98);
    r.push(108);
    r.push(111);
    r.push(99);
    r.push(107);
    r.push(95);
    r.push(112);
    r.push(114);
    r.push(111);
    r.push(100);
    r.push(117);
    r.push(99);
    r.push(101);
    r.push(114);
    r.push(95);
    r.push(115);
    r.push(108);
    r.push(97);
    r.push(115);
    r.push(104);
    r.push(105);
    r.push(110);
    r.push(103);
    r.push(95);
    r.push(112);
    r.push(114);
    r.push(111);
    r.push(116);
    r.push(101);
    r.push(99);
    r.push(116);
    r.push(105);
    r.push(111);
    r.push(110);
    r.push(46);
    r.push(115);
    r.push(113);
    r.push(108);
    r.push(105);
    r.push(116);
    r.push(101);
    proof {
        assert(r@ =~= block_producer_slashing_db_name());
    }
    r
}

/// The name of the directory generated for a validator with the given
/// voting public key: `0x` followed by its lowercase hex rendering.
pub open spec fn dir_name_spec(voting_pk: Seq<u8>) -> Seq<u8> {
    seq![48u8, 120u8] + hex_of(voting_pk)
}

/// Compute the directory name for a voting public key.
pub fn dir_name(voting_pk: &Vec<u8>) -> (r: Vec<u8>)
    ensures
        r@ == dir_name_spec(voting_pk@),
{
    let mut r: Vec<u8> = Vec::new();
    r.push(48);
    r.push(120);
    let hex = hex_encode(voting_pk);
    append_bytes(&mut r, &hex);
    proof {
        assert(r@ =~= dir_name_spec(voting_pk@));
    }
    r
}

/// A path inside a validator directory: the directory name, a separator,
/// the file name.
pub open spec fn joined_path(dir: Seq<u8>, file: Seq<u8>) -> Seq<u8> {
    dir + seq![47u8] + file
}

/// Join a directory name and a file name with a separator.
pub fn join_path(dir: &Vec<u8>, file: &Vec<u8>) -> (r: Vec<u8>)
    ensures
        r@ == joined_path(dir@, file@),
{
    let mut r = clone_bytes(dir);
    r.push(47);
    append_bytes(&mut r, file);
    proof {
        assert(r@ =~= joined_path(dir@, file@));
    }
    r
}

/// Which of the two persisted keypairs a load or save step aims at.
#[derive(Clone, Copy, Debug, PartialEq, Eq, Structural)]
pub enum KeypairKind {
    Voting,
    Withdrawal,
}

/// The keypair-file slot of a vault that a kind selects.
pub open spec fn keypair_slot(vault: VaultView, kind: KeypairKind) -> Option<
    crate::disk::SecretFileView,
> {
    match kind {
        KeypairKind::Voting => vault.voting_keypair_file,
        KeypairKind::Withdrawal => vault.withdrawal_keypair_file,
    }
}

/// What loading a keypair from a vault yields: the decoded pair, or the
/// exact failure.
pub open spec fn loaded_keypair(vault: VaultView, kind: KeypairKind) -> Result<KeypairView, Error> {
    match keypair_slot(vault, kind) {
        None => Err(Error::KeypairFileNotFound),
        Some(f) => match decode_keypair_spec(f.bytes) {
            None => Err(Error::InvalidKeypairEncoding),
            Some(kp) => Ok(kp),
        },
    }
}

/// The view of a keypair load result.
pub open spec fn keypair_result_view(r: Result<Keypair, Error>) -> Result<KeypairView, Error> {
    match r {
        Ok(kp) => Ok(kp@),
        Err(e) => Err(e),
    }
}

/// Load a keypair file from a vault, rejecting absence and malformed bytes.
pub fn load_keypair(vault: &VaultDir, kind: KeypairKind) -> (r: Result<Keypair, Error>)
    ensures
        keypair_result_view(r) == loaded_keypair(vault@, kind),
{
    let slot = match kind {
        KeypairKind::Voting => &vault.voting_keypair_file,
        KeypairKind::Withdrawal => &vault.withdrawal_keypair_file,
    };
    match slot {
        None => Err(Error::KeypairFileNotFound),
        Some(file) => match decode_keypair(&file.bytes) {
            Ok(kp) => Ok(kp),
            Err(_) => Err(Error::InvalidKeypairEncoding),
        },
    }
}

/// What parsing the deposit-data file content yields: the payload bytes of
/// a `0x`-prefixed hex file, or the exact failure.
pub open spec fn parsed_deposit_file(file: Seq<u8>) -> Result<Seq<u8>, Error> {
    if file.len() < 2 || file[0] != 48 || file[1] != 120 {
        Err(Error::InvalidDepositPrefix)
    } else {
        match hex_decode_spec(file.skip(2)) {
            Some(b) => Ok(b),
            None => Err(Error::InvalidDepositHex),
        }
    }
}

/// The view of a deposit-data load result.
pub open spec fn bytes_result_view(r: Result<Vec<u8>, Error>) -> Result<Seq<u8>, Error> {
    match r {
        Ok(b) => Ok(b@),
        Err(e) => Err(e),
    }
}

/// Load the deposit-data file from a vault: the content must be `0x`
/// followed by hex; anything else is a hard failure.
pub fn load_eth1_deposit_data(vault: &VaultDir) -> (r: Result<Vec<u8>, Error>)
    ensures
        vault@.deposit_data_file is None ==> r == Err::<Vec<u8>, Error>(Error::DepositFileNotFound),
        vault@.deposit_data_file matches Some(file) ==> bytes_result_view(r) == parsed_deposit_file(
            file,
        ),
{
    let file = match &vault.deposit_data_file {
        None => {
            return Err(Error::DepositFileNotFound);
        },
        Some(f) => f,
    };
    if file.len() < 2 || file[0] != 48 || file[1] != 120 {
        return Err(Error::InvalidDepositPrefix);
    }
    let mut rest: Vec<u8> = Vec::new();
    let mut i: usize = 2;
    while i < file.len()
        invariant
            2 <= i <= file@.len(),
            rest@ == file@.subrange(2, i as int),
        decreases file@.len() - i,
    {
        rest.push(file[i]);
        proof {
            assert(rest@ =~= file@.subrange(2, i as int + 1));
        }
        i = i + 1;
    }
    proof {
        assert(rest@ =~= file@.skip(2));
    }
    match hex_decode(&rest) {
        Some(bytes) => Ok(bytes),
        None => Err(Error::InvalidDepositHex),
    }
}

/// The mathematical content of a finalized record.
#[verifier::ext_equal]
pub ghost struct RecordView {
    pub directory: Seq<u8>,
    pub voting_keypair: Option<KeypairView>,
    pub withdrawal_keypair: Option<KeypairView>,
    pub deposit_data: Option<Seq<u8>>,
    pub attestation_slashing_protection: Option<Seq<u8>>,
    pub block_slashing_protection: Option<Seq<u8>>,
    pub slots_per_epoch: Option<u64>,
}

/// The finalized, immutable record of one validator directory.
#[derive(Debug)]
pub struct ValidatorDirectory {
    /// Name of the directory, derived from the voting public key.
    pub directory: Vec<u8>,
    /// Required for signing.
    pub voting_keypair: Option<Keypair>,
    /// Needed only at creation time; may be kept elsewhere afterwards.
    pub withdrawal_keypair: Option<Keypair>,
    /// The encoded one-time deposit transaction payload, if generated.
    pub deposit_data: Option<Vec<u8>>,
    /// Path of the attestation safety store.
    pub attestation_slashing_protection: Option<Vec<u8>>,
    /// Path of the block-proposal safety store.
    pub block_slashing_protection: Option<Vec<u8>>,
    /// The protocol timing parameter recorded in the block store.
    pub slots_per_epoch: Option<u64>,
}

impl View for ValidatorDirectory {
    type V = RecordView;

    open spec fn view(&self) -> RecordView {
        RecordView {
            directory: self.directory@,
            voting_keypair: match self.voting_keypair {
                Some(ref k) => Some(k@),
                None => None,
            },
            withdrawal_keypair: match self.withdrawal_keypair {
                Some(ref k) => Some(k@),
                None => None,
            },
            deposit_data: match self.deposit_data {
                Some(ref b) => Some(b@),
                None => None,
            },
            attestation_slashing_protection: match self.attestation_slashing_protection {
                Some(ref b) => Some(b@),
                None => None,
            },
            block_slashing_protection: match self.block_slashing_protection {
                Some(ref b) => Some(b@),
                None => None,
            },
            slots_per_epoch: self.slots_per_epoch,
        }
    }
}

impl PartialEq for ValidatorDirectory {
    fn eq(&self, other: &Self) -> (r: bool) {
        let r = self.directory == other.directory && self.voting_keypair == other.voting_keypair
            && self.withdrawal_keypair == other.withdrawal_keypair && self.deposit_data
            == other.deposit_data && self.attestation_slashing_protection
            == other.attestation_slashing_protection && self.block_slashing_protection
            == other.block_slashing_protection && self.slots_per_epoch == other.slots_per_epoch;
        proof {
            lemma_option_vec_eq(self.deposit_data, other.deposit_data);
            lemma_option_vec_eq(
                self.attestation_slashing_protection,
                other.attestation_slashing_protection,
            );
            lemma_option_vec_eq(
                self.block_slashing_protection,
                other.block_slashing_protection,
            );
            if r {
                assert(self.directory@ =~= other.directory@);
                assert(self@ =~= other@);
            } else {
                if self@ == other@ {
                    assert(self.directory@ == other.directory@);
                    assert(false);
                }
            }
        }
        r
    }
}

impl vstd::std_specs::cmp::PartialEqSpecImpl for ValidatorDirectory {
    open spec fn obeys_eq_spec() -> bool {
        true
    }

    open spec fn eq_spec(&self, other: &Self) -> bool {
        self@ == other@
    }
}

/// The equality test on optional byte vectors agrees with view equality.
proof fn lemma_option_vec_eq(a: Option<Vec<u8>>, b: Option<Vec<u8>>)
    ensures
        vstd::std_specs::cmp::PartialEqSpec::eq_spec(&a, &b) <==> (match a {
            Some(x) => Some(x@),
            None => None,
        } == match b {
            Some(y) => Some(y@),
            None => None,
        }),
{
    match (a, b) {
        (Some(x), Some(y)) => {
            if vstd::std_specs::cmp::PartialEqSpec::eq_spec(&a, &b) {
                assert(x@ =~= y@);
            }
        },
        _ => {},
    }
}

/// What loading a vault for signing yields: the reconstructed record, or
/// the exact failure.  The caller-supplied fallback stands in for the
/// slots-per-epoch parameter only if the block store has none recorded.
pub open spec fn load_spec(vault: VaultView, directory: Seq<u8>, fallback_slots_per_epoch: u64) -> Result<
    RecordView,
    Error,
> {
    if vault.attestation_store is None || vault.block_store is None {
        Err(Error::SlashingProtectionNotFound)
    } else {
        let slots = match vault.block_store.unwrap().slots_per_epoch {
            Some(s) => s,
            None => fallback_slots_per_epoch,
        };
        match loaded_keypair(vault, KeypairKind::Voting) {
            Err(e) => Err(e),
            Ok(voting) => Ok(
                RecordView {
                    directory,
                    voting_keypair: Some(voting),
                    withdrawal_keypair: match loaded_keypair(vault, KeypairKind::Withdrawal) {
                        Ok(kp) => Some(kp),
                        Err(_) => None,
                    },
                    deposit_data: match vault.deposit_data_file {
                        None => None,
                        Some(file) => match parsed_deposit_file(file) {
                            Ok(b) => Some(b),
                            Err(_) => None,
                        },
                    },
                    attestation_slashing_protection: Some(
                        joined_path(directory, attester_slashing_db_name()),
                    ),
                    block_slashing_protection: Some(
                        joined_path(directory, block_producer_slashing_db_name()),
                    ),
                    slots_per_epoch: Some(slots),
                },
            ),
        }
    }
}

/// The view of a whole load result.
pub open spec fn load_result_view(r: Result<ValidatorDirectory, Error>) -> Result<
    RecordView,
    Error,
> {
    match r {
        Ok(d) => Ok(d@),
        Err(e) => Err(e),
    }
}

impl ValidatorDirectory {
    /// Attempt to load a validator directory, requiring only the components
    /// necessary for signing messages.
    ///
    /// The directory must exist and hold both safety stores; the voting
    /// keypair must be present and well-formed.  The withdrawal keypair and
    /// the deposit data are optional: their absence is recorded, not an
    /// error.
    pub fn load_for_signing(disk: &Disk, directory: &Vec<u8>, slots_per_epoch: u64) -> (r: Result<
        ValidatorDirectory,
        Error,
    >)
        requires
            disk.wf(),
        ensures
            !disk@.contains_key(directory@) ==> r == Err::<ValidatorDirectory, Error>(
                Error::DirectoryNotFound,
            ),
            disk@.contains_key(directory@) ==> load_result_view(r) == load_spec(
                disk@[directory@],
                directory@,
                slots_per_epoch,
            ),
    {
        let vault = match disk.get_vault(directory) {
            None => {
                return Err(Error::DirectoryNotFound);
            },
            Some(v) => v,
        };
        if vault.attestation_store.is_none() || vault.block_store.is_none() {
            return Err(Error::SlashingProtectionNotFound);
        }
        let slots: u64 = match &vault.block_store {
            Some(store) => match store.slots_per_epoch {
                Some(s) => s,
                None => slots_per_epoch,
            },
            None => slots_per_epoch,
        };
        let voting = match load_keypair(vault, KeypairKind::Voting) {
            Ok(kp) => kp,
            Err(e) => {
                return Err(e);
            },
        };
        let withdrawal = match load_keypair(vault, KeypairKind::Withdrawal) {
            Ok(kp) => Some(kp),
            Err(_) => None,
        };
        let deposit = match load_eth1_deposit_data(vault) {
            Ok(b) => Some(b),
            Err(_) => None,
        };
        let record = ValidatorDirectory {
            directory: clone_bytes(directory),
            voting_keypair: Some(voting),
            withdrawal_keypair: withdrawal,
            deposit_data: deposit,
            attestation_slashing_protection: Some(
                join_path(directory, &attester_slashing_db()),
            ),
            block_slashing_protection: Some(
                join_path(directory, &block_producer_slashing_db()),
            ),
            slots_per_epoch: Some(slots),
        };
        proof {
            assert(record@ =~= load_spec(disk@[directory@], directory@, slots_per_epoch).unwrap());
        }
        Ok(record)
    }
}

} // verus!
