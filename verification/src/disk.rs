//! A model of the base directory that holds the validator directories.
//!
//! The disk is a flat namespace of named vaults, one vault per validator
//! directory.  A vault holds the five well-known files: the two keypair
//! files (bytes plus mode bits), the deposit-data file, and the two
//! safety-history stores, which are opaque but for the slots-per-epoch
//! parameter the block store records.  The view of a disk is the map from
//! directory names to vault contents, and every operation states its effect
//! on that map, so that the check-then-create discipline of the builder is
//! proved rather than assumed.

use vstd::prelude::*;
use crate::bytes::clone_bytes;

verus! {

/// Owner-only read and write: the mode bits forced onto secret key files.
pub const OWNER_READ_WRITE_MODE: u32 = 0o600;

/// Content of a persisted secret file: its bytes and its mode bits.
#[verifier::ext_equal]
pub ghost struct SecretFileView {
    pub bytes: Seq<u8>,
    pub mode: u32,
}

/// A file holding secret key material, with its permission bits.
#[derive(Debug)]
pub struct SecretFile {
    pub bytes: Vec<u8>,
    pub mode: u32,
}

impl View for SecretFile {
    type V = SecretFileView;

    open spec fn view(&self) -> SecretFileView {
        SecretFileView { bytes: self.bytes@, mode: self.mode }
    }
}

/// Content of a safety-history store, as far as this component reads it:
/// the slots-per-epoch parameter it may record.  Everything else inside the
/// store belongs to the external safety-history service.
#[verifier::ext_equal]
pub ghost struct StoreFileView {
    pub slots_per_epoch: Option<u64>,
}

/// A safety-history store file, opaque but for its recorded parameter.
#[derive(Debug)]
pub struct StoreFile {
    pub slots_per_epoch: Option<u64>,
}

impl View for StoreFile {
    type V = StoreFileView;

    open spec fn view(&self) -> StoreFileView {
        StoreFileView { slots_per_epoch: self.slots_per_epoch }
    }
}

/// Contents of one validator directory.
#[verifier::ext_equal]
pub ghost struct VaultView {
    pub voting_keypair_file: Option<SecretFileView>,
    pub withdrawal_keypair_file: Option<SecretFileView>,
    pub deposit_data_file: Option<Seq<u8>>,
    pub attestation_store: Option<StoreFileView>,
    pub block_store: Option<StoreFileView>,
}

impl VaultView {
    /// A freshly materialized directory: no files yet.
    pub open spec fn empty() -> VaultView {
        VaultView {
            voting_keypair_file: None,
            withdrawal_keypair_file: None,
            deposit_data_file: None,
            attestation_store: None,
            block_store: None,
        }
    }
}

/// One validator directory: the five well-known files, each possibly absent.
#[derive(Debug)]
pub struct VaultDir {
    pub voting_keypair_file: Option<SecretFile>,
    pub withdrawal_keypair_file: Option<SecretFile>,
    pub deposit_data_file: Option<Vec<u8>>,
    pub attestation_store: Option<StoreFile>,
    pub block_store: Option<StoreFile>,
}

impl View for VaultDir {
    type V = VaultView;

    open spec fn view(&self) -> VaultView {
        VaultView {
            voting_keypair_file: match self.voting_keypair_file {
                Some(ref f) => Some(f@),
                None => None,
            },
            withdrawal_keypair_file: match self.withdrawal_keypair_file {
                Some(ref f) => Some(f@),
                None => None,
            },
            deposit_data_file: match self.deposit_data_file {
                Some(ref b) => Some(b@),
                None => None,
            },
            attestation_store: match self.attestation_store {
                Some(ref s) => Some(s@),
                None => None,
            },
            block_store: match self.block_store {
                Some(ref s) => Some(s@),
                None => None,
            },
        }
    }
}

impl VaultDir {
    /// A directory with no files yet.
    pub fn empty() -> (v: VaultDir)
        ensures
            v@ == VaultView::empty(),
    {
        let v = VaultDir {
            voting_keypair_file: None,
            withdrawal_keypair_file: None,
            deposit_data_file: None,
            attestation_store: None,
            block_store: None,
        };
        proof {
            assert(v@ =~= VaultView::empty());
        }
        v
    }
}

/// A file to be placed into a named slot of a vault.
#[derive(Debug)]
pub enum VaultEntry {
    VotingKeypairFile(SecretFile),
    WithdrawalKeypairFile(SecretFile),
    DepositDataFile(Vec<u8>),
    AttestationStore(StoreFile),
    BlockStore(StoreFile),
}

/// The slot and content an entry stands for.
pub ghost enum VaultEntryView {
    VotingKeypairFile(SecretFileView),
    WithdrawalKeypairFile(SecretFileView),
    DepositDataFile(Seq<u8>),
    AttestationStore(StoreFileView),
    BlockStore(StoreFileView),
}

impl View for VaultEntry {
    type V = VaultEntryView;

    open spec fn view(&self) -> VaultEntryView {
        match self {
            VaultEntry::VotingKeypairFile(f) => VaultEntryView::VotingKeypairFile(f@),
            VaultEntry::WithdrawalKeypairFile(f) => VaultEntryView::WithdrawalKeypairFile(f@),
            VaultEntry::DepositDataFile(b) => VaultEntryView::DepositDataFile(b@),
            VaultEntry::AttestationStore(s) => VaultEntryView::AttestationStore(s@),
            VaultEntry::BlockStore(s) => VaultEntryView::BlockStore(s@),
        }
    }
}

/// Whether the slot an entry aims at is already occupied in a vault.
pub open spec fn entry_slot_taken(v: VaultView, e: VaultEntryView) -> bool {
    match e {
        VaultEntryView::VotingKeypairFile(_) => v.voting_keypair_file is Some,
        VaultEntryView::WithdrawalKeypairFile(_) => v.withdrawal_keypair_file is Some,
        VaultEntryView::DepositDataFile(_) => v.deposit_data_file is Some,
        VaultEntryView::AttestationStore(_) => v.attestation_store is Some,
        VaultEntryView::BlockStore(_) => v.block_store is Some,
    }
}

/// The vault after an entry is placed into its slot.
pub open spec fn vault_with_entry(v: VaultView, e: VaultEntryView) -> VaultView {
    match e {
        VaultEntryView::VotingKeypairFile(f) => VaultView { voting_keypair_file: Some(f), ..v },
        VaultEntryView::WithdrawalKeypairFile(f) => VaultView {
            withdrawal_keypair_file: Some(f),
            ..v
        },
        VaultEntryView::DepositDataFile(b) => VaultView { deposit_data_file: Some(b), ..v },
        VaultEntryView::AttestationStore(s) => VaultView { attestation_store: Some(s), ..v },
        VaultEntryView::BlockStore(s) => VaultView { block_store: Some(s), ..v },
    }
}

/// Outcome of placing a file into a vault.
#[derive(Clone, Copy, Debug, PartialEq, Eq, Structural)]
pub enum PutOutcome {
    /// No vault of that name is present.
    MissingVault,
    /// The slot already holds a file; nothing was changed.
    SlotTaken,
    /// The file now sits in its slot.
    Stored,
}

/// The base directory: a namespace of uniquely named vaults.
pub struct Disk {
    vaults: Vec<(Vec<u8>, VaultDir)>,
}

impl View for Disk {
    type V = Map<Seq<u8>, VaultView>;

    closed spec fn view(&self) -> Map<Seq<u8>, VaultView> {
        Map::new(|name: Seq<u8>| self.contains_name(name), |name: Seq<u8>| self.vault_at(name))
    }
}

impl Disk {
    /// The name of the vault at a position.
    pub closed spec fn name_at(&self, i: int) -> Seq<u8> {
        self.vaults@[i].0@
    }

    /// Some vault carries this name.
    pub closed spec fn contains_name(&self, name: Seq<u8>) -> bool {
        exists|i: int| 0 <= i < self.vaults@.len() && #[trigger] self.name_at(i) == name
    }

    /// The position of the vault carrying this name.
    pub closed spec fn index_of(&self, name: Seq<u8>) -> int {
        choose|i: int| 0 <= i < self.vaults@.len() && #[trigger] self.name_at(i) == name
    }

    /// The contents of the vault carrying this name.
    pub closed spec fn vault_at(&self, name: Seq<u8>) -> VaultView {
        self.vaults@[self.index_of(name)].1@
    }

    /// Names are unique: the disk is a map, not a multimap.
    pub closed spec fn wf(&self) -> bool {
        forall|i: int, j: int|
            0 <= i < j < self.vaults@.len() ==> #[trigger] self.name_at(i) != #[trigger] self.name_at(
                j,
            )
    }

    /// An empty base directory.
    pub fn new() -> (d: Disk)
        ensures
            d.wf(),
            d@ == Map::<Seq<u8>, VaultView>::empty(),
    {
        let d = Disk { vaults: Vec::new() };
        proof {
            assert(forall|name: Seq<u8>| !d.contains_name(name));
            assert(d@ =~= Map::<Seq<u8>, VaultView>::empty());
        }
        d
    }

    /// A position holding a name determines the lookup result.
    proof fn lemma_index_unique(&self, i: int, name: Seq<u8>)
        requires
            self.wf(),
            0 <= i < self.vaults@.len(),
            self.name_at(i) == name,
        ensures
            self.contains_name(name),
            self.index_of(name) == i,
            self.vault_at(name) == self.vaults@[i].1@,
    {
        assert(self.contains_name(name));
        let j = self.index_of(name);
        if i < j {
            assert(self.name_at(i) != self.name_at(j));
        } else if j < i {
            assert(self.name_at(j) != self.name_at(i));
        }
    }

    /// The position of `name`, if a vault carries it.
    fn find_index(&self, name: &Vec<u8>) -> (r: Option<usize>)
        ensures
            match r {
                Some(i) => i < self.vaults@.len() && self.name_at(i as int) == name@,
                None => !self.contains_name(name@),
            },
    {
        let mut k: usize = 0;
        while k < self.vaults.len()
            invariant
                k <= self.vaults@.len(),
                forall|j: int| 0 <= j < k ==> #[trigger] self.name_at(j) != name@,
            decreases self.vaults@.len() - k,
        {
            let entry = &self.vaults[k];
            if entry.0 == *name {
                proof {
                    assert(entry.0@ =~= name@);
                }
                return Some(k);
            }
            proof {
                if self.name_at(k as int) == name@ {
                    assert(entry.0@ =~= name@);
                    assert(false);
                }
            }
            k = k + 1;
        }
        proof {
            if self.contains_name(name@) {
                let i = choose|i: int|
                    0 <= i < self.vaults@.len() && #[trigger] self.name_at(i) == name@;
                assert(self.name_at(i) != name@);
            }
        }
        None
    }

    /// Materialize a fresh, empty vault, refusing to touch an existing one.
    pub fn create_vault(&mut self, name: &Vec<u8>) -> (r: bool)
        requires
            old(self).wf(),
        ensures
            final(self).wf(),
            r == !old(self)@.contains_key(name@),
            r ==> final(self)@ == old(self)@.insert(name@, VaultView::empty()),
            !r ==> *final(self) == *old(self),
    {
        match self.find_index(name) {
            Some(i) => {
                proof {
                    assert(self.name_at(i as int) == name@);
                    assert(self.contains_name(name@));
                }
                false
            },
            None => {
                self.vaults.push((clone_bytes(name), VaultDir::empty()));
                proof {
                    let n = self.vaults@.len() - 1;
                    let pre = old(self);
                    assert(forall|j: int| 0 <= j < n ==> self.name_at(j) == pre.name_at(j));
                    assert(self.name_at(n) == name@);
                    assert(self.wf());
                    assert forall|m: Seq<u8>| #[trigger] self.contains_name(m) implies (m == name@
                        || pre.contains_name(m)) by {
                        let i = choose|i: int|
                            0 <= i < self.vaults@.len() && #[trigger] self.name_at(i) == m;
                        if i < n {
                            assert(pre.name_at(i) == m);
                        }
                    }
                    assert forall|m: Seq<u8>| #[trigger] pre.contains_name(m) implies
                        self.contains_name(m) && self.vault_at(m) == pre.vault_at(m) by {
                        let i = choose|i: int|
                            0 <= i < pre.vaults@.len() && #[trigger] pre.name_at(i) == m;
                        assert(self.name_at(i) == m);
                        self.lemma_index_unique(i, m);
                        pre.lemma_index_unique(i, m);
                    }
                    self.lemma_index_unique(n, name@);
                    assert(self.vault_at(name@) =~= VaultView::empty());
                    assert(self@ =~= pre@.insert(name@, VaultView::empty()));
                }
                true
            },
        }
    }

    /// Borrow the vault of this name, if present.
    pub fn get_vault(&self, name: &Vec<u8>) -> (r: Option<&VaultDir>)
        requires
            self.wf(),
        ensures
            match r {
                Some(v) => self@.contains_key(name@) && v@ == self@[name@],
                None => !self@.contains_key(name@),
            },
    {
        match self.find_index(name) {
            Some(i) => {
                proof {
                    self.lemma_index_unique(i as int, name@);
                }
                Some(&self.vaults[i].1)
            },
            None => None,
        }
    }

    /// Place a file into its slot in the named vault, refusing to overwrite
    /// a file that is already there.
    pub fn put_entry(&mut self, name: &Vec<u8>, entry: VaultEntry) -> (r: PutOutcome)
        requires
            old(self).wf(),
        ensures
            final(self).wf(),
            match r {
                PutOutcome::MissingVault => !old(self)@.contains_key(name@) && *final(self) == *old(
                    self,
                ),
                PutOutcome::SlotTaken => old(self)@.contains_key(name@) && entry_slot_taken(
                    old(self)@[name@],
                    entry@,
                ) && *final(self) == *old(self),
                PutOutcome::Stored => old(self)@.contains_key(name@) && !entry_slot_taken(
                    old(self)@[name@],
                    entry@,
                ) && final(self)@ == old(self)@.insert(
                    name@,
                    vault_with_entry(old(self)@[name@], entry@),
                ),
            },
    {
        let ghost entry_view = entry@;
        match self.find_index(name) {
            None => PutOutcome::MissingVault,
            Some(i) => {
                proof {
                    self.lemma_index_unique(i as int, name@);
                }
                let taken = {
                    let vault = &self.vaults[i].1;
                    match &entry {
                        VaultEntry::VotingKeypairFile(_) => vault.voting_keypair_file.is_some(),
                        VaultEntry::WithdrawalKeypairFile(_) => vault.withdrawal_keypair_file.is_some(),
                        VaultEntry::DepositDataFile(_) => vault.deposit_data_file.is_some(),
                        VaultEntry::AttestationStore(_) => vault.attestation_store.is_some(),
                        VaultEntry::BlockStore(_) => vault.block_store.is_some(),
                    }
                };
                if taken {
                    return PutOutcome::SlotTaken;
                }
                let ghost pre_vault = old(self).vault_at(name@);
                let (nm, mut vault) = self.vaults.remove(i);
                let ghost nm_view = nm@;
                match entry {
                    VaultEntry::VotingKeypairFile(f) => {
                        vault.voting_keypair_file = Some(f);
                    },
                    VaultEntry::WithdrawalKeypairFile(f) => {
                        vault.withdrawal_keypair_file = Some(f);
                    },
                    VaultEntry::DepositDataFile(b) => {
                        vault.deposit_data_file = Some(b);
                    },
                    VaultEntry::AttestationStore(s) => {
                        vault.attestation_store = Some(s);
                    },
                    VaultEntry::BlockStore(s) => {
                        vault.block_store = Some(s);
                    },
                }
                let ghost new_vault = vault@;
                self.vaults.insert(i, (nm, vault));
                proof {
                    let pre = old(self);
                    assert(self.vaults@.len() == pre.vaults@.len());
                    assert forall|j: int| 0 <= j < self.vaults@.len() implies #[trigger] self.name_at(
                        j,
                    ) == pre.name_at(j) by {
                        if j == i as int {
                            assert(self.name_at(j) == nm_view);
                        }
                    }
                    assert(self.wf());
                    assert(self.vaults@[i as int].1@ == new_vault);
                    assert(new_vault =~= vault_with_entry(pre_vault, entry_view));
                    assert forall|m: Seq<u8>| #[trigger] self.contains_name(m)
                        == pre.contains_name(m) by {
                        if self.contains_name(m) {
                            let x = choose|x: int|
                                0 <= x < self.vaults@.len() && #[trigger] self.name_at(x) == m;
                            assert(pre.name_at(x) == m);
                        }
                        if pre.contains_name(m) {
                            let x = choose|x: int|
                                0 <= x < pre.vaults@.len() && #[trigger] pre.name_at(x) == m;
                            assert(self.name_at(x) == m);
                        }
                    }
                    assert forall|m: Seq<u8>| #[trigger] pre.contains_name(m) && m != name@
                        implies self.vault_at(m) == pre.vault_at(m) by {
                        let x = choose|x: int|
                            0 <= x < pre.vaults@.len() && #[trigger] pre.name_at(x) == m;
                        pre.lemma_index_unique(x, m);
                        self.lemma_index_unique(x, m);
                    }
                    self.lemma_index_unique(i as int, name@);
                    assert(self.vault_at(name@) == new_vault);
                    assert(self@ =~= pre@.insert(
                        name@,
                        vault_with_entry(pre@[name@], entry_view),
                    ));
                }
                PutOutcome::Stored
            },
        }
    }
}

} // verus!
