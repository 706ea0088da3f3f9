//! The directory lifecycle: build, collide, reload.

use validator_dir::builder::{ChainSpec, ValidatorDirectoryBuilder};
use validator_dir::directory::dir_name;
use validator_dir::directory::ValidatorDirectory;
use validator_dir::disk::{Disk, OWNER_READ_WRITE_MODE};
use validator_dir::errors::Error;
use validator_dir::keypair::Keypair;

const SLOTS_PER_EPOCH: u64 = 8;
const MAX_EFFECTIVE_BALANCE: u64 = 32_000_000_000;

fn test_spec() -> ChainSpec {
    ChainSpec { max_effective_balance: MAX_EFFECTIVE_BALANCE, bls_withdrawal_prefix_byte: 0 }
}

/// A fixture keypair standing in for what the external signature scheme
/// would generate; distinct seeds give distinct key material.
fn fixture_keypair(seed: u8) -> Keypair {
    let mut pk: Vec<u8> = Vec::new();
    let mut sk: Vec<u8> = Vec::new();
    for i in 0..48u16 {
        pk.push(seed.wrapping_add(i as u8));
        sk.push(seed.wrapping_add(100).wrapping_add(i as u8));
    }
    Keypair { pk, sk }
}

/// The deposit payload the external encoder would return.
fn fixture_payload() -> Vec<u8> {
    vec![0xde, 0xad, 0xbe, 0xef, 0x00, 0x01, 0x7f, 0xff]
}

fn build_full(disk: &mut Disk, voting: Keypair, withdrawal: Keypair) -> ValidatorDirectory {
    ValidatorDirectoryBuilder::default()
        .chain_spec(test_spec())
        .slots_per_epoch(SLOTS_PER_EPOCH)
        .full_deposit_amount()
        .expect("should set full deposit amount")
        .thread_random_keypairs(voting, withdrawal)
        .create_directory(disk)
        .expect("should create directory")
        .write_keypair_files(disk)
        .expect("should write keypair files")
        .write_eth1_data_file(disk, &fixture_payload())
        .expect("should write eth1 data file")
        .create_sqlite_slashing_dbs(disk)
        .expect("should create slashing dbs")
        .build()
        .expect("should build dir")
}

#[test]
fn random_keypairs_round_trip() {
    let mut disk = Disk::new();
    let created_dir = build_full(&mut disk, fixture_keypair(3), fixture_keypair(77));

    let loaded_dir =
        ValidatorDirectory::load_for_signing(&disk, &created_dir.directory, SLOTS_PER_EPOCH)
            .expect("should load directory");

    assert_eq!(
        created_dir, loaded_dir,
        "the directory created should match the one loaded"
    );
}

#[test]
fn deterministic_keypairs_round_trip() {
    let mut disk = Disk::new();
    let index: u8 = 42;
    let expected_keypair = fixture_keypair(index);

    let created_dir = ValidatorDirectoryBuilder::default()
        .chain_spec(test_spec())
        .slots_per_epoch(SLOTS_PER_EPOCH)
        .full_deposit_amount()
        .expect("should set full deposit amount")
        .insecure_keypairs(fixture_keypair(index))
        .create_directory(&mut disk)
        .expect("should create directory")
        .write_keypair_files(&mut disk)
        .expect("should write keypair files")
        .write_eth1_data_file(&mut disk, &fixture_payload())
        .expect("should write eth1 data file")
        .create_sqlite_slashing_dbs(&mut disk)
        .expect("should create slashing dbs")
        .build()
        .expect("should build dir");

    assert!(
        disk.get_vault(&created_dir.directory).is_some(),
        "should have created directory"
    );
    assert_eq!(
        created_dir.directory,
        dir_name(&expected_keypair.pk),
        "should have derived the directory name from the voting key"
    );
    assert_eq!(
        created_dir.voting_keypair.clone(),
        Some(expected_keypair.clone()),
        "voting keypair should be as expected"
    );
    assert_eq!(
        created_dir.withdrawal_keypair.clone(),
        Some(expected_keypair),
        "withdrawal keypair should be as expected"
    );
    assert!(
        created_dir.attestation_slashing_protection.is_some(),
        "attestation slashing db file should exist"
    );
    assert!(
        created_dir.block_slashing_protection.is_some(),
        "block slashing db file should exist"
    );
    assert!(
        !created_dir
            .deposit_data
            .clone()
            .expect("should have data")
            .is_empty(),
        "should have some deposit data"
    );

    let loaded_dir =
        ValidatorDirectory::load_for_signing(&disk, &created_dir.directory, SLOTS_PER_EPOCH)
            .expect("should load directory");

    assert_eq!(
        created_dir, loaded_dir,
        "the directory created should match the one loaded"
    );
}

#[test]
fn directory_collision_is_rejected_without_touching_contents() {
    let mut disk = Disk::new();
    let created_dir = build_full(&mut disk, fixture_keypair(5), fixture_keypair(6));

    // A second build with the same voting key must refuse to materialize.
    let second = ValidatorDirectoryBuilder::default()
        .chain_spec(test_spec())
        .slots_per_epoch(SLOTS_PER_EPOCH)
        .thread_random_keypairs(fixture_keypair(5), fixture_keypair(99))
        .create_directory(&mut disk);
    assert!(matches!(second, Err(Error::DirectoryExists)));

    // The existing directory still loads to the very record built first.
    let loaded_dir =
        ValidatorDirectory::load_for_signing(&disk, &created_dir.directory, SLOTS_PER_EPOCH)
            .expect("should load directory");
    assert_eq!(created_dir, loaded_dir);
}

#[test]
fn existing_key_and_deposit_files_are_never_overwritten() {
    let mut disk = Disk::new();
    let builder = ValidatorDirectoryBuilder::default()
        .chain_spec(test_spec())
        .slots_per_epoch(SLOTS_PER_EPOCH)
        .full_deposit_amount()
        .expect("should set full deposit amount")
        .thread_random_keypairs(fixture_keypair(10), fixture_keypair(11))
        .create_directory(&mut disk)
        .expect("should create directory")
        .write_keypair_files(&mut disk)
        .expect("should write keypair files")
        .write_eth1_data_file(&mut disk, &fixture_payload())
        .expect("should write eth1 data file");

    // Writing the keypair files again must fail, and the first deposit file
    // must survive a second write attempt with different payload bytes.
    let after_keys = builder.write_keypair_files(&mut disk);
    assert!(matches!(after_keys, Err(Error::KeypairFileExists)));

    let retry = ValidatorDirectoryBuilder::default()
        .chain_spec(test_spec())
        .thread_random_keypairs(fixture_keypair(10), fixture_keypair(11))
        .custom_deposit_amount(7)
        .write_eth1_data_file(&mut disk, &vec![0x99]);
    // The retry builder never materialized its directory field.
    assert!(matches!(retry, Err(Error::MissingDirectory)));

    let name = dir_name(&fixture_keypair(10).pk);
    let vault = disk.get_vault(&name).expect("vault should exist");
    let file = vault
        .deposit_data_file
        .as_ref()
        .expect("deposit file should exist");
    // Still the first payload: 0x then its hex.
    assert_eq!(file[0], b'0');
    assert_eq!(file[1], b'x');
    assert_eq!(file.len(), 2 + 2 * fixture_payload().len());
}

#[test]
fn second_deposit_write_into_same_directory_fails() {
    let mut disk = Disk::new();
    let builder = ValidatorDirectoryBuilder::default()
        .chain_spec(test_spec())
        .custom_deposit_amount(MAX_EFFECTIVE_BALANCE)
        .thread_random_keypairs(fixture_keypair(21), fixture_keypair(22))
        .create_directory(&mut disk)
        .expect("should create directory")
        .write_eth1_data_file(&mut disk, &fixture_payload())
        .expect("should write eth1 data file");
    let again = builder.write_eth1_data_file(&mut disk, &vec![0x01, 0x02]);
    assert!(matches!(again, Err(Error::DepositFileExists)));
}

#[test]
fn slashing_stores_are_never_recreated() {
    let mut disk = Disk::new();
    let builder = ValidatorDirectoryBuilder::default()
        .slots_per_epoch(SLOTS_PER_EPOCH)
        .thread_random_keypairs(fixture_keypair(31), fixture_keypair(32))
        .create_directory(&mut disk)
        .expect("should create directory")
        .create_sqlite_slashing_dbs(&mut disk)
        .expect("should create slashing dbs");
    let again = builder.create_sqlite_slashing_dbs(&mut disk);
    assert!(matches!(again, Err(Error::SlashingStoreExists)));
}

#[test]
fn key_files_carry_owner_only_permissions() {
    let mut disk = Disk::new();
    let created_dir = build_full(&mut disk, fixture_keypair(41), fixture_keypair(42));

    let vault = disk
        .get_vault(&created_dir.directory)
        .expect("vault should exist");
    let voting_file = vault
        .voting_keypair_file
        .as_ref()
        .expect("voting keypair file should exist");
    let withdrawal_file = vault
        .withdrawal_keypair_file
        .as_ref()
        .expect("withdrawal keypair file should exist");
    assert_eq!(voting_file.mode, OWNER_READ_WRITE_MODE);
    assert_eq!(withdrawal_file.mode, OWNER_READ_WRITE_MODE);
    assert_eq!(voting_file.mode, 0o600);
}

#[test]
fn loading_without_slashing_stores_fails() {
    let mut disk = Disk::new();
    // Full pipeline except the safety-store step.
    let created_dir = ValidatorDirectoryBuilder::default()
        .chain_spec(test_spec())
        .slots_per_epoch(SLOTS_PER_EPOCH)
        .full_deposit_amount()
        .expect("should set full deposit amount")
        .thread_random_keypairs(fixture_keypair(51), fixture_keypair(52))
        .create_directory(&mut disk)
        .expect("should create directory")
        .write_keypair_files(&mut disk)
        .expect("should write keypair files")
        .build()
        .expect("should build dir");

    let loaded = ValidatorDirectory::load_for_signing(&disk, &created_dir.directory, SLOTS_PER_EPOCH);
    assert!(matches!(loaded, Err(Error::SlashingProtectionNotFound)));
}

#[test]
fn loading_a_missing_directory_fails() {
    let disk = Disk::new();
    let name: Vec<u8> = vec![b'0', b'x', b'a', b'b'];
    let loaded = ValidatorDirectory::load_for_signing(&disk, &name, SLOTS_PER_EPOCH);
    assert!(matches!(loaded, Err(Error::DirectoryNotFound)));
}

#[test]
fn loader_reads_back_recorded_slots_per_epoch() {
    let mut disk = Disk::new();
    let created_dir = build_full(&mut disk, fixture_keypair(61), fixture_keypair(62));

    // The stored parameter is authoritative: a different fallback loses.
    let loaded =
        ValidatorDirectory::load_for_signing(&disk, &created_dir.directory, SLOTS_PER_EPOCH + 5)
            .expect("should load directory");
    assert_eq!(loaded.slots_per_epoch, Some(SLOTS_PER_EPOCH));
}

#[test]
fn loader_falls_back_when_no_slots_per_epoch_was_recorded() {
    let mut disk = Disk::new();
    // The builder never sets slots-per-epoch, so the block store records none.
    let created_dir = ValidatorDirectoryBuilder::default()
        .thread_random_keypairs(fixture_keypair(71), fixture_keypair(72))
        .create_directory(&mut disk)
        .expect("should create directory")
        .write_keypair_files(&mut disk)
        .expect("should write keypair files")
        .create_sqlite_slashing_dbs(&mut disk)
        .expect("should create slashing dbs")
        .build()
        .expect("should build dir");

    let loaded = ValidatorDirectory::load_for_signing(&disk, &created_dir.directory, 96)
        .expect("should load directory");
    assert_eq!(loaded.slots_per_epoch, Some(96));
}

#[test]
fn missing_withdrawal_key_and_deposit_are_tolerated_on_load() {
    let mut disk = Disk::new();
    // Only the voting keypair file is written: the withdrawal keypair and
    // deposit data stay absent, which a load must record, not reject.
    let created_dir = ValidatorDirectoryBuilder::default()
        .slots_per_epoch(SLOTS_PER_EPOCH)
        .insecure_keypairs(fixture_keypair(81))
        .create_directory(&mut disk)
        .expect("should create directory")
        .write_keypair_files(&mut disk)
        .expect("should write keypair files")
        .create_sqlite_slashing_dbs(&mut disk)
        .expect("should create slashing dbs")
        .build()
        .expect("should build dir");
    assert!(created_dir.deposit_data.is_none());

    let loaded = ValidatorDirectory::load_for_signing(&disk, &created_dir.directory, SLOTS_PER_EPOCH)
        .expect("should load directory");
    assert_eq!(loaded.voting_keypair, Some(fixture_keypair(81)));
    assert_eq!(loaded.withdrawal_keypair, Some(fixture_keypair(81)));
    assert!(loaded.deposit_data.is_none());
}

#[test]
fn prerequisite_failures_are_reported() {
    let mut disk = Disk::new();

    let no_spec = ValidatorDirectoryBuilder::default().full_deposit_amount();
    assert!(matches!(no_spec, Err(Error::MissingChainSpec)));

    let no_voting = ValidatorDirectoryBuilder::default().create_directory(&mut disk);
    assert!(matches!(no_voting, Err(Error::MissingVotingKeypair)));

    let no_keys = ValidatorDirectoryBuilder::default().write_keypair_files(&mut disk);
    assert!(matches!(no_keys, Err(Error::MissingVotingKeypair)));

    let no_keys_deposit = ValidatorDirectoryBuilder::default()
        .custom_deposit_amount(1)
        .chain_spec(test_spec())
        .write_eth1_data_file(&mut disk, &fixture_payload());
    // A deposit needs the keypairs; none was generated.
    assert!(matches!(no_keys_deposit, Err(Error::MissingVotingKeypair)));

    let no_amount = ValidatorDirectoryBuilder::default()
        .thread_random_keypairs(fixture_keypair(91), fixture_keypair(92))
        .write_eth1_data_file(&mut disk, &fixture_payload());
    assert!(matches!(no_amount, Err(Error::MissingAmount)));

    let no_chain_spec = ValidatorDirectoryBuilder::default()
        .thread_random_keypairs(fixture_keypair(91), fixture_keypair(92))
        .custom_deposit_amount(1)
        .write_eth1_data_file(&mut disk, &fixture_payload());
    assert!(matches!(no_chain_spec, Err(Error::MissingChainSpec)));

    let no_dir = ValidatorDirectoryBuilder::default()
        .slots_per_epoch(SLOTS_PER_EPOCH)
        .create_sqlite_slashing_dbs(&mut disk);
    assert!(matches!(no_dir, Err(Error::MissingDirectory)));

    let no_dir_build = ValidatorDirectoryBuilder::default().build();
    assert!(matches!(no_dir_build, Err(Error::MissingDirectory)));
}

#[test]
fn writing_into_an_absent_directory_fails() {
    let mut disk = Disk::new();
    let builder = ValidatorDirectoryBuilder::default()
        .thread_random_keypairs(fixture_keypair(15), fixture_keypair(16))
        .create_directory(&mut disk)
        .expect("should create directory");
    // The directory was materialized on another disk: every file write
    // against this one must report the absence instead of inventing it.
    let mut other = Disk::new();
    let keys = builder.write_keypair_files(&mut other);
    assert!(matches!(keys, Err(Error::DirectoryNotFound)));
}

#[test]
fn full_deposit_amount_uses_the_protocol_maximum() {
    let mut disk = Disk::new();
    // Example scenario: deposit amount at the protocol maximum, keys derived
    // for index 42.
    let index: u8 = 42;
    let expected = fixture_keypair(index);
    let created_dir = ValidatorDirectoryBuilder::default()
        .chain_spec(test_spec())
        .slots_per_epoch(SLOTS_PER_EPOCH)
        .full_deposit_amount()
        .expect("should set full deposit amount")
        .insecure_keypairs(fixture_keypair(index))
        .create_directory(&mut disk)
        .expect("should create directory")
        .write_keypair_files(&mut disk)
        .expect("should write keypair files")
        .write_eth1_data_file(&mut disk, &fixture_payload())
        .expect("should write eth1 data file")
        .create_sqlite_slashing_dbs(&mut disk)
        .expect("should create slashing dbs")
        .build()
        .expect("should build dir");

    assert_eq!(created_dir.voting_keypair, Some(expected.clone()));
    assert_eq!(created_dir.withdrawal_keypair, Some(expected.clone()));

    // The directory name is `0x` followed by the hex of the voting key.
    let mut expected_name: Vec<u8> = vec![b'0', b'x'];
    for byte in expected.pk.iter() {
        let digits = b"0123456789abcdef";
        expected_name.push(digits[(byte >> 4) as usize]);
        expected_name.push(digits[(byte & 0x0f) as usize]);
    }
    assert_eq!(created_dir.directory, expected_name);

    let loaded = ValidatorDirectory::load_for_signing(&disk, &created_dir.directory, SLOTS_PER_EPOCH)
        .expect("should load directory");
    assert_eq!(created_dir, loaded);
}
