//! The persisted-key codec, the hex rendering, and the deposit-file parser.

use validator_dir::directory::{
    dir_name, keypair_file, load_eth1_deposit_data, load_keypair, KeypairKind, VOTING_KEY_PREFIX,
    WITHDRAWAL_KEY_PREFIX,
};
use validator_dir::disk::{SecretFile, VaultDir, OWNER_READ_WRITE_MODE};
use validator_dir::errors::Error;
use validator_dir::hexenc::{hex_decode, hex_encode};
use validator_dir::keypair::{decode_keypair, encode_keypair, Keypair};

fn fixture_keypair(seed: u8) -> Keypair {
    let mut pk: Vec<u8> = Vec::new();
    let mut sk: Vec<u8> = Vec::new();
    for i in 0..48u16 {
        pk.push(seed.wrapping_add(i as u8));
        sk.push(seed.wrapping_add(100).wrapping_add(i as u8));
    }
    Keypair { pk, sk }
}

fn empty_vault() -> VaultDir {
    VaultDir {
        voting_keypair_file: None,
        withdrawal_keypair_file: None,
        deposit_data_file: None,
        attestation_store: None,
        block_store: None,
    }
}

#[test]
fn keypair_file_names_carry_their_prefix() {
    assert_eq!(keypair_file(VOTING_KEY_PREFIX), "voting_keypair");
    assert_eq!(keypair_file(WITHDRAWAL_KEY_PREFIX), "withdrawal_keypair");
}

#[test]
fn directory_names_are_prefixed_hex_of_the_voting_key() {
    let pk: Vec<u8> = vec![0xab, 0x01, 0xf0];
    assert_eq!(dir_name(&pk), b"0xab01f0".to_vec());
}

#[test]
fn hex_encoding_is_exact_lowercase() {
    let bytes: Vec<u8> = vec![0x00, 0x1f, 0xa5, 0xff, 0x0b];
    let hex = hex_encode(&bytes);
    assert_eq!(hex, b"001fa5ff0b".to_vec());
}

#[test]
fn hex_decoding_recovers_encoded_bytes() {
    let bytes: Vec<u8> = vec![0xde, 0xad, 0x00, 0x42];
    let hex = hex_encode(&bytes);
    let back = hex_decode(&hex).expect("should decode");
    assert_eq!(back, bytes);
}

#[test]
fn hex_decoding_accepts_uppercase_digits() {
    let hex: Vec<u8> = b"DEad00FF".to_vec();
    let back = hex_decode(&hex).expect("should decode");
    assert_eq!(back, vec![0xde, 0xad, 0x00, 0xff]);
}

#[test]
fn hex_decoding_rejects_odd_length_and_bad_digits() {
    assert!(hex_decode(&b"abc".to_vec()).is_none());
    assert!(hex_decode(&b"zz".to_vec()).is_none());
    assert!(hex_decode(&b"0x12".to_vec()).is_none());
}

#[test]
fn keypair_encoding_is_public_key_then_secret_key() {
    let kp = fixture_keypair(9);
    let encoded = encode_keypair(&kp);
    assert_eq!(encoded.len(), 96);
    assert_eq!(&encoded[..48], kp.pk.as_slice());
    assert_eq!(&encoded[48..], kp.sk.as_slice());

    let decoded = decode_keypair(&encoded).expect("should decode");
    assert_eq!(decoded, kp);
}

#[test]
fn keypair_decoding_rejects_truncated_input() {
    let kp = fixture_keypair(9);
    let mut encoded = encode_keypair(&kp);
    encoded.pop();
    let decoded = decode_keypair(&encoded);
    assert!(matches!(decoded, Err(Error::InvalidKeypairEncoding)));
    assert!(matches!(
        decode_keypair(&Vec::new()),
        Err(Error::InvalidKeypairEncoding)
    ));
}

#[test]
fn loading_keypairs_from_a_vault() {
    let kp = fixture_keypair(14);
    let mut vault = empty_vault();

    let missing = load_keypair(&vault, KeypairKind::Voting);
    assert!(matches!(missing, Err(Error::KeypairFileNotFound)));

    vault.voting_keypair_file = Some(SecretFile {
        bytes: encode_keypair(&kp),
        mode: OWNER_READ_WRITE_MODE,
    });
    let loaded = load_keypair(&vault, KeypairKind::Voting).expect("should load");
    assert_eq!(loaded, kp);

    vault.withdrawal_keypair_file = Some(SecretFile {
        bytes: vec![1, 2, 3],
        mode: OWNER_READ_WRITE_MODE,
    });
    let malformed = load_keypair(&vault, KeypairKind::Withdrawal);
    assert!(matches!(malformed, Err(Error::InvalidKeypairEncoding)));
}

#[test]
fn deposit_file_must_have_the_exact_prefix() {
    let mut vault = empty_vault();
    assert!(matches!(
        load_eth1_deposit_data(&vault),
        Err(Error::DepositFileNotFound)
    ));

    vault.deposit_data_file = Some(b"1x00".to_vec());
    assert!(matches!(
        load_eth1_deposit_data(&vault),
        Err(Error::InvalidDepositPrefix)
    ));

    vault.deposit_data_file = Some(b"0".to_vec());
    assert!(matches!(
        load_eth1_deposit_data(&vault),
        Err(Error::InvalidDepositPrefix)
    ));

    vault.deposit_data_file = Some(b"0xzz".to_vec());
    assert!(matches!(
        load_eth1_deposit_data(&vault),
        Err(Error::InvalidDepositHex)
    ));

    vault.deposit_data_file = Some(b"0xdeadbeef".to_vec());
    let bytes = load_eth1_deposit_data(&vault).expect("should parse");
    assert_eq!(bytes, vec![0xde, 0xad, 0xbe, 0xef]);
}
