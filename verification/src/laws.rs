//! Laws that bind the builder and the loader together.
//!
//! Each proof function states a property of the directory lifecycle over
//! the same spec functions that the executable functions' contracts use,
//! so that what was created, what sits on the disk, and what a later load
//! reconstructs are tied together for every input, not just for tested
//! ones.

use vstd::prelude::*;
use crate::builder::{deposit_file_bytes, keypair_file_view, with_insecure_keypairs, BuilderView};
use crate::directory::{
    attester_slashing_db_name, block_producer_slashing_db_name, dir_name_spec, joined_path,
    load_spec, loaded_keypair, parsed_deposit_file, KeypairKind, RecordView,
};
use crate::disk::{StoreFileView, VaultView};
use crate::errors::Error;
use crate::hexenc::{
    hex_of, is_lower_hex_digit, lemma_hex_of_injective, lemma_hex_of_lowercase,
    lemma_hex_round_trip,
};
use crate::keypair::{lemma_keypair_codec_round_trip, KeypairView};

verus! {

/// The vault that the full construction pipeline leaves on the disk for a
/// validator: both keypair files encoded under owner-only mode bits, the
/// deposit-data file, an attestation store without a parameter, and a block
/// store recording the builder's slots-per-epoch.  This is the composition
/// of the effects stated by `create_directory`, `write_keypair_files`,
/// `write_eth1_data_file` and `create_sqlite_slashing_dbs`.
pub open spec fn built_vault(
    voting: KeypairView,
    withdrawal: KeypairView,
    payload: Seq<u8>,
    slots_per_epoch: Option<u64>,
) -> VaultView {
    VaultView {
        voting_keypair_file: Some(keypair_file_view(voting)),
        withdrawal_keypair_file: Some(keypair_file_view(withdrawal)),
        deposit_data_file: Some(deposit_file_bytes(payload)),
        attestation_store: Some(StoreFileView { slots_per_epoch: None }),
        block_store: Some(StoreFileView { slots_per_epoch }),
    }
}

/// The record that `build` assembles after the full pipeline ran with
/// these inputs.
pub open spec fn built_record(
    voting: KeypairView,
    withdrawal: KeypairView,
    payload: Seq<u8>,
    slots_per_epoch: u64,
) -> RecordView {
    RecordView {
        directory: dir_name_spec(voting.pk),
        voting_keypair: Some(voting),
        withdrawal_keypair: Some(withdrawal),
        deposit_data: Some(payload),
        attestation_slashing_protection: Some(
            joined_path(dir_name_spec(voting.pk), attester_slashing_db_name()),
        ),
        block_slashing_protection: Some(
            joined_path(dir_name_spec(voting.pk), block_producer_slashing_db_name()),
        ),
        slots_per_epoch: Some(slots_per_epoch),
    }
}

/// The five slot updates that `create_directory`, `write_keypair_files`,
/// `write_eth1_data_file` and `create_sqlite_slashing_dbs` state in their
/// contracts, applied in pipeline order to a fresh vault, compose to
/// exactly `built_vault`.
pub proof fn lemma_pipeline_composes(
    voting: KeypairView,
    withdrawal: KeypairView,
    payload: Seq<u8>,
    slots_per_epoch: Option<u64>,
)
    ensures
        ({
            let v0 = VaultView::empty();
            let v1 = VaultView { voting_keypair_file: Some(keypair_file_view(voting)), ..v0 };
            let v2 = VaultView {
                withdrawal_keypair_file: Some(keypair_file_view(withdrawal)),
                ..v1
            };
            let v3 = VaultView { deposit_data_file: Some(deposit_file_bytes(payload)), ..v2 };
            let v4 = VaultView {
                attestation_store: Some(StoreFileView { slots_per_epoch: None }),
                ..v3
            };
            let v5 = VaultView { block_store: Some(StoreFileView { slots_per_epoch }), ..v4 };
            v5 == built_vault(voting, withdrawal, payload, slots_per_epoch)
        }),
{
}

/// Round trip: loading the vault that the full pipeline left on disk
/// reconstructs exactly the record that `build` returned, for every
/// well-formed keypair set, every payload, every recorded slots-per-epoch
/// and every caller-supplied fallback.
pub proof fn lemma_build_load_round_trip(
    voting: KeypairView,
    withdrawal: KeypairView,
    payload: Seq<u8>,
    slots_per_epoch: u64,
    fallback: u64,
)
    requires
        voting.wf(),
        withdrawal.wf(),
    ensures
        load_spec(
            built_vault(voting, withdrawal, payload, Some(slots_per_epoch)),
            dir_name_spec(voting.pk),
            fallback,
        ) == Ok::<RecordView, Error>(built_record(voting, withdrawal, payload, slots_per_epoch)),
{
    let vault = built_vault(voting, withdrawal, payload, Some(slots_per_epoch));
    let dir = dir_name_spec(voting.pk);
    lemma_keypair_codec_round_trip(voting);
    lemma_keypair_codec_round_trip(withdrawal);
    assert(loaded_keypair(vault, KeypairKind::Voting) == Ok::<KeypairView, Error>(voting));
    assert(loaded_keypair(vault, KeypairKind::Withdrawal) == Ok::<KeypairView, Error>(withdrawal));
    lemma_deposit_file_round_trip(payload);
    let r = load_spec(vault, dir, fallback);
    assert(r matches Ok(rec) && rec =~= built_record(
        voting,
        withdrawal,
        payload,
        slots_per_epoch,
    ));
}

/// Determinism: two builders fed the keypair derived for the same index
/// hold identical voting and withdrawal keypairs, whatever else they
/// accumulated, and both equal that keypair.
pub proof fn lemma_insecure_keypairs_deterministic(b1: BuilderView, b2: BuilderView, kp: KeypairView)
    ensures
        with_insecure_keypairs(b1, kp).voting_keypair == with_insecure_keypairs(
            b2,
            kp,
        ).voting_keypair,
        with_insecure_keypairs(b1, kp).withdrawal_keypair == with_insecure_keypairs(
            b2,
            kp,
        ).withdrawal_keypair,
        with_insecure_keypairs(b1, kp).voting_keypair == Some(kp),
        with_insecure_keypairs(b1, kp).withdrawal_keypair == Some(kp),
{
}

/// A directory's identity is injective in the voting public key: two
/// different voting keys never collide into the same directory name.
pub proof fn lemma_dir_name_injective(pk1: Seq<u8>, pk2: Seq<u8>)
    requires
        dir_name_spec(pk1) == dir_name_spec(pk2),
    ensures
        pk1 == pk2,
{
    assert(dir_name_spec(pk1).skip(2) =~= hex_of(pk1));
    assert(dir_name_spec(pk2).skip(2) =~= hex_of(pk2));
    lemma_hex_of_injective(pk1, pk2);
}

/// Deposit file format: the written file is `0x` followed by lowercase hex
/// digits only, and parsing it recovers exactly the payload that was
/// encoded.
pub proof fn lemma_deposit_file_round_trip(payload: Seq<u8>)
    ensures
        deposit_file_bytes(payload).len() == 2 + 2 * payload.len(),
        deposit_file_bytes(payload)[0] == 48,
        deposit_file_bytes(payload)[1] == 120,
        forall|i: int| 2 <= i < deposit_file_bytes(payload).len() ==> is_lower_hex_digit(
            #[trigger] deposit_file_bytes(payload)[i],
        ),
        parsed_deposit_file(deposit_file_bytes(payload)) == Ok::<Seq<u8>, Error>(payload),
{
    let file = deposit_file_bytes(payload);
    lemma_hex_of_lowercase(payload);
    lemma_hex_round_trip(payload);
    assert(file.skip(2) =~= hex_of(payload));
    assert forall|i: int| 2 <= i < file.len() implies is_lower_hex_digit(#[trigger] file[i]) by {
        assert(file[i] == hex_of(payload)[i - 2]);
    }
}

} // verus!
