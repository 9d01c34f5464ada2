use miden_protocol::account::AccountId as ProtocolId;
use miden_protocol::asset::{Asset as ProtocolAsset, FungibleAsset as ProtocolFungible};
use miden_protocol::asset::NonFungibleAsset as ProtocolNonFungible;
use miden_protocol::crypto::merkle::SparseMerklePath;
use miden_protocol::note::{
    NoteAssets, NoteDetails as ProtocolDetails, NoteHeader, NoteId, NoteInputs, NoteMetadata,
    NoteRecipient, NoteScript, NoteTag, NoteType, Nullifier,
};
use miden_protocol::transaction::InputNoteCommitment;
use miden_protocol::utils::serde::Serializable;
use miden_protocol::Felt;
use miden_store::account::{AccountId, Asset, FungibleAsset};
use miden_store::message;
use miden_store::record::{
    AccountVaultValue, BlockNoteIndex, NoteDetails, NoteRecord, NoteSyncRecord, NullifierInfo,
    RowError, TransactionRecord,
};
use miden_store::word::Word;

const FUNGIBLE_PREFIX: u64 = 0x1234_5678_9abc_de20;
const NON_FUNGIBLE_PREFIX: u64 = 0x1234_5678_9abc_de30;
const SUFFIX: u64 = 0x0011_2233_4455_6600;

fn word(n: u64) -> Word {
    Word::new([n, n + 1, n + 2, n + 3]).unwrap()
}

fn protocol_word(n: u64) -> miden_protocol::Word {
    miden_protocol::Word::new([Felt::new(n), Felt::new(n + 1), Felt::new(n + 2), Felt::new(n + 3)])
}

fn protocol_id(prefix: u64) -> ProtocolId {
    ProtocolId::try_from([Felt::new(prefix), Felt::new(SUFFIX)]).unwrap()
}

fn fungible_bytes(amount: u64) -> Vec<u8> {
    ProtocolAsset::from(ProtocolFungible::new(protocol_id(FUNGIBLE_PREFIX), amount).unwrap())
        .to_bytes()
}

fn metadata() -> NoteMetadata {
    NoteMetadata::new(protocol_id(FUNGIBLE_PREFIX), NoteType::Public, NoteTag::new(7))
}

fn path() -> SparseMerklePath {
    SparseMerklePath::from_sized_iter(vec![protocol_word(1), protocol_word(5)]).unwrap()
}

fn details() -> ProtocolDetails {
    let program =
        miden_protocol::assembly::Assembler::default().assemble_program("begin nop end").unwrap();
    let inputs = NoteInputs::new(vec![Felt::new(3)]).unwrap();
    let recipient = NoteRecipient::new(protocol_word(9), NoteScript::new(program), inputs);
    ProtocolDetails::new(NoteAssets::new(vec![]).unwrap(), recipient)
}

fn note(details: Option<NoteDetails>) -> NoteRecord {
    NoteRecord {
        block_num: 12,
        note_index: BlockNoteIndex::new(2, 3).unwrap(),
        note_id: word(1),
        note_commitment: word(2),
        metadata: metadata(),
        details,
        inclusion_path: path(),
    }
}

#[test]
fn fungible_assets_are_read() {
    let row = (3, word(1).to_bytes(), Some(fungible_bytes(500)));
    let value = AccountVaultValue::from_raw_row(row).unwrap();
    assert_eq!(value.block_num, 3);
    assert_eq!(value.vault_key, word(1));
    match value.asset {
        Some(Asset::Fungible(asset)) => {
            assert_eq!(asset.amount(), 500);
            assert_eq!(asset.faucet_id(), AccountId::new(FUNGIBLE_PREFIX, SUFFIX).unwrap());
        },
        other => panic!("unexpected asset: {other:?}"),
    }
}

#[test]
fn fungible_asset_reads_back() {
    let mut bytes = AccountId::new(FUNGIBLE_PREFIX, SUFFIX).unwrap().to_bytes();
    bytes.extend_from_slice(&500u64.to_le_bytes());
    assert_eq!(bytes, fungible_bytes(500));
}

#[test]
fn largest_stored_amount_is_read() {
    let largest = (1 << 63) - (1 << 31);
    let row = (3, word(1).to_bytes(), Some(fungible_bytes(largest)));
    assert!(AccountVaultValue::from_raw_row(row).is_ok());
    let mut bytes = fungible_bytes(largest);
    bytes[15] = 1;
    let row = (3, word(1).to_bytes(), Some(bytes));
    assert_eq!(AccountVaultValue::from_raw_row(row), Err(RowError::InvalidAsset));
}

#[test]
fn non_fungible_assets_are_read() {
    let id = protocol_id(NON_FUNGIBLE_PREFIX);
    let asset = ProtocolNonFungible::from_parts(id.prefix(), protocol_word(70)).unwrap();
    let mut bytes = ProtocolAsset::from(asset).to_bytes();
    bytes.push(1);
    let value = AccountVaultValue::from_raw_row((0, word(1).to_bytes(), Some(bytes))).unwrap();
    let expected = Word::new([70, 71, 72, NON_FUNGIBLE_PREFIX]).unwrap();
    assert_eq!(value.asset, Some(Asset::NonFungible(expected)));
}

#[test]
fn removed_assets_are_read() {
    let value = AccountVaultValue::from_raw_row((u32::MAX as i64, word(4).to_bytes(), None));
    assert_eq!(
        value,
        Ok(AccountVaultValue { block_num: u32::MAX, vault_key: word(4), asset: None })
    );
}

#[test]
fn invalid_rows_are_refused() {
    let key = word(1).to_bytes();
    let refused = |block_num, key: &Vec<u8>, asset| {
        AccountVaultValue::from_raw_row((block_num, key.clone(), asset)).unwrap_err()
    };
    assert_eq!(refused(0, &vec![0; 31], None), RowError::InvalidVaultKey);
    assert_eq!(refused(0, &vec![255; 32], None), RowError::InvalidVaultKey);
    assert_eq!(refused(-1, &key, None), RowError::InvalidBlockNumber);
    assert_eq!(refused(1 << 32, &key, None), RowError::InvalidBlockNumber);
    assert_eq!(refused(0, &key, Some(vec![])), RowError::InvalidAsset);
    assert_eq!(refused(0, &key, Some(fungible_bytes(1)[..22].to_vec())), RowError::InvalidAsset);
    let mut regular = fungible_bytes(1);
    regular[7] = 0x00;
    assert_eq!(refused(0, &key, Some(regular)), RowError::InvalidAsset);
    let mut version = fungible_bytes(1);
    version[7] = 0x21;
    assert_eq!(refused(0, &key, Some(version)), RowError::InvalidAsset);
    let mut suffix = fungible_bytes(1);
    suffix[8] = 0x80;
    assert_eq!(refused(0, &key, Some(suffix)), RowError::InvalidAsset);
}

#[test]
fn first_invalid_part_of_a_row_is_named() {
    let key = word(1).to_bytes();
    let row = (-1, vec![], Some(vec![]));
    assert_eq!(AccountVaultValue::from_raw_row(row), Err(RowError::InvalidVaultKey));
    let row = (-1, key, Some(vec![]));
    assert_eq!(AccountVaultValue::from_raw_row(row), Err(RowError::InvalidBlockNumber));
}

#[test]
fn nullifiers_are_compared_with_their_block() {
    let info = NullifierInfo { nullifier: word(1), block_num: 2 };
    assert!(info == (word(1), 2));
    assert!(info != (word(1), 3));
    assert!(info != (word(2), 2));
    assert!(info == NullifierInfo { nullifier: word(1), block_num: 2 });
    assert!(info != NullifierInfo { nullifier: word(1), block_num: 0 });
}

#[test]
fn transactions_become_messages() {
    let fee = FungibleAsset::new(AccountId::new(FUNGIBLE_PREFIX, SUFFIX).unwrap(), 11).unwrap();
    let input_notes = vec![
        InputNoteCommitment::from(Nullifier::from_raw(protocol_word(1))),
        InputNoteCommitment::from(Nullifier::from_raw(protocol_word(2))),
    ];
    let output_notes =
        vec![NoteHeader::new(NoteId::new(protocol_word(1), protocol_word(2)), metadata())];
    let record = TransactionRecord {
        block_num: 8,
        transaction_id: word(1),
        account_id: AccountId::new(FUNGIBLE_PREFIX, SUFFIX).unwrap(),
        initial_state_commitment: word(2),
        final_state_commitment: word(3),
        input_notes: input_notes.clone(),
        output_notes: output_notes.clone(),
        fee,
    };
    let message = record.into_proto();
    assert_eq!(message.block_num, 8);
    let header = message.header.unwrap();
    assert_eq!(header.transaction_id, Some(word(1)));
    assert_eq!(header.account_id, AccountId::new(FUNGIBLE_PREFIX, SUFFIX));
    assert_eq!(header.initial_state_commitment, Some(word(2)));
    assert_eq!(header.final_state_commitment, Some(word(3)));
    assert_eq!(header.input_notes, input_notes);
    assert_eq!(header.output_notes, output_notes);
    assert_eq!(header.fee, Some(Asset::Fungible(fee)));
}

#[test]
fn leaves_follow_the_batches() {
    assert_eq!(BlockNoteIndex::new(0, 0).unwrap().leaf_index_value(), 0);
    assert_eq!(BlockNoteIndex::new(2, 3).unwrap().leaf_index_value(), 2051);
    assert_eq!(BlockNoteIndex::new(63, 1023).unwrap().leaf_index_value(), 65535);
    assert_eq!(BlockNoteIndex::new(64, 0), None);
    assert_eq!(BlockNoteIndex::new(0, 1024), None);
}

#[test]
fn notes_become_committed_notes() {
    let encoded = details().to_bytes();
    let committed = message::CommittedNote::from(note(Some(NoteDetails::new(encoded.clone()))));
    let proof = committed.inclusion_proof.unwrap();
    assert_eq!(proof.note_id, Some(word(1)));
    assert_eq!(proof.block_num, 12);
    assert_eq!(proof.note_index_in_block, 2051);
    assert_eq!(proof.inclusion_path, Some(path()));
    let inner = committed.note.unwrap();
    assert_eq!(inner.metadata, Some(metadata()));
    assert_eq!(inner.details, Some(encoded));
    assert_eq!(message::CommittedNote::from(note(None)).note.unwrap().details, None);
}

#[test]
fn sync_message_ignores_details() {
    let direct = message::NoteSyncRecord::from(note(None));
    let detailed = note(Some(NoteDetails::new(details().to_bytes())));
    assert_eq!(detailed.clone(), detailed);
    let record = NoteSyncRecord::from(detailed);
    assert_eq!(record.clone(), record);
    assert_eq!(record.block_num, 12);
    assert_eq!(record.note_id, word(1));
    assert_eq!(record.metadata, metadata());
    let through = message::NoteSyncRecord::from(record);
    assert_eq!(direct, through);
    assert_eq!(direct.note_index_in_block, 2051);
    assert_eq!(direct.note_id, Some(word(1)));
    assert_eq!(direct.metadata, Some(metadata()));
    assert_eq!(direct.inclusion_path, Some(path()));
}
