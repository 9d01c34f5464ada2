//! The records that the database holds, and their conversion to messages.

use crate::account;
use crate::account::{AccountId, AccountIdView, AccountType, Asset, AssetView, FungibleAsset};
use crate::account::FungibleAssetView;
use crate::message;
use crate::word;
use crate::word::{Word, FIELD_MODULUS};
use miden_protocol::block::BlockHeader;
use miden_protocol::crypto::merkle::SparseMerklePath;
use miden_protocol::note::{NoteHeader, NoteMetadata};
use miden_protocol::transaction::InputNoteCommitment;
use miden_protocol::utils::serde::{Deserializable, DeserializationError};
use vstd::prelude::*;
use vstd::std_specs::cmp::PartialEqSpec;
use vstd::std_specs::convert::FromSpec;

verus! {

// OUTSIDE TYPES
// ------------------------------------------------------------------------------------------------

/// The metadata of a note, carried as it is.
#[verifier::external_type_specification]
#[verifier::external_body]
pub struct ExNoteMetadata(NoteMetadata);

/// `NoteMetadata::clone`. Claimed: the copy is the same.
pub assume_specification[ <NoteMetadata as Clone>::clone ](metadata: &NoteMetadata) -> (copy:
    NoteMetadata)
    ensures
        copy == *metadata,
;

/// The header of a note, carried as it is.
#[verifier::external_type_specification]
#[verifier::external_body]
pub struct ExNoteHeader(NoteHeader);

/// The commitment to a consumed note, carried as it is.
#[verifier::external_type_specification]
#[verifier::external_body]
pub struct ExInputNoteCommitment(InputNoteCommitment);

/// The path from a note to the root of its block's note tree, carried as it is.
#[verifier::external_type_specification]
#[verifier::external_body]
pub struct ExSparseMerklePath(SparseMerklePath);

/// `SparseMerklePath::clone`. Claimed: the copy is the same.
pub assume_specification[ <SparseMerklePath as Clone>::clone ](path: &SparseMerklePath) -> (copy:
    SparseMerklePath)
    ensures
        copy == *path,
;

/// The header of a block, carried as it is.
#[verifier::external_type_specification]
#[verifier::external_body]
pub struct ExBlockHeader(BlockHeader);

// VAULT VALUES
// ------------------------------------------------------------------------------------------------

/// The integer that bytes in big-endian form stand for.
pub open spec fn from_big_endian(bytes: Seq<u8>) -> u64 {
    vstd::bytes::spec_u64_from_le_bytes(bytes.reverse())
}

/// The integer that bytes in little-endian form stand for.
pub open spec fn from_little_endian(bytes: Seq<u8>) -> u64 {
    vstd::bytes::spec_u64_from_le_bytes(bytes)
}

/// Whether an integer is the prefix of an account identifier: a field element of version zero that
/// names a storage mode.
pub open spec fn is_id_prefix(prefix: u64) -> bool {
    prefix < FIELD_MODULUS && prefix & 0xf == 0 && (prefix >> 6) & 3 != 3
}

/// The largest amount that a stored fungible asset can have, `2^63 - 2^31`.
pub const MAX_STORED_AMOUNT: u64 = 0x7fff_ffff_8000_0000;

/// The fungible asset that bytes stand for: the identifier of its faucet, whose last byte is left
/// out because it is zero, and the amount.
pub open spec fn stored_fungible_asset(bytes: Seq<u8>) -> Option<FungibleAssetView> {
    let prefix = from_big_endian(bytes.subrange(0, 8));
    let suffix = from_big_endian(bytes.subrange(8, 15).push(0));
    let amount = from_little_endian(bytes.subrange(15, 23));
    if bytes.len() >= 23 && suffix >> 63 == 0 && amount <= MAX_STORED_AMOUNT {
        Some(FungibleAssetView { faucet_id: AccountIdView { prefix, suffix }, amount })
    } else {
        None
    }
}

/// The non-fungible asset that bytes stand for: the prefix of its faucet's identifier, and three
/// elements of the hash of its data in reverse order.
pub open spec fn stored_non_fungible_asset(bytes: Seq<u8>) -> Option<Seq<u64>> {
    let elements = seq![
        from_little_endian(bytes.subrange(24, 32)),
        from_little_endian(bytes.subrange(16, 24)),
        from_little_endian(bytes.subrange(8, 16)),
        from_big_endian(bytes.subrange(0, 8)),
    ];
    if bytes.len() >= 32 && word::is_word(elements) {
        Some(elements)
    } else {
        None
    }
}

/// The asset that bytes stand for. Whatever follows them is ignored.
pub open spec fn stored_asset(bytes: Seq<u8>) -> Option<AssetView> {
    let prefix = from_big_endian(bytes.subrange(0, 8));
    let account_type = account::account_type_of((AccountIdView { prefix, suffix: 0 }));
    if bytes.len() < 8 || !is_id_prefix(prefix) {
        None
    } else if account_type == AccountType::FungibleFaucet {
        match stored_fungible_asset(bytes) {
            Some(asset) => Some(AssetView::Fungible(asset)),
            None => None,
        }
    } else if account_type == AccountType::NonFungibleFaucet {
        match stored_non_fungible_asset(bytes) {
            Some(asset) => Some(AssetView::NonFungible(asset)),
            None => None,
        }
    } else {
        None
    }
}

/// `miden_protocol::asset::Asset::read_from_bytes`.
///
/// Claimed: it reads the prefix of an account identifier, whose type tells which kind of asset
/// follows; then for a fungible asset the rest of the identifier and the amount, for a non-fungible
/// asset three elements of a hash. It fails exactly when bytes are missing or a part is not valid.
#[verifier::external_body]
fn read_asset(bytes: &Vec<u8>) -> (asset: Result<Asset, DeserializationError>)
    ensures
        match asset {
            Ok(a) => stored_asset(bytes@) == Some(a@),
            Err(_) => stored_asset(bytes@) is None,
        },
{
    match miden_protocol::asset::Asset::read_from_bytes(bytes)? {
        miden_protocol::asset::Asset::Fungible(asset) => {
            let (id, amount) = (asset.faucet_id(), asset.amount());
            let faucet_id = AccountId::from_parts(id.prefix().as_u64(), id.suffix().as_int());
            Ok(Asset::Fungible(FungibleAsset { faucet_id, amount }))
        },
        miden_protocol::asset::Asset::NonFungible(asset) => {
            let elements = miden_protocol::Word::from(asset).map(|felt| felt.as_int());
            Ok(Asset::NonFungible(Word::new(elements).expect("field elements")))
        },
    }
}

/// Why a row of the database cannot be read.
#[derive(Debug, Clone, Copy, PartialEq, Eq, Structural)]
pub enum RowError {
    /// The vault key is not a word.
    InvalidVaultKey,
    /// The block number is negative or too large.
    InvalidBlockNumber,
    /// The asset cannot be decoded.
    InvalidAsset,
}

/// The asset of an account under a vault key, as of a block.
///
/// If `asset` is `None`, the asset was removed.
#[derive(Debug, Clone, Copy, PartialEq, Eq, Structural)]
pub struct AccountVaultValue {
    pub block_num: u32,
    pub vault_key: Word,
    /// None if the asset was removed
    pub asset: Option<Asset>,
}

/// The plain value of an [`AccountVaultValue`].
pub struct AccountVaultValueView {
    pub block_num: u32,
    pub vault_key: Seq<u64>,
    pub asset: Option<AssetView>,
}

impl View for AccountVaultValue {
    type V = AccountVaultValueView;

    open spec fn view(&self) -> AccountVaultValueView {
        AccountVaultValueView {
            block_num: self.block_num,
            vault_key: self.vault_key@,
            asset: match self.asset {
                Some(asset) => Some(asset@),
                None => None,
            },
        }
    }
}

/// The vault value that a row stands for: its block number, its key, and its asset if there is one.
/// Of several parts that are not valid, the error names the first in the order key, block number,
/// asset.
pub open spec fn vault_value_of(
    block_num: i64,
    vault_key: Seq<u8>,
    asset: Option<Seq<u8>>,
) -> Result<AccountVaultValueView, RowError> {
    if vault_key.len() < 32 || !word::is_word(word::word_from_bytes(vault_key)) {
        Err(RowError::InvalidVaultKey)
    } else if !(0 <= block_num <= u32::MAX) {
        Err(RowError::InvalidBlockNumber)
    } else if asset matches Some(bytes) && stored_asset(bytes) is None {
        Err(RowError::InvalidAsset)
    } else {
        Ok(
            AccountVaultValueView {
                block_num: block_num as u32,
                vault_key: word::word_from_bytes(vault_key),
                asset: match asset {
                    Some(bytes) => stored_asset(bytes),
                    None => None,
                },
            },
        )
    }
}

impl AccountVaultValue {
    /// Reads a row: the block number, the vault key, and the asset unless it was removed.
    pub fn from_raw_row(row: (i64, Vec<u8>, Option<Vec<u8>>)) -> (value: Result<Self, RowError>)
        ensures
            ({
                let asset = match row.2 {
                    Some(bytes) => Some(bytes@),
                    None => None,
                };
                match value {
                    Ok(v) => vault_value_of(row.0, row.1@, asset) == Ok::<_, RowError>(v@),
                    Err(e) => vault_value_of(row.0, row.1@, asset) == Err::<
                        AccountVaultValueView,
                        _,
                    >(e),
                }
            }),
            value matches Ok(v) ==> v.block_num == row.0 && v.vault_key@ == word::word_from_bytes(
                row.1@,
            ) && (v.asset is None <==> row.2 is None),
            value is Ok && row.2 is Some ==> stored_asset(row.2->Some_0@) == Some(
                value->Ok_0.asset->Some_0@,
            ),
            value == Err::<Self, RowError>(RowError::InvalidVaultKey) <==> row.1@.len() < 32
                || !word::is_word(word::word_from_bytes(row.1@)),
            value == Err::<Self, RowError>(RowError::InvalidBlockNumber) ==> row.0 < 0 || row.0
                > 0xffff_ffff,
            value == Err::<Self, RowError>(RowError::InvalidAsset) ==> row.2 is Some
                && stored_asset(row.2->Some_0@) is None,
            row.0 < 0 || row.0 > 0xffff_ffff ==> value is Err,
            row.2 is Some && stored_asset(row.2->Some_0@) is None ==> value is Err,
    {
        let (block_num, vault_key, asset) = row;
        let vault_key = match Word::read_from_bytes(&vault_key) {
            Some(vault_key) => vault_key,
            None => {
                return Err(RowError::InvalidVaultKey);
            },
        };
        if block_num < 0 || block_num > 0xffff_ffff {
            return Err(RowError::InvalidBlockNumber);
        }
        let asset = match asset {
            Some(bytes) => match read_asset(&bytes) {
                Ok(asset) => Some(asset),
                Err(_) => {
                    return Err(RowError::InvalidAsset);
                },
            },
            None => None,
        };
        Ok(AccountVaultValue { block_num: block_num as u32, vault_key, asset })
    }
}

// NULLIFIERS
// ------------------------------------------------------------------------------------------------

/// A nullifier with the block in which it was created.
#[derive(Debug)]
pub struct NullifierInfo {
    pub nullifier: Word,
    pub block_num: u32,
}

impl PartialEq for NullifierInfo {
    fn eq(&self, other: &NullifierInfo) -> (equal: bool)
        ensures
            equal <==> *self == *other,
    {
        self.nullifier == other.nullifier && self.block_num == other.block_num
    }
}

impl vstd::std_specs::cmp::PartialEqSpecImpl for NullifierInfo {
    open spec fn obeys_eq_spec() -> bool {
        true
    }

    open spec fn eq_spec(&self, other: &NullifierInfo) -> bool {
        self.nullifier == other.nullifier && self.block_num == other.block_num
    }
}

impl PartialEq<(Word, u32)> for NullifierInfo {
    fn eq(&self, other: &(Word, u32)) -> (equal: bool)
        ensures
            equal <==> (self.nullifier, self.block_num) == *other,
    {
        self.nullifier == other.0 && self.block_num == other.1
    }
}

impl vstd::std_specs::cmp::PartialEqSpecImpl<(Word, u32)> for NullifierInfo {
    open spec fn obeys_eq_spec() -> bool {
        true
    }

    open spec fn eq_spec(&self, other: &(Word, u32)) -> bool {
        self.nullifier == other.0 && self.block_num == other.1
    }
}

// TRANSACTIONS
// ------------------------------------------------------------------------------------------------

/// A transaction that is included in a block.
#[derive(Debug, PartialEq)]
pub struct TransactionRecord {
    pub block_num: u32,
    pub transaction_id: Word,
    pub account_id: AccountId,
    pub initial_state_commitment: Word,
    pub final_state_commitment: Word,
    pub input_notes: Vec<InputNoteCommitment>,
    pub output_notes: Vec<NoteHeader>,
    pub fee: FungibleAsset,
}

impl TransactionRecord {
    /// The message for this record: every part of the transaction, and the block.
    pub fn into_proto(self) -> (record: message::TransactionRecord)
        ensures
            record == (message::TransactionRecord {
                header: Some(
                    message::TransactionHeader {
                        transaction_id: Some(self.transaction_id),
                        account_id: Some(self.account_id),
                        initial_state_commitment: Some(self.initial_state_commitment),
                        final_state_commitment: Some(self.final_state_commitment),
                        input_notes: self.input_notes,
                        output_notes: self.output_notes,
                        fee: Some(Asset::Fungible(self.fee)),
                    },
                ),
                block_num: self.block_num,
            }),
    {
        message::TransactionRecord {
            header: Some(
                message::TransactionHeader {
                    transaction_id: Some(self.transaction_id),
                    account_id: Some(self.account_id),
                    initial_state_commitment: Some(self.initial_state_commitment),
                    final_state_commitment: Some(self.final_state_commitment),
                    input_notes: self.input_notes,
                    output_notes: self.output_notes,
                    fee: Some(Asset::Fungible(self.fee)),
                },
            ),
            block_num: self.block_num,
        }
    }
}

// NOTES
// ------------------------------------------------------------------------------------------------

/// The number of batches in a block.
pub const MAX_BATCHES_PER_BLOCK: usize = 64;

/// The number of notes that a batch can create.
pub const MAX_OUTPUT_NOTES_PER_BATCH: usize = 1024;

/// The place of a note in a block: its batch, and its place in the batch.
#[derive(Debug, Clone, Copy, PartialEq, Eq, Structural)]
pub struct BlockNoteIndex {
    batch_idx: usize,
    note_idx_in_batch: usize,
}

/// The plain value of a [`BlockNoteIndex`].
pub struct BlockNoteIndexView {
    pub batch_idx: usize,
    pub note_idx_in_batch: usize,
}

impl BlockNoteIndexView {
    /// Whether there can be a note in this place.
    pub open spec fn in_block(self) -> bool {
        self.batch_idx < MAX_BATCHES_PER_BLOCK && self.note_idx_in_batch
            < MAX_OUTPUT_NOTES_PER_BATCH
    }

    /// The leaf of the block's note tree that belongs to this place.
    pub open spec fn leaf(self) -> int {
        self.batch_idx * MAX_OUTPUT_NOTES_PER_BATCH + self.note_idx_in_batch
    }
}

impl View for BlockNoteIndex {
    type V = BlockNoteIndexView;

    closed spec fn view(&self) -> BlockNoteIndexView {
        BlockNoteIndexView {
            batch_idx: self.batch_idx,
            note_idx_in_batch: self.note_idx_in_batch,
        }
    }
}

impl BlockNoteIndex {
    #[verifier::type_invariant]
    closed spec fn valid(self) -> bool {
        self@.in_block()
    }

    /// The place of a note in a block, if there can be a note.
    pub fn new(batch_idx: usize, note_idx_in_batch: usize) -> (index: Option<Self>)
        ensures
            index is Some <==> (BlockNoteIndexView { batch_idx, note_idx_in_batch }).in_block(),
            index matches Some(i) ==> i@ == (BlockNoteIndexView { batch_idx, note_idx_in_batch }),
            index is Some <==> batch_idx < 64 && note_idx_in_batch < 1024,
    {
        if batch_idx < MAX_BATCHES_PER_BLOCK && note_idx_in_batch < MAX_OUTPUT_NOTES_PER_BATCH {
            Some(BlockNoteIndex { batch_idx, note_idx_in_batch })
        } else {
            None
        }
    }

    /// The leaf of the block's note tree that belongs to this place.
    pub fn leaf_index_value(&self) -> (leaf: u16)
        ensures
            leaf == self@.leaf(),
            leaf == self@.batch_idx * 1024 + self@.note_idx_in_batch,
            leaf / 1024 == self@.batch_idx,
            leaf % 1024 == self@.note_idx_in_batch,
    {
        proof {
            use_type_invariant(self);
        }
        note_leaf(self.batch_idx, self.note_idx_in_batch)
    }
}

/// `miden_protocol::block::BlockNoteIndex::leaf_index_value`.
///
/// Claimed: the leaves of the batches follow each other, 1024 for each batch.
#[verifier::external_body]
fn note_leaf(batch_idx: usize, note_idx_in_batch: usize) -> (leaf: u16)
    requires
        batch_idx < MAX_BATCHES_PER_BLOCK,
        note_idx_in_batch < MAX_OUTPUT_NOTES_PER_BATCH,
    ensures
        leaf == batch_idx * MAX_OUTPUT_NOTES_PER_BATCH + note_idx_in_batch,
{
    let index = miden_protocol::block::BlockNoteIndex::new(batch_idx, note_idx_in_batch);
    index.expect("a note of the block").leaf_index_value()
}

/// The details of a public note, in the serialized form that the protocol gives them.
#[derive(Debug, Clone, PartialEq, Eq)]
pub struct NoteDetails {
    encoded: Vec<u8>,
}

impl View for NoteDetails {
    type V = Seq<u8>;

    closed spec fn view(&self) -> Seq<u8> {
        self.encoded@
    }
}

impl NoteDetails {
    /// Note details by their serialized form.
    pub fn new(encoded: Vec<u8>) -> (details: NoteDetails)
        ensures
            details.spec_into_bytes() == encoded,
            details@ == encoded@,
    {
        NoteDetails { encoded }
    }

    /// The serialized form.
    pub closed spec fn spec_into_bytes(self) -> Vec<u8> {
        self.encoded
    }

    /// The serialized form.
    pub fn into_bytes(self) -> (bytes: Vec<u8>)
        ensures
            bytes == self.spec_into_bytes(),
            bytes@ == self@,
    {
        self.encoded
    }
}

/// A note that is included in a block.
#[derive(Debug, Clone, PartialEq)]
pub struct NoteRecord {
    pub block_num: u32,
    pub note_index: BlockNoteIndex,
    pub note_id: Word,
    pub note_commitment: Word,
    pub metadata: NoteMetadata,
    pub details: Option<NoteDetails>,
    pub inclusion_path: SparseMerklePath,
}

/// A note that is included in a block, without its details.
#[derive(Debug, Clone, PartialEq)]
pub struct NoteSyncRecord {
    pub block_num: u32,
    pub note_index: BlockNoteIndex,
    pub note_id: Word,
    pub metadata: NoteMetadata,
    pub inclusion_path: SparseMerklePath,
}

/// The notes of a block that a client asked for, with the header of the block.
#[derive(Debug, PartialEq)]
pub struct NoteSyncUpdate {
    pub notes: Vec<NoteSyncRecord>,
    pub block_header: BlockHeader,
}

impl From<NoteRecord> for message::CommittedNote {
    fn from(note: NoteRecord) -> (message: Self)
        ensures
            message.inclusion_proof matches Some(proven) && proven.block_num == note.block_num
                && proven.note_id == Some(note.note_id) && proven.note_index_in_block
                == note.note_index@.batch_idx * 1024 + note.note_index@.note_idx_in_batch
                && proven.inclusion_path == Some(note.inclusion_path),
            message.note matches Some(inner) && inner.metadata == Some(note.metadata) && (
            inner.details is Some <==> note.details is Some) && (inner.details matches Some(bytes)
                ==> bytes@ == note.details->Some_0@),
    {
        let inclusion_proof = Some(
            message::NoteInclusionInBlockProof {
                note_id: Some(note.note_id),
                block_num: note.block_num,
                note_index_in_block: note.note_index.leaf_index_value() as u32,
                inclusion_path: Some(note.inclusion_path),
            },
        );
        let details = match note.details {
            Some(details) => Some(details.into_bytes()),
            None => None,
        };
        let note = Some(message::Note { metadata: Some(note.metadata), details });
        message::CommittedNote { inclusion_proof, note }
    }
}

impl vstd::std_specs::convert::FromSpecImpl<NoteRecord> for message::CommittedNote {
    open spec fn obeys_from_spec() -> bool {
        true
    }

    open spec fn from_spec(note: NoteRecord) -> Self {
        message::CommittedNote {
            inclusion_proof: Some(
                message::NoteInclusionInBlockProof {
                    note_id: Some(note.note_id),
                    block_num: note.block_num,
                    note_index_in_block: note.note_index@.leaf() as u32,
                    inclusion_path: Some(note.inclusion_path),
                },
            ),
            note: Some(
                message::Note {
                    metadata: Some(note.metadata),
                    details: match note.details {
                        Some(details) => Some(details.spec_into_bytes()),
                        None => None,
                    },
                },
            ),
        }
    }
}

impl From<NoteRecord> for message::NoteSyncRecord {
    fn from(note: NoteRecord) -> (message: Self)
        ensures
            message.note_index_in_block == note.note_index@.batch_idx * 1024
                + note.note_index@.note_idx_in_batch,
            message.note_id == Some(note.note_id),
            message.metadata == Some(note.metadata),
            message.inclusion_path == Some(note.inclusion_path),
    {
        message::NoteSyncRecord {
            note_index_in_block: note.note_index.leaf_index_value() as u32,
            note_id: Some(note.note_id),
            metadata: Some(note.metadata),
            inclusion_path: Some(note.inclusion_path),
        }
    }
}

impl vstd::std_specs::convert::FromSpecImpl<NoteRecord> for message::NoteSyncRecord {
    open spec fn obeys_from_spec() -> bool {
        true
    }

    open spec fn from_spec(note: NoteRecord) -> Self {
        message::NoteSyncRecord {
            note_index_in_block: note.note_index@.leaf() as u32,
            note_id: Some(note.note_id),
            metadata: Some(note.metadata),
            inclusion_path: Some(note.inclusion_path),
        }
    }
}

impl From<NoteSyncRecord> for message::NoteSyncRecord {
    fn from(note: NoteSyncRecord) -> (message: Self)
        ensures
            message.note_index_in_block == note.note_index@.batch_idx * 1024
                + note.note_index@.note_idx_in_batch,
            message.note_id == Some(note.note_id),
            message.metadata == Some(note.metadata),
            message.inclusion_path == Some(note.inclusion_path),
    {
        message::NoteSyncRecord {
            note_index_in_block: note.note_index.leaf_index_value() as u32,
            note_id: Some(note.note_id),
            metadata: Some(note.metadata),
            inclusion_path: Some(note.inclusion_path),
        }
    }
}

impl vstd::std_specs::convert::FromSpecImpl<NoteSyncRecord> for message::NoteSyncRecord {
    open spec fn obeys_from_spec() -> bool {
        true
    }

    open spec fn from_spec(note: NoteSyncRecord) -> Self {
        message::NoteSyncRecord {
            note_index_in_block: note.note_index@.leaf() as u32,
            note_id: Some(note.note_id),
            metadata: Some(note.metadata),
            inclusion_path: Some(note.inclusion_path),
        }
    }
}

impl From<NoteRecord> for NoteSyncRecord {
    fn from(note: NoteRecord) -> (record: Self)
        ensures
            record.block_num == note.block_num,
            record.note_index == note.note_index,
            record.note_id == note.note_id,
            record.metadata == note.metadata,
            record.inclusion_path == note.inclusion_path,
    {
        NoteSyncRecord {
            block_num: note.block_num,
            note_index: note.note_index,
            note_id: note.note_id,
            metadata: note.metadata,
            inclusion_path: note.inclusion_path,
        }
    }
}

impl vstd::std_specs::convert::FromSpecImpl<NoteRecord> for NoteSyncRecord {
    open spec fn obeys_from_spec() -> bool {
        true
    }

    open spec fn from_spec(note: NoteRecord) -> Self {
        NoteSyncRecord {
            block_num: note.block_num,
            note_index: note.note_index,
            note_id: note.note_id,
            metadata: note.metadata,
            inclusion_path: note.inclusion_path,
        }
    }
}

// LAWS
// ------------------------------------------------------------------------------------------------

/// A note gives the same synchronization message whether its details are dropped first or not.
pub proof fn law_sync_message_ignores_details(note: NoteRecord)
    ensures
        <message::NoteSyncRecord as FromSpec<NoteSyncRecord>>::from_spec(
            <NoteSyncRecord as FromSpec<NoteRecord>>::from_spec(note),
        ) == <message::NoteSyncRecord as FromSpec<NoteRecord>>::from_spec(note),
{
}

/// The two messages for a note agree on what they both tell of it.
pub proof fn law_messages_agree(note: NoteRecord)
    ensures
        ({
            let committed = <message::CommittedNote as FromSpec<NoteRecord>>::from_spec(note);
            let sync = <message::NoteSyncRecord as FromSpec<NoteRecord>>::from_spec(note);
            &&& committed.inclusion_proof matches Some(proof) && proof.note_id == sync.note_id
                && proof.note_index_in_block == sync.note_index_in_block && proof.inclusion_path
                == sync.inclusion_path
            &&& committed.note matches Some(inner) && inner.metadata == sync.metadata
        }),
{
}

/// The message for a committed note tells each part of its record: the block, the identifier, the
/// leaf that belongs to its place, and the path in the proof; the metadata and the details, if there
/// are any, in the note.
pub proof fn law_committed_note_tells_the_record(note: NoteRecord)
    requires
        note.note_index@.batch_idx < 64,
        note.note_index@.note_idx_in_batch < 1024,
    ensures
        ({
            let committed = <message::CommittedNote as FromSpec<NoteRecord>>::from_spec(note);
            &&& committed.inclusion_proof matches Some(proven)
            &&& committed.note matches Some(inner)
            &&& proven.block_num == note.block_num
            &&& proven.note_id == Some(note.note_id)
            &&& proven.note_index_in_block as int / 1024 == note.note_index@.batch_idx
            &&& proven.note_index_in_block as int % 1024 == note.note_index@.note_idx_in_batch
            &&& proven.inclusion_path == Some(note.inclusion_path)
            &&& inner.metadata == Some(note.metadata)
            &&& match note.details {
                Some(details) => inner.details matches Some(bytes) && bytes@ == details@,
                None => inner.details is None,
            }
        }),
{
}

/// Two records with the same message for a committed note differ at most in the commitment to the
/// note: nothing else that is recorded of a note is lost or changed on the way.
pub proof fn law_committed_notes_differ(a: NoteRecord, b: NoteRecord)
    requires
        a.note_index@.in_block(),
        b.note_index@.in_block(),
        <message::CommittedNote as FromSpec<NoteRecord>>::from_spec(a)
            == <message::CommittedNote as FromSpec<NoteRecord>>::from_spec(b),
    ensures
        a.block_num == b.block_num,
        a.note_index == b.note_index,
        a.note_id == b.note_id,
        a.metadata == b.metadata,
        a.details == b.details,
        a.inclusion_path == b.inclusion_path,
{
    law_committed_note_tells_the_record(a);
    law_committed_note_tells_the_record(b);
    let of_a = <message::CommittedNote as FromSpec<NoteRecord>>::from_spec(a);
    let of_b = <message::CommittedNote as FromSpec<NoteRecord>>::from_spec(b);
    assert(of_a.note->Some_0.details == of_b.note->Some_0.details);
    assert(a.note_index.batch_idx == b.note_index.batch_idx);
    assert(a.note_index.note_idx_in_batch == b.note_index.note_idx_in_batch);
}

/// The synchronization message for a note tells its place, identifier, metadata and path, with or
/// without its details.
pub proof fn law_sync_message_tells_the_record(note: NoteRecord)
    requires
        note.note_index@.batch_idx < 64,
        note.note_index@.note_idx_in_batch < 1024,
    ensures
        ({
            let sync = <message::NoteSyncRecord as FromSpec<NoteRecord>>::from_spec(note);
            &&& sync.note_index_in_block as int / 1024 == note.note_index@.batch_idx
            &&& sync.note_index_in_block as int % 1024 == note.note_index@.note_idx_in_batch
            &&& sync.note_id == Some(note.note_id)
            &&& sync.metadata == Some(note.metadata)
            &&& sync.inclusion_path == Some(note.inclusion_path)
        }),
        ({
            let record = <NoteSyncRecord as FromSpec<NoteRecord>>::from_spec(note);
            &&& record.block_num == note.block_num
            &&& record.note_index == note.note_index
            &&& record.note_id == note.note_id
            &&& record.metadata == note.metadata
            &&& record.inclusion_path == note.inclusion_path
        }),
{
}

/// The synchronization message for a record without details tells the place, identifier, metadata
/// and path of that record.
pub proof fn law_sync_message_tells_the_sync_record(note: NoteSyncRecord)
    requires
        note.note_index@.batch_idx < 64,
        note.note_index@.note_idx_in_batch < 1024,
    ensures
        ({
            let sync = <message::NoteSyncRecord as FromSpec<NoteSyncRecord>>::from_spec(note);
            &&& sync.note_index_in_block as int / 1024 == note.note_index@.batch_idx
            &&& sync.note_index_in_block as int % 1024 == note.note_index@.note_idx_in_batch
            &&& sync.note_id == Some(note.note_id)
            &&& sync.metadata == Some(note.metadata)
            &&& sync.inclusion_path == Some(note.inclusion_path)
        }),
{
}

/// A nullifier is equal to another one, or to a pair, exactly if both the nullifier and the block are
/// the same.
pub proof fn law_nullifiers_are_equal_by_both_parts(a: NullifierInfo, b: NullifierInfo)
    ensures
        a.eq_spec(&b) <==> a.nullifier == b.nullifier && a.block_num == b.block_num,
        a.eq_spec(&(b.nullifier, b.block_num)) <==> a.eq_spec(&b),
{
}

/// Notes in different places of a block belong to different leaves, and every leaf fits in 16 bits.
pub proof fn law_leaves_are_distinct(a: BlockNoteIndexView, b: BlockNoteIndexView)
    requires
        a.in_block(),
        b.in_block(),
    ensures
        a.leaf() == b.leaf() ==> a == b,
        0 <= a.leaf() <= u16::MAX,
{
}

/// The leaves are in the order of the batches, and within a batch in the order of its notes. A block
/// has room for 64 batches of 1024 notes each, whose leaves are all the numbers of 16 bits.
pub proof fn law_leaves_are_in_order(a: BlockNoteIndexView, b: BlockNoteIndexView, leaf: u16)
    requires
        a.in_block(),
        b.in_block(),
    ensures
        a.batch_idx < b.batch_idx ==> a.leaf() < b.leaf(),
        a.batch_idx == b.batch_idx ==> b.leaf() - a.leaf() == b.note_idx_in_batch
            - a.note_idx_in_batch,
        ({
            let place = BlockNoteIndexView {
                batch_idx: (leaf / 1024) as usize,
                note_idx_in_batch: (leaf % 1024) as usize,
            };
            place.in_block() && place.leaf() == leaf
        }),
{
}

/// The bytes of an account identifier and an amount are read back as the fungible asset that they
/// were written for, whatever follows them.
pub proof fn law_fungible_asset_reads_back(asset: FungibleAssetView, rest: Seq<u8>)
    requires
        account::is_account_id(asset.faucet_id),
        account::is_fungible_asset(asset),
        asset.faucet_id.suffix >> 63 == 0,
        asset.amount <= MAX_STORED_AMOUNT,
    ensures
        stored_asset(
            account::account_id_encoding(asset.faucet_id) + vstd::bytes::spec_u64_to_le_bytes(
                asset.amount,
            ) + rest,
        ) == Some(AssetView::Fungible(asset)),
{
    vstd::bytes::lemma_auto_spec_u64_to_from_le_bytes();
    let prefix = asset.faucet_id.prefix;
    let suffix = asset.faucet_id.suffix;
    let bytes = account::account_id_encoding(asset.faucet_id) + vstd::bytes::spec_u64_to_le_bytes(
        asset.amount,
    ) + rest;
    assert(bytes.subrange(0, 8).reverse() =~= vstd::bytes::spec_u64_to_le_bytes(prefix));
    vstd::bytes::spec_u64_to_le_bytes_to_open(suffix);
    assert(bytes.subrange(8, 15).push(0).reverse() =~= vstd::bytes::spec_u64_to_le_bytes(suffix));
    assert(bytes.subrange(15, 23) =~= vstd::bytes::spec_u64_to_le_bytes(asset.amount));
}

/// The bytes of a faucet's prefix and of three further elements are read back as the non-fungible
/// asset that they were written for, whatever follows them.
pub proof fn law_non_fungible_asset_reads_back(elements: Seq<u64>, rest: Seq<u8>)
    requires
        word::is_word(elements),
        elements[3] & 0xf == 0,
        (elements[3] >> 4) & 3 == 3,
        (elements[3] >> 6) & 3 != 3,
    ensures
        stored_asset(
            vstd::bytes::spec_u64_to_le_bytes(elements[3]).reverse()
                + vstd::bytes::spec_u64_to_le_bytes(elements[2])
                + vstd::bytes::spec_u64_to_le_bytes(elements[1])
                + vstd::bytes::spec_u64_to_le_bytes(elements[0]) + rest,
        ) == Some(AssetView::NonFungible(elements)),
{
    vstd::bytes::lemma_auto_spec_u64_to_from_le_bytes();
    let bytes = vstd::bytes::spec_u64_to_le_bytes(elements[3]).reverse()
        + vstd::bytes::spec_u64_to_le_bytes(elements[2]) + vstd::bytes::spec_u64_to_le_bytes(
        elements[1],
    ) + vstd::bytes::spec_u64_to_le_bytes(elements[0]) + rest;
    assert(bytes.subrange(0, 8).reverse() =~= vstd::bytes::spec_u64_to_le_bytes(elements[3]));
    assert(bytes.subrange(8, 16) =~= vstd::bytes::spec_u64_to_le_bytes(elements[2]));
    assert(bytes.subrange(16, 24) =~= vstd::bytes::spec_u64_to_le_bytes(elements[1]));
    assert(bytes.subrange(24, 32) =~= vstd::bytes::spec_u64_to_le_bytes(elements[0]));
    let read = seq![
        from_little_endian(bytes.subrange(24, 32)),
        from_little_endian(bytes.subrange(16, 24)),
        from_little_endian(bytes.subrange(8, 16)),
        from_big_endian(bytes.subrange(0, 8)),
    ];
    assert(read =~= elements);
}

/// A row that was written for a vault value is read back as that value: with the same block number,
/// the same key, and the same fungible asset, or none if it was removed.
pub proof fn law_vault_row_reads_back(
    block_num: u32,
    vault_key: Seq<u64>,
    asset: Option<FungibleAssetView>,
)
    requires
        word::is_word(vault_key),
        asset matches Some(a) ==> account::is_account_id(a.faucet_id) && account::is_fungible_asset(
            a,
        ) && a.faucet_id.suffix >> 63 == 0 && a.amount <= 0x7fff_ffff_8000_0000,
    ensures
        ({
            let row = vault_value_of(
                block_num as i64,
                word::word_to_bytes(vault_key),
                match asset {
                    Some(a) => Some(
                        account::account_id_encoding(a.faucet_id)
                            + vstd::bytes::spec_u64_to_le_bytes(a.amount),
                    ),
                    None => None,
                },
            );
            &&& row matches Ok(value)
            &&& value.block_num == block_num
            &&& value.vault_key == vault_key
            &&& value.asset == (match asset {
                Some(a) => Some(AssetView::Fungible(a)),
                None => None,
            })
        }),
{
    word::law_word_round_trip(vault_key, Seq::empty());
    assert(word::word_to_bytes(vault_key) + Seq::empty() =~= word::word_to_bytes(vault_key));
    match asset {
        Some(a) => {
            law_fungible_asset_reads_back(a, Seq::empty());
            let bytes = account::account_id_encoding(a.faucet_id)
                + vstd::bytes::spec_u64_to_le_bytes(a.amount);
            assert(bytes + Seq::empty() =~= bytes);
        },
        None => {},
    }
}

/// A row is refused exactly if its key is not a word, its block number is not one of 32 bits, or it
/// has bytes that are no asset; what is read has the block number of the row.
pub proof fn law_vault_row_is_read_as_it_is(
    block_num: i64,
    vault_key: Seq<u8>,
    asset: Option<Seq<u8>>,
)
    ensures
        vault_value_of(block_num, vault_key, asset) is Ok <==> vault_key.len() >= 32
            && word::is_word(word::word_from_bytes(vault_key)) && 0 <= block_num <= 0xffff_ffff && (
        asset is None || stored_asset(asset->Some_0) is Some),
        vault_value_of(block_num, vault_key, asset) matches Ok(value) ==> value.block_num
            == block_num && (value.asset is None <==> asset is None),
        vault_value_of(block_num, vault_key, asset) is Ok ==> (vault_value_of(
            block_num,
            vault_key,
            None,
        ) matches Ok(value) && value.vault_key == vault_value_of(
            block_num,
            vault_key,
            asset,
        )->Ok_0.vault_key),
{
}

/// The message that [`TransactionRecord::into_proto`] gives for a record tells each part of the
/// record: the block, and in the header the identifiers of the transaction and of the account, the
/// state of the account before and after it, the notes that it consumes and creates, and its fee.
pub proof fn law_transaction_message_tells_the_record(
    record: TransactionRecord,
    message: message::TransactionRecord,
)
    requires
        call_ensures(TransactionRecord::into_proto, (record,), message),
    ensures
        message.block_num == record.block_num,
        message.header is Some,
        ({
            let header = message.header->Some_0;
            &&& header.transaction_id == Some(record.transaction_id)
            &&& header.account_id == Some(record.account_id)
            &&& header.initial_state_commitment == Some(record.initial_state_commitment)
            &&& header.final_state_commitment == Some(record.final_state_commitment)
            &&& header.input_notes@ == record.input_notes@
            &&& header.output_notes@ == record.output_notes@
            &&& header.fee == Some(Asset::Fungible(record.fee))
        }),
{
}

} // verus!
