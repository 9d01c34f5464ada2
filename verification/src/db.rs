//! The store's database: what is asked of it, in which terms.

use crate::account::AccountId;
use crate::analysis;
use crate::analysis::{SizeAttribute, TableSize};
use crate::lifecycle::{BlockApplication, LoadStep, SetupStep};
use crate::lifecycle;
use crate::storage_map;
use crate::storage_map::{BlockRange, StorageMapQuery, StorageMapReconstruction};
use crate::storage_map::StorageMapReconstructionView;
use crate::word::Word;
use crate::word_set::WordSet;
use vstd::prelude::*;

verus! {

/// A part of a longer list: where it starts, and how many items it has.
#[derive(Debug, Clone, Copy, PartialEq, Eq, Structural)]
pub struct Page {
    pub token: Option<u64>,
    pub size: usize,
}

/// A query to the database.
#[derive(Debug)]
#[allow(inconsistent_fields)]
pub enum Query {
    /// The nullifiers after a given one.
    NullifiersPaged { page_size: usize, after_nullifier: Option<Word> },
    /// The nullifiers that start with one of the prefixes, created in a range of blocks.
    NullifiersByPrefix { prefix_len: u8, nullifier_prefixes: Vec<u16>, block_range: BlockRange },
    /// The header of a block, or else of the latest block.
    BlockHeaderByBlockNum { maybe_block_number: Option<u32> },
    /// The headers of some blocks.
    BlockHeaders { blocks: Vec<u32> },
    /// The headers of all blocks.
    AllBlockHeaders,
    /// The commitments to the headers of all blocks.
    AllBlockHeaderCommitments,
    /// The commitments to the accounts after a given one.
    AccountCommitmentsPaged { page_size: usize, after_account_id: Option<AccountId> },
    /// The public accounts after a given one.
    PublicAccountIdsPaged { page_size: usize, after_account_id: Option<AccountId> },
    /// The public details of an account.
    Account { id: AccountId },
    /// The public details of a network account.
    NetworkAccountById { account_id: AccountId },
    /// The network accounts that were created in a range of blocks.
    AllNetworkAccountIds { block_range: BlockRange },
    /// The assets of an account as of a block.
    AccountVaultAtBlock { account_id: AccountId, block_num: u32 },
    /// The code with a commitment.
    AccountCodeByCommitment { code_commitment: Word },
    /// The header of an account and the header of its storage as of a block.
    AccountHeaderWithStorageHeaderAtBlock { account_id: AccountId, block_num: u32 },
    /// The notes with one of the tags in a range of blocks.
    NoteSync { note_tags: Vec<u32>, block_range: BlockRange },
    /// Some notes.
    NotesById { note_ids: Vec<Word> },
    /// Those of the note commitments that exist.
    ExistingNoteCommitments { note_commitments: Vec<Word> },
    /// The inclusion proofs of the notes with some commitments.
    NoteInclusionProofs { note_commitments: WordSet },
    /// The changes to the storage maps of an account.
    AccountStorageMapValuesPaged(StorageMapQuery),
    /// The notes for a network account that are not consumed as of a block.
    UnconsumedNetworkNotesByAccountId { account_id: AccountId, block_num: u32, page: Page },
    /// The changes to the assets of an account in a range of blocks.
    AccountVaultAssets { account_id: AccountId, block_range: BlockRange },
    /// The script with a root.
    NoteScriptByRoot { root: Word },
    /// The transactions of some accounts in a range of blocks.
    TransactionsRecords { account_ids: Vec<AccountId>, block_range: BlockRange },
}

/// A query with the label of the transaction in which it is made.
#[derive(Debug)]
pub struct Request {
    pub label: &'static str,
    pub query: Query,
}

/// The store's database, by the limits that its answers have to keep.
#[derive(Debug, Clone, Copy, PartialEq, Eq, Structural)]
pub struct Db {
    /// The number of bytes that a response may have.
    pub max_response_payload_bytes: usize,
    /// The number of storage map entries that may be told at once.
    pub max_return_entries: usize,
}

/// The number of bits by which nullifiers can be searched.
pub const NULLIFIER_PREFIX_LEN: u32 = 16;

/// The lowest 16 bits of each prefix.
pub open spec fn short_prefixes(prefixes: Seq<u32>) -> Seq<u16> {
    prefixes.map_values(|prefix: u32| (prefix % 0x1_0000) as u16)
}

impl Db {
    // PROCEDURES
    // --------------------------------------------------------------------------------------------

    /// Starts to set up a new database with the genesis block.
    pub fn bootstrap() -> (step: SetupStep)
        ensures
            step == lifecycle::setup_steps()[0],
            step == SetupStep::ReadPath,
    {
        SetupStep::first()
    }

    /// Starts to open an existing database.
    pub fn load() -> (step: LoadStep)
        ensures
            step == LoadStep::Connect,
    {
        LoadStep::first()
    }

    /// Starts to extend the database by a block.
    pub fn apply_block(&self, block_num: u32) -> (application: BlockApplication)
        ensures
            application == (BlockApplication { block_num }),
    {
        BlockApplication { block_num }
    }

    /// The number of storage map values that are asked for at once.
    pub open spec fn entries_limit(self, entries_limit: Option<usize>) -> int {
        match entries_limit {
            Some(limit) => limit as int,
            None => self.max_response_payload_bytes as int
                / storage_map::STORAGE_MAP_VALUE_PER_ROW_BYTES as int,
        }
    }

    /// The number of storage map entries that may be told: as many as the caller takes, and never more
    /// than may be told at once.
    pub open spec fn max_entries(self, entries_limit: Option<usize>) -> usize {
        match entries_limit {
            Some(limit) if limit < self.max_return_entries => limit,
            _ => self.max_return_entries,
        }
    }

    /// Starts to reconstruct the storage map in a slot of an account, as of a block. If the caller
    /// gives a limit, no more values are asked for at once, and no more entries are told.
    pub fn reconstruct_storage_map_from_db(
        &self,
        account_id: AccountId,
        slot_name: String,
        block_num: u32,
        entries_limit: Option<usize>,
    ) -> (state: StorageMapReconstruction)
        ensures
            state@ == (StorageMapReconstructionView {
                account_id: account_id@,
                slot_name: slot_name@,
                block_num,
                entries_limit: self.entries_limit(entries_limit) as usize,
                max_entries: self.max_entries(entries_limit),
                last_block_included: None,
                values: Seq::empty(),
            }),
            entries_limit matches Some(limit) ==> state@.entries_limit == limit
                && state@.max_entries <= limit,
            entries_limit is None ==> state@.entries_limit * 69 <= self.max_response_payload_bytes
                < (state@.entries_limit + 1) * 69,
            state@.max_entries <= self.max_return_entries,
            state@.max_entries == self.max_return_entries || entries_limit == Some(
                state@.max_entries,
            ),
    {
        let max_entries: usize = match entries_limit {
            Some(limit) if limit < self.max_return_entries => limit,
            _ => self.max_return_entries,
        };
        let entries_limit: usize = match entries_limit {
            Some(limit) => limit,
            None => storage_map::default_storage_map_entries_limit(self.max_response_payload_bytes),
        };
        StorageMapReconstruction::new(
            account_id,
            slot_name,
            block_num,
            entries_limit,
            max_entries,
        )
    }

    /// The request for the page that a reconstruction needs next.
    pub fn next_storage_map_page(&self, state: &StorageMapReconstruction) -> (request: Request)
        ensures
            request.label@ == "select storage map sync values"@,
            request.query matches Query::AccountStorageMapValuesPaged(query) && query.account_id@
                == state@.account_id && query.block_range.start == state@.first_block()
                && query.block_range.end == state@.block_num && query.entries_limit
                == state@.entries_limit && query.block_range.start == (
            match state@.last_block_included {
                Some(last) => last + 1,
                None => 0int,
            }),
    {
        let query = state.query();
        self.select_storage_map_sync_values(
            query.account_id,
            query.block_range,
            Some(query.entries_limit),
        )
    }

    /// The size metrics of the database: those of the tables, then that of the entire database unless
    /// it could not be determined.
    pub fn analyze_table_sizes(&self, tables: &Vec<TableSize>, total: Option<i64>) -> (attributes:
        Vec<SizeAttribute>)
        ensures
            attributes@.len() == tables@.len() + (if total is Some {
                1int
            } else {
                0
            }),
            forall|k: int|
                0 <= k < tables@.len() ==> (#[trigger] attributes@[k]).name@
                    == analysis::table_attribute_name(tables@[k].name@) && attributes@[k].size
                    == tables@[k].size && attributes@[k].name@ == "database.table."@
                    + tables@[k].name@ + ".size"@,
            total matches Some(size) ==> attributes@.last().name@ == "database.total.size"@
                && attributes@.last().size == size,
    {
        let mut attributes = analysis::table_size_attributes(tables);
        if let Some(size) = total {
            attributes.push(analysis::total_size_attribute(size));
        }
        attributes
    }

    // QUERIES
    // --------------------------------------------------------------------------------------------

    /// The changes to the storage maps of an account in a range of blocks. Without a limit, as many
    /// are asked for as a response has room for.
    pub fn select_storage_map_sync_values(
        &self,
        account_id: AccountId,
        block_range: BlockRange,
        entries_limit: Option<usize>,
    ) -> (request: Request)
        ensures
            request.label@ == "select storage map sync values"@,
            request.query == Query::AccountStorageMapValuesPaged(
                StorageMapQuery {
                    account_id,
                    block_range,
                    entries_limit: self.entries_limit(entries_limit) as usize,
                },
            ),
            request.query matches Query::AccountStorageMapValuesPaged(query)
                && query.account_id == account_id && query.block_range == block_range && (
            match entries_limit {
                Some(limit) => query.entries_limit == limit,
                None => query.entries_limit * 69 <= self.max_response_payload_bytes < (
                query.entries_limit + 1) * 69,
            }),
    {
        let entries_limit: usize = match entries_limit {
            Some(limit) => limit,
            None => storage_map::default_storage_map_entries_limit(self.max_response_payload_bytes),
        };
        Request {
            label: "select storage map sync values",
            query: Query::AccountStorageMapValuesPaged(
                StorageMapQuery { account_id, block_range, entries_limit },
            ),
        }
    }

    /// The nullifiers that start with one of the prefixes, created in a range of blocks. Of each
    /// prefix the lowest 16 bits count. No other length of prefixes is supported.
    pub fn select_nullifiers_by_prefix(
        &self,
        prefix_len: u32,
        nullifier_prefixes: Vec<u32>,
        block_range: BlockRange,
    ) -> (request: Request)
        requires
            prefix_len == NULLIFIER_PREFIX_LEN,
        ensures
            request.label@ == "nullifieres by prefix"@,
            request.query matches Query::NullifiersByPrefix {
                prefix_len: len,
                nullifier_prefixes: prefixes,
                block_range: range,
            } && len == prefix_len && prefixes@ == short_prefixes(nullifier_prefixes@) && range
                == block_range,
            request.query matches Query::NullifiersByPrefix {
                prefix_len: len,
                nullifier_prefixes: prefixes,
                block_range: range,
            } && len == 16 && range == block_range && prefixes@.len() == nullifier_prefixes@.len()
                && forall|i: int|
                0 <= i < prefixes@.len() ==> #[trigger] prefixes@[i] as int
                    == nullifier_prefixes@[i] as int % 65536,
    {
        let mut prefixes: Vec<u16> = Vec::new();
        for i in 0..nullifier_prefixes.len()
            invariant
                prefixes@ == short_prefixes(nullifier_prefixes@).take(i as int),
        {
            let prefix: u32 = nullifier_prefixes[i];
            assert(prefix as u16 == prefix % 0x1_0000) by (bit_vector);
            prefixes.push(
                #[verifier::truncate]
                (prefix as u16),
            );
            assert(prefixes@ =~= short_prefixes(nullifier_prefixes@).take(i + 1));
        }
        assert(prefixes@ =~= short_prefixes(nullifier_prefixes@));
        Request {
            label: "nullifieres by prefix",
            query: Query::NullifiersByPrefix {
                prefix_len: prefix_len as u8,
                nullifier_prefixes: prefixes,
                block_range,
            },
        }
    }

    /// A page of nullifiers, for rebuilding the nullifier tree.
    pub fn select_nullifiers_paged(
        &self,
        page_size: usize,
        after_nullifier: Option<Word>,
    ) -> (request: Request)
        requires
            page_size > 0,
        ensures
            request.label@ == "read nullifiers paged"@,
            request.query == (Query::NullifiersPaged { page_size, after_nullifier }),
    {
        Request {
            label: "read nullifiers paged",
            query: Query::NullifiersPaged { page_size, after_nullifier },
        }
    }

    /// The header of a block. Without a block number, that of the latest block.
    pub fn select_block_header_by_block_num(
        &self,
        maybe_block_number: Option<u32>,
    ) -> (request: Request)
        ensures
            request.label@ == "block headers by block number"@,
            request.query == (Query::BlockHeaderByBlockNum { maybe_block_number }),
    {
        Request {
            label: "block headers by block number",
            query: Query::BlockHeaderByBlockNum { maybe_block_number },
        }
    }

    /// The headers of some blocks.
    pub fn select_block_headers(
        &self,
        blocks: Vec<u32>,
    ) -> (request: Request)
        ensures
            request.label@ == "block headers from given block numbers"@,
            request.query == (Query::BlockHeaders { blocks }),
    {
        Request {
            label: "block headers from given block numbers",
            query: Query::BlockHeaders { blocks },
        }
    }

    /// The headers of all blocks.
    pub fn select_all_block_headers(&self) -> (request: Request)
        ensures
            request.label@ == "all block headers"@,
            request.query == Query::AllBlockHeaders,
    {
        Request { label: "all block headers", query: Query::AllBlockHeaders }
    }

    /// The commitments to the headers of all blocks.
    pub fn select_all_block_header_commitments(&self) -> (request: Request)
        ensures
            request.label@ == "all block headers"@,
            request.query == Query::AllBlockHeaderCommitments,
    {
        Request { label: "all block headers", query: Query::AllBlockHeaderCommitments }
    }

    /// A page of account commitments, for rebuilding the account tree.
    pub fn select_account_commitments_paged(
        &self,
        page_size: usize,
        after_account_id: Option<AccountId>,
    ) -> (request: Request)
        requires
            page_size > 0,
        ensures
            request.label@ == "read account commitments paged"@,
            request.query == (Query::AccountCommitmentsPaged { page_size, after_account_id }),
    {
        Request {
            label: "read account commitments paged",
            query: Query::AccountCommitmentsPaged { page_size, after_account_id },
        }
    }

    /// A page of public accounts, for rebuilding the account state forest.
    pub fn select_public_account_ids_paged(
        &self,
        page_size: usize,
        after_account_id: Option<AccountId>,
    ) -> (request: Request)
        requires
            page_size > 0,
        ensures
            request.label@ == "read public account IDs paged"@,
            request.query == (Query::PublicAccountIdsPaged { page_size, after_account_id }),
    {
        Request {
            label: "read public account IDs paged",
            query: Query::PublicAccountIdsPaged { page_size, after_account_id },
        }
    }

    /// The public details of an account.
    pub fn select_account(
        &self,
        id: AccountId,
    ) -> (request: Request)
        ensures
            request.label@ == "Get account details"@,
            request.query == (Query::Account { id }),
    {
        Request { label: "Get account details", query: Query::Account { id } }
    }

    /// The public details of a network account.
    pub fn select_network_account_by_id(
        &self,
        account_id: AccountId,
    ) -> (request: Request)
        ensures
            request.label@ == "Get network account by id"@,
            request.query == (Query::NetworkAccountById { account_id }),
    {
        Request {
            label: "Get network account by id",
            query: Query::NetworkAccountById { account_id },
        }
    }

    /// The network accounts that were created in a range of blocks.
    pub fn select_all_network_account_ids(
        &self,
        block_range: BlockRange,
    ) -> (request: Request)
        ensures
            request.label@ == "Get all network account IDs"@,
            request.query == (Query::AllNetworkAccountIds { block_range }),
    {
        Request {
            label: "Get all network account IDs",
            query: Query::AllNetworkAccountIds { block_range },
        }
    }

    /// The assets of an account as of a block.
    pub fn select_account_vault_at_block(
        &self,
        account_id: AccountId,
        block_num: u32,
    ) -> (request: Request)
        ensures
            request.label@ == "Get account vault at block"@,
            request.query == (Query::AccountVaultAtBlock { account_id, block_num }),
    {
        Request {
            label: "Get account vault at block",
            query: Query::AccountVaultAtBlock { account_id, block_num },
        }
    }

    /// The account code with a commitment.
    pub fn select_account_code_by_commitment(
        &self,
        code_commitment: Word,
    ) -> (request: Request)
        ensures
            request.label@ == "Get account code by commitment"@,
            request.query == (Query::AccountCodeByCommitment { code_commitment }),
    {
        Request {
            label: "Get account code by commitment",
            query: Query::AccountCodeByCommitment { code_commitment },
        }
    }

    /// The header of an account and the header of its storage as of a block, in a single query.
    pub fn select_account_header_with_storage_header_at_block(
        &self,
        account_id: AccountId,
        block_num: u32,
    ) -> (request: Request)
        ensures
            request.label@ == "Get account header with storage header at block"@,
            request.query == (Query::AccountHeaderWithStorageHeaderAtBlock {
                account_id,
                block_num,
            }),
    {
        Request {
            label: "Get account header with storage header at block",
            query: Query::AccountHeaderWithStorageHeaderAtBlock { account_id, block_num },
        }
    }

    /// The notes with one of the tags in a range of blocks.
    pub fn get_note_sync(
        &self,
        block_range: BlockRange,
        note_tags: Vec<u32>,
    ) -> (request: Request)
        ensures
            request.label@ == "notes sync task"@,
            request.query == (Query::NoteSync { note_tags, block_range }),
    {
        Request { label: "notes sync task", query: Query::NoteSync { note_tags, block_range } }
    }

    /// The notes with some identifiers.
    pub fn select_notes_by_id(
        &self,
        note_ids: Vec<Word>,
    ) -> (request: Request)
        ensures
            request.label@ == "note by id"@,
            request.query == (Query::NotesById { note_ids }),
    {
        Request { label: "note by id", query: Query::NotesById { note_ids } }
    }

    /// Those of the note commitments that exist.
    pub fn select_existing_note_commitments(
        &self,
        note_commitments: Vec<Word>,
    ) -> (request: Request)
        ensures
            request.label@ == "note by commitment"@,
            request.query == (Query::ExistingNoteCommitments { note_commitments }),
    {
        Request {
            label: "note by commitment",
            query: Query::ExistingNoteCommitments { note_commitments },
        }
    }

    /// The inclusion proofs of the notes with some commitments.
    pub fn select_note_inclusion_proofs(
        &self,
        note_commitments: WordSet,
    ) -> (request: Request)
        ensures
            request.label@ == "block note inclusion proofs by commitment"@,
            request.query == (Query::NoteInclusionProofs { note_commitments }),
    {
        Request {
            label: "block note inclusion proofs by commitment",
            query: Query::NoteInclusionProofs { note_commitments },
        }
    }

    /// The notes for a network account that are not consumed as of a block.
    pub fn select_unconsumed_network_notes(
        &self,
        account_id: AccountId,
        block_num: u32,
        page: Page,
    ) -> (request: Request)
        ensures
            request.label@ == "unconsumed network notes for account"@,
            request.query == (Query::UnconsumedNetworkNotesByAccountId {
                account_id,
                block_num,
                page,
            }),
    {
        Request {
            label: "unconsumed network notes for account",
            query: Query::UnconsumedNetworkNotesByAccountId { account_id, block_num, page },
        }
    }

    /// The changes to the assets of an account in a range of blocks.
    pub fn get_account_vault_sync(
        &self,
        account_id: AccountId,
        block_range: BlockRange,
    ) -> (request: Request)
        ensures
            request.label@ == "account vault sync"@,
            request.query == (Query::AccountVaultAssets { account_id, block_range }),
    {
        Request {
            label: "account vault sync",
            query: Query::AccountVaultAssets { account_id, block_range },
        }
    }

    /// The note script with a root.
    pub fn select_note_script_by_root(
        &self,
        root: Word,
    ) -> (request: Request)
        ensures
            request.label@ == "note script by root"@,
            request.query == (Query::NoteScriptByRoot { root }),
    {
        Request { label: "note script by root", query: Query::NoteScriptByRoot { root } }
    }

    /// The transactions of some accounts in a range of blocks.
    pub fn select_transactions_records(
        &self,
        account_ids: Vec<AccountId>,
        block_range: BlockRange,
    ) -> (request: Request)
        ensures
            request.label@ == "full transactions records"@,
            request.query == (Query::TransactionsRecords { account_ids, block_range }),
    {
        Request {
            label: "full transactions records",
            query: Query::TransactionsRecords { account_ids, block_range },
        }
    }
}

// LAWS
// ------------------------------------------------------------------------------------------------

/// As many prefixes are asked for as were given, in the same order. Each of them differs from the
/// given one by a multiple of `2^16`, so that a prefix that fits in 16 bits is asked for as it is,
/// and two prefixes are asked for alike exactly if they agree in their lowest 16 bits.
pub proof fn law_prefixes_are_asked_for(prefixes: Seq<u32>)
    ensures
        short_prefixes(prefixes).len() == prefixes.len(),
        forall|i: int|
            #![trigger prefixes[i]]
            #![trigger short_prefixes(prefixes)[i]]
            0 <= i < prefixes.len() ==> {
                &&& short_prefixes(prefixes)[i] as int == prefixes[i] as int % 65536
                &&& (prefixes[i] as int - short_prefixes(prefixes)[i] as int) % 65536 == 0
                &&& prefixes[i] < 65536 ==> short_prefixes(prefixes)[i] as int == prefixes[i] as int
            },
        forall|i: int, j: int|
            #![trigger prefixes[i], prefixes[j]]
            0 <= i < prefixes.len() && 0 <= j < prefixes.len() ==> (short_prefixes(prefixes)[i]
                == short_prefixes(prefixes)[j] <==> (prefixes[i] as int - prefixes[j] as int) % 65536
                == 0),
{
}

/// A limit that the caller gives is the number of values that are asked for at once, whatever a
/// response has room for. Without one, they are as many as fit in a response at 69 bytes each, and
/// one more would not fit.
pub proof fn law_values_asked_for_fit(db: Db, entries_limit: Option<usize>)
    ensures
        entries_limit matches Some(limit) ==> db.entries_limit(entries_limit) == limit,
        entries_limit is None ==> db.entries_limit(entries_limit) * 69
            <= db.max_response_payload_bytes < (db.entries_limit(entries_limit) + 1) * 69,
{
}

/// No more entries are told than the caller takes or than may be told at once, and of these two
/// bounds one is met.
pub proof fn law_told_entries_are_bounded(db: Db, entries_limit: Option<usize>)
    ensures
        db.max_entries(entries_limit) <= db.max_return_entries,
        entries_limit matches Some(limit) ==> db.max_entries(entries_limit) <= limit,
        db.max_entries(entries_limit) == db.max_return_entries || entries_limit == Some(
            db.max_entries(entries_limit),
        ),
        entries_limit is None ==> db.max_entries(entries_limit) == db.max_return_entries,
{
}

} // verus!
