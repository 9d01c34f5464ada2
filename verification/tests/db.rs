use miden_store::account::AccountId;
use miden_store::analysis::{analysis_label, table_sizes_query, total_size_query, TableSize};
use miden_store::command::{StoreAction, StoreCommand};
use miden_store::db::{Db, Page, Query, Request};
use miden_store::lifecycle::{
    block_update, genesis_update, ApplyProgress, ApplyStep, BlockUpdate, LoadProgress, LoadStep, SetupProgress,
    SetupStep, StartProgress, StartStep,
};
use miden_store::storage_map::BlockRange;
use miden_store::word::Word;
use miden_store::word_set::WordSet;

fn db() -> Db {
    Db { max_response_payload_bytes: 1000, max_return_entries: 10 }
}

fn account() -> AccountId {
    AccountId::new(0x1234_5678_9abc_de20, 0x0011_2233_4455_6600).unwrap()
}

fn word() -> Word {
    Word::new([1, 2, 3, 4]).unwrap()
}

const RANGE: BlockRange = BlockRange { start: 3, end: 9 };

fn shown(request: Request) -> (&'static str, String) {
    (request.label, format!("{:?}", request.query))
}

fn expected(label: &'static str, query: Query) -> (&'static str, String) {
    (label, format!("{query:?}"))
}

#[test]
fn nullifier_prefixes_keep_their_low_bits() {
    let request = db().select_nullifiers_by_prefix(16, vec![0x1_0005, 0xffff, 7], RANGE);
    let query = Query::NullifiersByPrefix {
        prefix_len: 16,
        nullifier_prefixes: vec![5, 0xffff, 7],
        block_range: RANGE,
    };
    assert_eq!(shown(request), expected("nullifieres by prefix", query));
}

#[test]
fn pages_are_requested() {
    assert_eq!(
        shown(db().select_nullifiers_paged(5, Some(word()))),
        expected(
            "read nullifiers paged",
            Query::NullifiersPaged { page_size: 5, after_nullifier: Some(word()) }
        )
    );
    assert_eq!(
        shown(db().select_account_commitments_paged(5, None)),
        expected(
            "read account commitments paged",
            Query::AccountCommitmentsPaged { page_size: 5, after_account_id: None }
        )
    );
    assert_eq!(
        shown(db().select_public_account_ids_paged(1, Some(account()))),
        expected(
            "read public account IDs paged",
            Query::PublicAccountIdsPaged { page_size: 1, after_account_id: Some(account()) }
        )
    );
    let page = Page { token: Some(4), size: 2 };
    assert_eq!(
        shown(db().select_unconsumed_network_notes(account(), 6, page)),
        expected(
            "unconsumed network notes for account",
            Query::UnconsumedNetworkNotesByAccountId { account_id: account(), block_num: 6, page }
        )
    );
}

#[test]
fn block_headers_are_requested() {
    assert_eq!(
        shown(db().select_block_header_by_block_num(Some(4))),
        expected(
            "block headers by block number",
            Query::BlockHeaderByBlockNum { maybe_block_number: Some(4) }
        )
    );
    assert_eq!(
        shown(db().select_block_headers(vec![4, 2])),
        expected(
            "block headers from given block numbers",
            Query::BlockHeaders { blocks: vec![4, 2] }
        )
    );
    assert_eq!(
        shown(db().select_all_block_headers()),
        expected("all block headers", Query::AllBlockHeaders)
    );
    assert_eq!(
        shown(db().select_all_block_header_commitments()),
        expected("all block headers", Query::AllBlockHeaderCommitments)
    );
}

#[test]
fn accounts_are_requested() {
    assert_eq!(
        shown(db().select_account(account())),
        expected("Get account details", Query::Account { id: account() })
    );
    assert_eq!(
        shown(db().select_network_account_by_id(account())),
        expected(
            "Get network account by id",
            Query::NetworkAccountById { account_id: account() }
        )
    );
    assert_eq!(
        shown(db().select_all_network_account_ids(RANGE)),
        expected("Get all network account IDs", Query::AllNetworkAccountIds { block_range: RANGE })
    );
    assert_eq!(
        shown(db().select_account_vault_at_block(account(), 5)),
        expected(
            "Get account vault at block",
            Query::AccountVaultAtBlock { account_id: account(), block_num: 5 }
        )
    );
    assert_eq!(
        shown(db().select_account_code_by_commitment(word())),
        expected(
            "Get account code by commitment",
            Query::AccountCodeByCommitment { code_commitment: word() }
        )
    );
    assert_eq!(
        shown(db().select_account_header_with_storage_header_at_block(account(), 5)),
        expected(
            "Get account header with storage header at block",
            Query::AccountHeaderWithStorageHeaderAtBlock { account_id: account(), block_num: 5 }
        )
    );
    assert_eq!(
        shown(db().get_account_vault_sync(account(), RANGE)),
        expected(
            "account vault sync",
            Query::AccountVaultAssets { account_id: account(), block_range: RANGE }
        )
    );
    assert_eq!(
        shown(db().select_transactions_records(vec![account()], RANGE)),
        expected(
            "full transactions records",
            Query::TransactionsRecords { account_ids: vec![account()], block_range: RANGE }
        )
    );
}

#[test]
fn notes_are_requested() {
    assert_eq!(
        shown(db().get_note_sync(RANGE, vec![1, 2])),
        expected(
            "notes sync task",
            Query::NoteSync { note_tags: vec![1, 2], block_range: RANGE }
        )
    );
    assert_eq!(
        shown(db().select_notes_by_id(vec![word()])),
        expected("note by id", Query::NotesById { note_ids: vec![word()] })
    );
    assert_eq!(
        shown(db().select_existing_note_commitments(vec![word()])),
        expected(
            "note by commitment",
            Query::ExistingNoteCommitments { note_commitments: vec![word()] }
        )
    );
    let set = || {
        let mut set = WordSet::new();
        set.insert(word());
        set
    };
    assert_eq!(
        shown(db().select_note_inclusion_proofs(set())),
        expected(
            "block note inclusion proofs by commitment",
            Query::NoteInclusionProofs { note_commitments: set() }
        )
    );
    assert_eq!(
        shown(db().select_note_script_by_root(word())),
        expected("note script by root", Query::NoteScriptByRoot { root: word() })
    );
}

#[test]
fn database_is_set_up_step_by_step() {
    let mut step = Db::bootstrap();
    let mut steps = vec![step];
    while let SetupProgress::Next(next) = step.on_result(true) {
        steps.push(next);
        step = next;
    }
    assert_eq!(
        steps,
        vec![
            SetupStep::ReadPath,
            SetupStep::Connect,
            SetupStep::Configure,
            SetupStep::Migrate,
            SetupStep::InsertGenesis,
        ]
    );
    assert_eq!(step.on_result(true), SetupProgress::Done);
}

#[test]
fn failures_of_the_setup_are_explained() {
    let explained = |step: SetupStep| match step.on_result(false) {
        SetupProgress::Failed(context) => context,
        other => panic!("unexpected progress: {other:?}"),
    };
    assert_eq!(explained(SetupStep::ReadPath), Some("database filepath is invalid"));
    assert_eq!(explained(SetupStep::Connect), Some("failed to open a database connection"));
    assert_eq!(explained(SetupStep::Configure), None);
    assert_eq!(explained(SetupStep::Migrate), Some("failed to apply database migrations"));
    assert_eq!(explained(SetupStep::InsertGenesis), Some("failed to insert genesis block"));
}

#[test]
fn database_is_loaded_with_its_migrations() {
    let step = Db::load();
    assert_eq!(step, LoadStep::Connect);
    assert_eq!(step.label(), None);
    assert_eq!(LoadStep::Migrate.label(), Some("migrations"));
    assert_eq!(step.on_result(true), LoadProgress::Next(LoadStep::Migrate));
    assert_eq!(LoadStep::Migrate.on_result(true), LoadProgress::Done);
    assert_eq!(LoadStep::Connect.on_result(false), LoadProgress::Failed);
    assert_eq!(LoadStep::Migrate.on_result(false), LoadProgress::Failed);
}

fn apply(results: [bool; 4]) -> ApplyProgress {
    let block = db().apply_block(8);
    let mut step = block.first();
    for succeeded in results {
        match block.on_result(step, succeeded) {
            ApplyProgress::Next(next) => step = next,
            end => return end,
        }
    }
    unreachable!("a block has four steps")
}

#[test]
fn blocks_are_committed_if_every_step_succeeds() {
    assert_eq!(apply([true, true, true, true]), ApplyProgress::Commit);
    assert_eq!(apply([true, false, true, true]), ApplyProgress::Commit);
    assert_eq!(apply([false, true, true, true]), ApplyProgress::RollBack);
    assert_eq!(apply([true, true, false, true]), ApplyProgress::RollBack);
    assert_eq!(apply([true, true, true, false]), ApplyProgress::RollBack);
    let block = db().apply_block(8);
    assert_eq!(
        block.on_result(ApplyStep::AllowAcquire, true),
        ApplyProgress::Next(ApplyStep::PruneHistory { block_num: 8 })
    );
    assert_eq!(
        ApplyStep::AllowAcquire.warning(),
        Some("failed to send notification for successful block application, potential deadlock")
    );
    assert_eq!(ApplyStep::ApplyBlock.warning(), None);
    assert_eq!(block.label(), "apply block");
}

#[test]
fn genesis_block_has_no_notes() {
    let update: BlockUpdate<u8, u8, u8, u8, u8, u8> = genesis_update(1, 2, 3, 4);
    assert_eq!(
        update,
        BlockUpdate {
            header: 1,
            signature: 2,
            notes: vec![],
            created_nullifiers: vec![],
            updated_accounts: 3,
            transactions: 4,
        }
    );
}

#[test]
fn blocks_are_written_with_all_their_parts() {
    assert_eq!(
        block_update(1, "signature", vec![2], vec![3, 4], "accounts", 5),
        BlockUpdate {
            header: 1,
            signature: "signature",
            notes: vec![2],
            created_nullifiers: vec![3, 4],
            updated_accounts: "accounts",
            transactions: 5,
        }
    );
}

#[test]
fn table_sizes_become_attributes() {
    let tables = vec![
        TableSize { name: "notes".to_string(), size: 10 },
        TableSize { name: "accounts".to_string(), size: -1 },
    ];
    let named = |total| -> Vec<(String, i64)> {
        db().analyze_table_sizes(&tables, total)
            .into_iter()
            .map(|attribute| (attribute.name, attribute.size))
            .collect()
    };
    let mut expected = vec![
        ("database.table.notes.size".to_string(), 10),
        ("database.table.accounts.size".to_string(), -1),
    ];
    assert_eq!(named(None), expected);
    expected.push(("database.total.size".to_string(), 77));
    assert_eq!(named(Some(77)), expected);
    assert_eq!(analysis_label(), "db analysis");
    assert_eq!(
        table_sizes_query(),
        "SELECT name, sum(payload) AS size FROM dbstat GROUP BY name"
    );
    assert_eq!(
        total_size_query(),
        "SELECT page_count * page_size as size FROM pragma_page_count(), pragma_page_size()"
    );
}

#[test]
fn commands_are_handled() {
    let bootstrap: StoreCommand<&str, &str> = StoreCommand::Bootstrap {
        config: Some("c"),
        data_directory: "d",
        accounts_directory: "a",
    };
    assert!(!bootstrap.is_open_telemetry_enabled());
    assert_eq!(
        bootstrap.handle(),
        StoreAction::Bootstrap {
            genesis_input: Some("c"),
            data_directory: "d",
            accounts_directory: "a",
        }
    );
    for open_telemetry in [true, false] {
        let start = StoreCommand::Start { url: "u", data_directory: "d", open_telemetry };
        assert_eq!(start.is_open_telemetry_enabled(), open_telemetry);
        assert_eq!(start.handle(), StoreAction::Start { url: "u", data_directory: "d" });
    }
    let dump: StoreCommand<u8, u8> = StoreCommand::DumpGenesis;
    assert!(!dump.is_open_telemetry_enabled());
}

#[test]
fn store_is_started_step_by_step() {
    let mut step = StartStep::first();
    let mut explained = Vec::new();
    loop {
        match step.on_result(false) {
            StartProgress::Failed(context) => explained.push(context),
            other => panic!("unexpected progress: {other:?}"),
        }
        match step.on_result(true) {
            StartProgress::Next(next) => step = next,
            end => {
                assert_eq!(end, StartProgress::Done);
                break;
            },
        }
    }
    assert_eq!(
        explained,
        vec![
            "Failed to extract socket address from store URL",
            "Failed to bind to store's gRPC URL",
            "Loading store",
            "Serving store",
        ]
    );
}
