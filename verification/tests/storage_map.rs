use miden_store::account::AccountId;
use miden_store::db::{Db, Query, Request};
use miden_store::storage_map::{
    default_storage_map_entries_limit, storage_map_details, AccountStorageMapDetails, BlockRange,
    ReconstructionStep, StorageMapEntries, StorageMapReconstruction, StorageMapValue,
    StorageMapValuesPage,
};
use miden_store::word::Word;

const LAST: u32 = 5;

fn word(n: u64) -> Word {
    Word::new([n, 0, 0, 0]).unwrap()
}

fn account() -> AccountId {
    AccountId::new(0x1234_5678_9abc_de20, 0x0011_2233_4455_6600).unwrap()
}

fn db() -> Db {
    Db { max_response_payload_bytes: 690, max_return_entries: 3 }
}

fn value(block_num: u32, slot: &str, key: u64, value: u64) -> StorageMapValue {
    StorageMapValue { block_num, slot_name: slot.to_string(), key: word(key), value: word(value) }
}

fn page(last_block_included: u32, values: Vec<StorageMapValue>) -> StorageMapValuesPage {
    StorageMapValuesPage { last_block_included, values, values_left_out: false }
}

fn start() -> StorageMapReconstruction {
    db().reconstruct_storage_map_from_db(account(), "slot".to_string(), LAST, None)
}

fn run(
    mut state: StorageMapReconstruction,
    pages: Vec<StorageMapValuesPage>,
) -> (Vec<(u32, u32, usize)>, Option<AccountStorageMapDetails>) {
    let mut ranges = Vec::new();
    let mut pages = pages.into_iter();
    loop {
        let query = state.query();
        ranges.push((query.block_range.start, query.block_range.end, query.entries_limit));
        match pages.next() {
            None => return (ranges, None),
            Some(page) => match state.on_page(page) {
                ReconstructionStep::Continue(next) => state = next,
                ReconstructionStep::Done(details) => return (ranges, Some(details)),
            },
        }
    }
}

fn entries(details: Option<AccountStorageMapDetails>) -> Option<Vec<(u64, u64)>> {
    let details = details.expect("the reconstruction is over");
    assert_eq!(details.slot_name, "slot");
    match details.entries {
        StorageMapEntries::LimitExceeded => None,
        StorageMapEntries::AllEntries(entries) => Some(
            entries.iter().map(|(key, value)| (key.elements()[0], value.elements()[0])).collect(),
        ),
    }
}

#[test]
fn one_page_is_enough() {
    let values = vec![value(1, "slot", 2, 20), value(4, "slot", 1, 10), value(5, "slot", 2, 21)];
    let (ranges, details) = run(start(), vec![page(LAST, values)]);
    assert_eq!(ranges, vec![(0, 5, 10)]);
    assert_eq!(entries(details), Some(vec![(1, 10), (2, 21)]));
}

#[test]
fn pages_are_read_until_the_block_is_covered() {
    let pages = vec![
        page(1, vec![value(1, "slot", 2, 20)]),
        page(3, vec![value(2, "slot", 2, 21), value(3, "other", 2, 22)]),
        page(LAST, vec![value(5, "slot", 3, 30)]),
    ];
    let (ranges, details) = run(start(), pages);
    assert_eq!(ranges, vec![(0, 5, 10), (2, 5, 10), (4, 5, 10)]);
    assert_eq!(entries(details), Some(vec![(2, 21), (3, 30)]));
}

#[test]
fn later_pages_override_earlier_ones() {
    let pages = vec![
        page(1, vec![value(1, "slot", 2, 20)]),
        page(LAST, vec![value(5, "slot", 2, 22)]),
    ];
    assert_eq!(entries(run(start(), pages).1), Some(vec![(2, 22)]));
}

#[test]
fn removed_entries_are_dropped() {
    let values = vec![
        value(1, "slot", 2, 20),
        value(1, "slot", 3, 30),
        value(2, "slot", 2, 0),
        value(3, "other", 2, 9),
    ];
    assert_eq!(entries(run(start(), vec![page(LAST, values)]).1), Some(vec![(3, 30)]));
}

#[test]
fn other_slots_are_left_out() {
    let values = vec![value(1, "other", 2, 20), value(2, "slot", 1, 10), value(2, "Slot", 1, 11)];
    assert_eq!(entries(run(start(), vec![page(LAST, values)]).1), Some(vec![(1, 10)]));
}

#[test]
fn entries_are_in_the_order_of_words() {
    let values = vec![value(1, "slot", 0x1_0000_0000, 1), value(1, "slot", 0x1_0000_0001, 2)];
    assert_eq!(
        entries(run(start(), vec![page(LAST, values)]).1),
        Some(vec![(0x1_0000_0001, 2), (0x1_0000_0000, 1)])
    );
}

#[test]
fn too_many_entries_exceed_the_limit() {
    let values = |n: u64| (1..=n).map(|k| value(1, "slot", k, k)).collect();
    assert!(entries(run(start(), vec![page(LAST, values(3))]).1).is_some());
    assert_eq!(entries(run(start(), vec![page(LAST, values(4))]).1), None);
}

#[test]
fn empty_first_page_at_genesis_exceeds_the_limit() {
    assert_eq!(entries(run(start(), vec![page(0, vec![])]).1), None);
}

#[test]
fn account_without_values_at_genesis_has_no_entries() {
    for limit in [None, Some(10), Some(0)] {
        let state = || db().reconstruct_storage_map_from_db(account(), "slot".to_string(), 0, limit);
        assert_eq!(entries(run(state(), vec![page(0, vec![])]).1), Some(vec![]));
        let left_out = StorageMapValuesPage { values_left_out: true, ..page(0, vec![]) };
        assert_eq!(entries(run(state(), vec![left_out]).1), None);
    }
    let state = db().reconstruct_storage_map_from_db(account(), "slot".to_string(), 0, None);
    let values = vec![value(0, "slot", 1, 10)];
    assert_eq!(entries(run(state, vec![page(0, values)]).1), Some(vec![(1, 10)]));
}

#[test]
fn limit_of_the_caller_is_kept() {
    let pages = || {
        vec![
            page(1, vec![value(1, "slot", 1, 10), value(1, "slot", 2, 20)]),
            page(2, vec![value(2, "slot", 3, 30)]),
        ]
    };
    let told = |limit| {
        let state =
            db().reconstruct_storage_map_from_db(account(), "slot".to_string(), 2, Some(limit));
        entries(run(state, pages()).1)
    };
    assert_eq!(told(2), None);
    assert_eq!(told(3), Some(vec![(1, 10), (2, 20), (3, 30)]));
    // No limit of the caller lifts the limit of three entries.
    let values = (1..=4).map(|k| value(1, "slot", k, k)).collect();
    let state = db().reconstruct_storage_map_from_db(account(), "slot".to_string(), 2, Some(9));
    assert_eq!(entries(run(state, vec![page(2, values)]).1), None);
}

#[test]
fn empty_first_page_beyond_genesis_goes_on() {
    let (ranges, details) = run(start(), vec![page(2, vec![])]);
    assert_eq!(ranges, vec![(0, 5, 10), (3, 5, 10)]);
    assert_eq!(details, None);
    let (_, details) = run(start(), vec![page(2, vec![]), page(LAST, vec![])]);
    assert_eq!(entries(details), Some(vec![]));
}

#[test]
fn page_without_progress_exceeds_the_limit() {
    for last in [0, 1, 2] {
        let pages = vec![page(2, vec![value(1, "slot", 1, 1)]), page(last, vec![])];
        assert_eq!(entries(run(start(), pages).1), None);
    }
}

#[test]
fn reconstruction_ends_within_the_number_of_blocks() {
    let pages = (0..=LAST).map(|last| page(last, vec![value(last, "slot", 1, 1)])).collect();
    let (ranges, details) = run(start(), pages);
    assert_eq!(ranges.len(), 6);
    assert_eq!(entries(details), Some(vec![(1, 1)]));
}

#[test]
fn limit_is_taken_from_the_caller_or_the_response_size() {
    assert_eq!(default_storage_map_entries_limit(690), 10);
    assert_eq!(default_storage_map_entries_limit(689), 9);
    assert_eq!(default_storage_map_entries_limit(0), 0);
    let state =
        db().reconstruct_storage_map_from_db(account(), "slot".to_string(), LAST, Some(7));
    assert_eq!(state.query().entries_limit, 7);
    let range = BlockRange { start: 1, end: 2 };
    match db().select_storage_map_sync_values(account(), range, None) {
        Request { label, query: Query::AccountStorageMapValuesPaged(query) } => {
            assert_eq!(label, "select storage map sync values");
            assert_eq!(query.entries_limit, 10);
            assert_eq!(query.block_range, range);
            assert_eq!(query.account_id, account());
        },
        other => panic!("unexpected request: {other:?}"),
    }
}

#[test]
fn page_requests_follow_the_reconstruction() {
    let state = start();
    let request = db().next_storage_map_page(&state);
    assert_eq!(request.label, "select storage map sync values");
    match request.query {
        Query::AccountStorageMapValuesPaged(query) => assert_eq!(query, state.query()),
        other => panic!("unexpected query: {other:?}"),
    }
}

#[test]
fn details_of_no_values_are_empty() {
    let details = storage_map_details(&Vec::new(), "slot".to_string(), 0);
    assert_eq!(details.entries, StorageMapEntries::AllEntries(vec![]));
    let details = AccountStorageMapDetails::limit_exceeded("slot".to_string());
    assert_eq!(details.entries, StorageMapEntries::LimitExceeded);
}

#[test]
fn paging_does_not_matter() {
    let values = || {
        vec![
            value(0, "slot", 1, 10),
            value(2, "slot", 2, 20),
            value(2, "slot", 1, 11),
            value(4, "slot", 2, 0),
            value(5, "slot", 3, 30),
        ]
    };
    let whole = entries(run(start(), vec![page(LAST, values())]).1);
    assert_eq!(whole, Some(vec![(1, 11), (3, 30)]));
    for cut in [vec![0, 5], vec![1, 3, 5], vec![0, 1, 2, 3, 4, 5]] {
        let mut first = 0;
        let mut pages = Vec::new();
        for last in cut {
            let of_blocks = values()
                .into_iter()
                .filter(|value| first <= value.block_num && value.block_num <= last)
                .collect();
            pages.push(page(last, of_blocks));
            first = last + 1;
        }
        assert_eq!(entries(run(start(), pages).1), whole);
    }
}

#[test]
fn errors_of_the_database_are_reported() {
    let failed: Result<StorageMapValuesPage, &str> = Err("disk");
    assert_eq!(start().on_result(failed).unwrap_err(), "disk");
    let read: Result<StorageMapValuesPage, &str> = Ok(page(LAST, vec![value(1, "slot", 1, 10)]));
    match start().on_result(read) {
        Ok(ReconstructionStep::Done(details)) => {
            assert_eq!(entries(Some(details)), Some(vec![(1, 10)]));
        },
        other => panic!("unexpected step: {other:?}"),
    }
}
