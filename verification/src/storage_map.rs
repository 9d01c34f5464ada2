//! Reconstruction of a storage map from the history that the database keeps of it.
//!
//! The history of an account's storage maps is read in pages, each of which covers whole blocks. The
//! reconstruction asks for one page after another until the block in question is covered, and then
//! keeps, of every key in the slot in question, the last value.

use crate::account::{AccountId, AccountIdView};
use crate::word;
use crate::word::{Word, WordOrder};
use vstd::prelude::*;

verus! {

// VALUES AND PAGES
// ------------------------------------------------------------------------------------------------

/// The number of bytes that one storage map value takes in a response: a key and a value of 32 bytes
/// each, a block number of four, and one byte for the slot.
pub const STORAGE_MAP_VALUE_PER_ROW_BYTES: usize = 69;

/// The number of storage map values for which a response of the given size has room.
pub fn default_storage_map_entries_limit(max_response_payload_bytes: usize) -> (limit: usize)
    ensures
        limit == max_response_payload_bytes as nat / 69,
        limit * STORAGE_MAP_VALUE_PER_ROW_BYTES <= max_response_payload_bytes,
        (limit + 1) * STORAGE_MAP_VALUE_PER_ROW_BYTES > max_response_payload_bytes,
{
    max_response_payload_bytes / STORAGE_MAP_VALUE_PER_ROW_BYTES
}

/// A change to a storage map: in a block, the key got the value. The empty word stands for a removed
/// entry.
#[derive(Debug, PartialEq, Eq)]
pub struct StorageMapValue {
    pub block_num: u32,
    pub slot_name: String,
    pub key: Word,
    pub value: Word,
}

/// The plain value of a [`StorageMapValue`].
pub struct StorageMapValueView {
    pub block_num: u32,
    pub slot_name: Seq<char>,
    pub key: Seq<u64>,
    pub value: Seq<u64>,
}

impl View for StorageMapValue {
    type V = StorageMapValueView;

    open spec fn view(&self) -> StorageMapValueView {
        StorageMapValueView {
            block_num: self.block_num,
            slot_name: self.slot_name@,
            key: self.key@,
            value: self.value@,
        }
    }
}

/// The plain values of storage map values.
pub open spec fn values_view(values: Seq<StorageMapValue>) -> Seq<StorageMapValueView> {
    values.map_values(|value: StorageMapValue| value@)
}

/// A page of the history: the values of whole blocks, the last block that is covered, and whether
/// values were left out because they were more than were asked for.
///
/// Values that are left out belong to the blocks after the last one that is covered. Only if the
/// genesis block itself has too many values, none of them are given though the page covers it.
#[derive(Debug, PartialEq, Eq)]
pub struct StorageMapValuesPage {
    pub last_block_included: u32,
    pub values: Vec<StorageMapValue>,
    pub values_left_out: bool,
}

/// The plain value of a [`StorageMapValuesPage`].
pub struct StorageMapValuesPageView {
    pub last_block_included: u32,
    pub values: Seq<StorageMapValueView>,
    pub values_left_out: bool,
}

impl View for StorageMapValuesPage {
    type V = StorageMapValuesPageView;

    open spec fn view(&self) -> StorageMapValuesPageView {
        StorageMapValuesPageView {
            last_block_included: self.last_block_included,
            values: values_view(self.values@),
            values_left_out: self.values_left_out,
        }
    }
}

// DETAILS
// ------------------------------------------------------------------------------------------------

/// The entries of a storage map, as far as they are told.
#[derive(Debug, PartialEq, Eq)]
pub enum StorageMapEntries {
    /// There are more entries than can be told.
    LimitExceeded,
    /// All entries, in the order of their keys.
    AllEntries(Vec<(Word, Word)>),
}

/// The plain value of [`StorageMapEntries`].
pub enum StorageMapEntriesView {
    LimitExceeded,
    AllEntries(Seq<(Seq<u64>, Seq<u64>)>),
}

/// The plain values of entries.
pub open spec fn entries_view(entries: Seq<(Word, Word)>) -> Seq<(Seq<u64>, Seq<u64>)> {
    entries.map_values(|entry: (Word, Word)| (entry.0@, entry.1@))
}

impl View for StorageMapEntries {
    type V = StorageMapEntriesView;

    open spec fn view(&self) -> StorageMapEntriesView {
        match *self {
            StorageMapEntries::LimitExceeded => StorageMapEntriesView::LimitExceeded,
            StorageMapEntries::AllEntries(entries) => StorageMapEntriesView::AllEntries(
                entries_view(entries@),
            ),
        }
    }
}

/// The entries of the storage map in one slot.
#[derive(Debug, PartialEq, Eq)]
pub struct AccountStorageMapDetails {
    pub slot_name: String,
    pub entries: StorageMapEntries,
}

impl AccountStorageMapDetails {
    /// Details that only tell that there are too many entries.
    pub fn limit_exceeded(slot_name: String) -> (details: Self)
        ensures
            details.slot_name@ == slot_name@,
            details.entries is LimitExceeded,
    {
        AccountStorageMapDetails { slot_name, entries: StorageMapEntries::LimitExceeded }
    }
}

// ENTRIES
// ------------------------------------------------------------------------------------------------

/// The last value of every key in a slot.
pub open spec fn latest(values: Seq<StorageMapValueView>, slot_name: Seq<char>) -> Map<
    Seq<u64>,
    Seq<u64>,
>
    decreases values.len(),
{
    if values.len() == 0 {
        Map::empty()
    } else {
        let before = latest(values.drop_last(), slot_name);
        if values.last().slot_name == slot_name {
            before.insert(values.last().key, values.last().value)
        } else {
            before
        }
    }
}

/// The entries that are present: those whose value is not the empty word.
pub open spec fn present(entries: Map<Seq<u64>, Seq<u64>>) -> Map<Seq<u64>, Seq<u64>> {
    entries.restrict(
        Set::new(|key: Seq<u64>| entries.contains_key(key) && entries[key] != word::empty_word()),
    )
}

/// Whether the keys of the entries increase in the order of words.
pub open spec fn ordered(entries: Seq<(Seq<u64>, Seq<u64>)>) -> bool {
    forall|i: int, j: int|
        0 <= i < j < entries.len() ==> word::word_before(
            (#[trigger] entries[i]).0,
            (#[trigger] entries[j]).0,
        )
}

/// Whether the sequence lists the entries of the map, each once, in the order of their keys.
pub open spec fn lists(
    entries: Seq<(Seq<u64>, Seq<u64>)>,
    map: Map<Seq<u64>, Seq<u64>>,
) -> bool {
    &&& ordered(entries)
    &&& forall|i: int|
        0 <= i < entries.len() ==> map.contains_key((#[trigger] entries[i]).0)
            && map[entries[i].0] == entries[i].1
    &&& forall|key: Seq<u64>| #[trigger]
        map.contains_key(key) ==> exists|i: int|
            0 <= i < entries.len() && (#[trigger] entries[i]).0 == key
}

/// Gives a key its value: in place if the key is listed already, else where the order puts it.
fn insert_entry(
    entries: &mut Vec<(Word, Word)>,
    key: Word,
    value: Word,
    Ghost(map): Ghost<Map<Seq<u64>, Seq<u64>>>,
)
    requires
        lists(entries_view(old(entries)@), map),
    ensures
        lists(entries_view(final(entries)@), map.insert(key@, value@)),
{
    let ghost before = entries_view(entries@);
    let mut place: usize = 0;
    while place < entries.len()
        invariant
            place <= entries@.len(),
            before == entries_view(entries@),
            lists(before, map),
            forall|i: int| 0 <= i < place ==> word::word_before((#[trigger] before[i]).0, key@),
        ensures
            place <= entries@.len(),
            place < entries@.len() ==> word::word_before(key@, before[place as int].0),
        decreases entries.len() - place,
    {
        match entries[place].0.order(&key) {
            WordOrder::Before => {
                place = place + 1;
            },
            WordOrder::Same => {
                entries.set(place, (key, value));
                proof {
                    lemma_entry_replaced(before, map, place as int, (key@, value@));
                    assert(entries_view(entries@) =~= before.update(place as int, (key@, value@)));
                }
                return ;
            },
            WordOrder::After => {
                break ;
            },
        }
    }
    entries.insert(place, (key, value));
    proof {
        assert(entries_view(entries@) =~= before.insert(place as int, (key@, value@)));
        lemma_entry_inserted(before, map, place as int, (key@, value@));
    }
}

proof fn lemma_entry_replaced(
    entries: Seq<(Seq<u64>, Seq<u64>)>,
    map: Map<Seq<u64>, Seq<u64>>,
    place: int,
    entry: (Seq<u64>, Seq<u64>),
)
    requires
        lists(entries, map),
        0 <= place < entries.len(),
        entries[place].0 == entry.0,
    ensures
        lists(entries.update(place, entry), map.insert(entry.0, entry.1)),
{
    let now = entries.update(place, entry);
    let new_map = map.insert(entry.0, entry.1);
    assert forall|i: int| 0 <= i < now.len() implies new_map.contains_key((#[trigger] now[i]).0)
        && new_map[now[i].0] == now[i].1 by {
        if i != place {
            assert(now[i] == entries[i]);
            word::lemma_word_order(entry.0, entry.0, entry.0);
            assert(entries[i].0 != entry.0);
        }
    }
    assert forall|key: Seq<u64>| #[trigger] new_map.contains_key(key) implies exists|i: int|
        0 <= i < now.len() && (#[trigger] now[i]).0 == key by {
        if key == entry.0 {
            assert(now[place].0 == key);
        } else {
            assert(map.contains_key(key));
            let i = choose|i: int| 0 <= i < entries.len() && (#[trigger] entries[i]).0 == key;
            assert(now[i].0 == key);
        }
    }
    assert forall|i: int, j: int| 0 <= i < j < now.len() implies word::word_before(
        (#[trigger] now[i]).0,
        (#[trigger] now[j]).0,
    ) by {
        assert(now[i].0 == entries[i].0 && now[j].0 == entries[j].0);
    }
}

proof fn lemma_entry_inserted(
    entries: Seq<(Seq<u64>, Seq<u64>)>,
    map: Map<Seq<u64>, Seq<u64>>,
    place: int,
    entry: (Seq<u64>, Seq<u64>),
)
    requires
        lists(entries, map),
        0 <= place <= entries.len(),
        forall|i: int| 0 <= i < place ==> word::word_before((#[trigger] entries[i]).0, entry.0),
        place < entries.len() ==> word::word_before(entry.0, entries[place].0),
    ensures
        lists(entries.insert(place, entry), map.insert(entry.0, entry.1)),
{
    let now = entries.insert(place, entry);
    let new_map = map.insert(entry.0, entry.1);
    assert forall|i: int| place <= i < entries.len() implies word::word_before(
        entry.0,
        (#[trigger] entries[i]).0,
    ) by {
        if i > place {
            word::lemma_word_order(entry.0, entries[place].0, entries[i].0);
        }
    }
    word::lemma_word_order(entry.0, entry.0, entry.0);
    assert forall|i: int| 0 <= i < now.len() implies (#[trigger] now[i]) == (if i < place {
        entries[i]
    } else if i == place {
        entry
    } else {
        entries[i - 1]
    }) by {}
    assert forall|i: int| 0 <= i < now.len() implies new_map.contains_key((#[trigger] now[i]).0)
        && new_map[now[i].0] == now[i].1 by {
        if i != place {
            let k = if i < place { i } else { i - 1 };
            assert(now[i] == entries[k]);
            assert(entries[k].0 != entry.0);
        }
    }
    assert forall|key: Seq<u64>| #[trigger] new_map.contains_key(key) implies exists|i: int|
        0 <= i < now.len() && (#[trigger] now[i]).0 == key by {
        if key == entry.0 {
            assert(now[place].0 == key);
        } else {
            assert(map.contains_key(key));
            let i = choose|i: int| 0 <= i < entries.len() && (#[trigger] entries[i]).0 == key;
            if i < place {
                assert(now[i].0 == key);
            } else {
                assert(now[i + 1].0 == key);
            }
        }
    }
    assert forall|i: int, j: int| 0 <= i < j < now.len() implies word::word_before(
        (#[trigger] now[i]).0,
        (#[trigger] now[j]).0,
    ) by {
        if j < place {
            assert(now[i] == entries[i] && now[j] == entries[j]);
        } else if i > place {
            assert(now[i] == entries[i - 1] && now[j] == entries[j - 1]);
        } else if i < place && j > place {
            assert(now[i] == entries[i] && now[j] == entries[j - 1]);
        }
    }
}

/// The last value of every key in a slot, in the order of the keys.
fn latest_values(values: &Vec<StorageMapValue>, slot_name: &String) -> (entries: Vec<(Word, Word)>)
    ensures
        lists(entries_view(entries@), latest(values_view(values@), slot_name@)),
{
    let mut entries: Vec<(Word, Word)> = Vec::new();
    let ghost all = values_view(values@);
    assert(all.take(0) =~= Seq::empty());
    assert(entries_view(entries@) =~= Seq::empty());
    let mut i: usize = 0;
    while i < values.len()
        invariant
            i <= values@.len(),
            all == values_view(values@),
            lists(entries_view(entries@), latest(all.take(i as int), slot_name@)),
        decreases values.len() - i,
    {
        let value = &values[i];
        proof {
            assert(all.take(i + 1).drop_last() =~= all.take(i as int));
            assert(all.take(i + 1).last() == value@);
        }
        if value.slot_name == *slot_name {
            insert_entry(
                &mut entries,
                value.key,
                value.value,
                Ghost(latest(all.take(i as int), slot_name@)),
            );
        }
        i = i + 1;
    }
    assert(all.take(values.len() as int) =~= all);
    entries
}

/// The entries that are present.
fn retain_present(
    entries: Vec<(Word, Word)>,
    Ghost(map): Ghost<Map<Seq<u64>, Seq<u64>>>,
) -> (kept: Vec<(Word, Word)>)
    requires
        lists(entries_view(entries@), map),
    ensures
        lists(entries_view(kept@), present(map)),
        forall|k: int|
            0 <= k < kept@.len() ==> entries@.contains(#[trigger] kept@[k]) && kept@[k].1@ != seq![
                0u64,
                0,
                0,
                0,
            ],
        forall|j: int|
            0 <= j < entries@.len() && (#[trigger] entries@[j]).1@ != seq![0u64, 0, 0, 0]
                ==> kept@.contains(entries@[j]),
{
    let ghost all = entries_view(entries@);
    let mut kept: Vec<(Word, Word)> = Vec::new();
    let ghost mut origin: Seq<int> = Seq::empty();
    let mut i: usize = 0;
    while i < entries.len()
        invariant
            i <= entries@.len(),
            all == entries_view(entries@),
            origin.len() == kept@.len(),
            forall|k: int|
                0 <= k < kept@.len() ==> {
                    &&& 0 <= #[trigger] origin[k] < i
                    &&& kept@[k] == entries@[origin[k]]
                    &&& kept@[k].1@ != word::empty_word()
                },
            forall|k: int, l: int|
                0 <= k < l < kept@.len() ==> #[trigger] origin[k] < #[trigger] origin[l],
            forall|j: int|
                0 <= j < i && (#[trigger] entries@[j]).1@ != word::empty_word()
                    ==> origin.contains(j),
        decreases entries.len() - i,
    {
        let entry = entries[i];
        if !entry.1.is_empty() {
            kept.push(entry);
            proof {
                let before = origin;
                origin = origin.push(i as int);
                assert forall|j: int|
                    0 <= j <= i && (#[trigger] entries@[j]).1@
                        != word::empty_word() implies origin.contains(j) by {
                    if j < i {
                        let k = before.index_of(j);
                        assert(before.contains(j));
                        assert(origin[k] == j);
                    } else {
                        assert(origin[before.len() as int] == j);
                    }
                }
            }
        }
        i = i + 1;
    }
    proof {
        assert forall|k: int| 0 <= k < kept@.len() implies entries@.contains(#[trigger] kept@[k])
            && kept@[k].1@ != seq![0u64, 0, 0, 0] by {
            assert(kept@[k] == entries@[origin[k]]);
        }
        assert forall|j: int|
            0 <= j < entries@.len() && (#[trigger] entries@[j]).1@ != seq![
                0u64,
                0,
                0,
                0,
            ] implies kept@.contains(entries@[j]) by {
            assert(origin.contains(j));
            assert(kept@[origin.index_of(j)] == entries@[j]);
        }
        let now = entries_view(kept@);
        assert forall|k: int| 0 <= k < now.len() implies present(map).contains_key(
            (#[trigger] now[k]).0,
        ) && present(map)[now[k].0] == now[k].1 by {
            assert(now[k] == all[origin[k]]);
        }
        assert forall|key: Seq<u64>| #[trigger] present(map).contains_key(key) implies exists|k: int|
            0 <= k < now.len() && (#[trigger] now[k]).0 == key by {
            assert(map.contains_key(key));
            let j = choose|j: int| 0 <= j < all.len() && (#[trigger] all[j]).0 == key;
            assert(entries@[j].1@ != word::empty_word());
            let k = origin.index_of(j);
            assert(origin.contains(j));
            assert(now[k] == all[origin[k]]);
        }
        assert forall|k: int, l: int| 0 <= k < l < now.len() implies word::word_before(
            (#[trigger] now[k]).0,
            (#[trigger] now[l]).0,
        ) by {
            assert(now[k] == all[origin[k]] && now[l] == all[origin[l]]);
        }
    }
    kept
}

/// A map has as many entries as a sequence that lists it.
pub proof fn lemma_listed_len(
    entries: Seq<(Seq<u64>, Seq<u64>)>,
    map: Map<Seq<u64>, Seq<u64>>,
)
    requires
        lists(entries, map),
    ensures
        map.dom().finite(),
        map.dom().len() == entries.len(),
{
    let keys = entries.map_values(|entry: (Seq<u64>, Seq<u64>)| entry.0);
    assert forall|i: int, j: int| 0 <= i < j < keys.len() implies keys[i] != keys[j] by {
        word::lemma_word_order(entries[i].0, entries[i].0, entries[i].0);
        assert(word::word_before(entries[i].0, entries[j].0));
    }
    keys.unique_seq_to_set();
    assert forall|key: Seq<u64>| map.dom().contains(key) implies keys.to_set().contains(key) by {
        assert(map.contains_key(key));
        let i = choose|i: int| 0 <= i < entries.len() && (#[trigger] entries[i]).0 == key;
        assert(keys[i] == key);
    }
    assert forall|key: Seq<u64>| keys.to_set().contains(key) implies map.dom().contains(key) by {
        let i = keys.index_of(key);
        assert(keys.contains(key));
        assert(map.contains_key(entries[i].0));
    }
    assert(map.dom() =~= keys.to_set());
}

/// Whether the details tell the entries that are present in a slot after all the given values, or,
/// if there are more of them than may be told, that this is so.
pub open spec fn are_details(
    details: AccountStorageMapDetails,
    values: Seq<StorageMapValueView>,
    slot_name: Seq<char>,
    max_entries: usize,
) -> bool {
    let entries = present(latest(values, slot_name));
    &&& details.slot_name@ == slot_name
    &&& if entries.dom().len() > max_entries {
        details.entries@ is LimitExceeded
    } else {
        details.entries@ matches StorageMapEntriesView::AllEntries(listed) && lists(listed, entries)
    }
}

/// The entries that are present in a slot after all the given values.
pub fn storage_map_details(
    values: &Vec<StorageMapValue>,
    slot_name: String,
    max_entries: usize,
) -> (details: AccountStorageMapDetails)
    ensures
        are_details(details, values_view(values@), slot_name@, max_entries),
{
    let entries = latest_values(values, &slot_name);
    let entries = retain_present(entries, Ghost(latest(values_view(values@), slot_name@)));
    proof {
        lemma_listed_len(
            entries_view(entries@),
            present(latest(values_view(values@), slot_name@)),
        );
    }
    if entries.len() > max_entries {
        return AccountStorageMapDetails::limit_exceeded(slot_name);
    }
    AccountStorageMapDetails { slot_name, entries: StorageMapEntries::AllEntries(entries) }
}

// RECONSTRUCTION
// ------------------------------------------------------------------------------------------------

/// The blocks from the first to the last, both included.
#[derive(Debug, Clone, Copy, PartialEq, Eq, Structural)]
pub struct BlockRange {
    pub start: u32,
    pub end: u32,
}

/// What is asked of the database: a page of the history of an account's storage maps, for a range of
/// blocks, with at most so many values.
#[derive(Debug, Clone, Copy, PartialEq, Eq, Structural)]
pub struct StorageMapQuery {
    pub account_id: AccountId,
    pub block_range: BlockRange,
    pub entries_limit: usize,
}

/// A reconstruction that waits for a page of the history.
#[derive(Debug)]
pub struct StorageMapReconstruction {
    account_id: AccountId,
    slot_name: String,
    block_num: u32,
    entries_limit: usize,
    max_entries: usize,
    last_block_included: Option<u32>,
    values: Vec<StorageMapValue>,
}

/// The plain value of a [`StorageMapReconstruction`].
pub struct StorageMapReconstructionView {
    /// The account.
    pub account_id: AccountIdView,
    /// The slot of the storage map.
    pub slot_name: Seq<char>,
    /// The block as of which the storage map is reconstructed.
    pub block_num: u32,
    /// The number of values that are asked for at once.
    pub entries_limit: usize,
    /// The number of entries that may be told.
    pub max_entries: usize,
    /// The last block that is covered by the pages so far, if there are any.
    pub last_block_included: Option<u32>,
    /// The values of all pages so far.
    pub values: Seq<StorageMapValueView>,
}

impl StorageMapReconstructionView {
    /// The first block that is not covered yet.
    pub open spec fn first_block(self) -> int {
        match self.last_block_included {
            None => 0,
            Some(last) => last + 1,
        }
    }
}

/// What follows from a page.
#[derive(Debug)]
pub enum ReconstructionStep {
    /// Another page is needed.
    Continue(StorageMapReconstruction),
    /// The reconstruction is over.
    Done(AccountStorageMapDetails),
}

/// What follows from a page, apart from the entries.
pub enum Outcome {
    /// Another page is needed.
    Continue(StorageMapReconstructionView),
    /// A block has more values than are asked for at once.
    LimitExceeded,
    /// All values are known.
    Complete(Seq<StorageMapValueView>),
}

/// What follows from a page.
///
/// A first page that covers nothing but the genesis block and has no values stands for a block that
/// has more values than were asked for, unless the genesis block is the one in question and no values
/// were left out: then there are none. A later page that does not reach beyond the one before it
/// stands for such a block, too.
pub open spec fn after_page(
    state: StorageMapReconstructionView,
    page: StorageMapValuesPageView,
) -> Outcome {
    let stuck = match state.last_block_included {
        None => page.values.len() == 0 && page.last_block_included == 0 && (state.block_num != 0
            || page.values_left_out),
        Some(last) => page.last_block_included <= last,
    };
    if stuck {
        Outcome::LimitExceeded
    } else if page.last_block_included == state.block_num {
        Outcome::Complete(state.values + page.values)
    } else {
        Outcome::Continue(
            StorageMapReconstructionView {
                last_block_included: Some(page.last_block_included),
                values: state.values + page.values,
                ..state
            },
        )
    }
}

/// Whether a step is the one that follows from a page.
pub open spec fn is_step(
    step: ReconstructionStep,
    state: StorageMapReconstructionView,
    page: StorageMapValuesPageView,
) -> bool {
    match after_page(state, page) {
        Outcome::Continue(next) => step matches ReconstructionStep::Continue(s) && s@ == next,
        Outcome::LimitExceeded => step matches ReconstructionStep::Done(details)
            && details.slot_name@ == state.slot_name && details.entries is LimitExceeded,
        Outcome::Complete(values) => step matches ReconstructionStep::Done(details) && are_details(
            details,
            values,
            state.slot_name,
            state.max_entries,
        ),
    }
}

impl View for StorageMapReconstruction {
    type V = StorageMapReconstructionView;

    closed spec fn view(&self) -> StorageMapReconstructionView {
        StorageMapReconstructionView {
            account_id: self.account_id@,
            slot_name: self.slot_name@,
            block_num: self.block_num,
            entries_limit: self.entries_limit,
            max_entries: self.max_entries,
            last_block_included: self.last_block_included,
            values: values_view(self.values@),
        }
    }
}

impl StorageMapReconstruction {
    #[verifier::type_invariant]
    closed spec fn has_next_block(self) -> bool {
        self.last_block_included matches Some(last) ==> last < u32::MAX
    }

    /// Starts the reconstruction of the storage map in a slot, as of a block.
    pub fn new(
        account_id: AccountId,
        slot_name: String,
        block_num: u32,
        entries_limit: usize,
        max_entries: usize,
    ) -> (state: Self)
        ensures
            state@ == (StorageMapReconstructionView {
                account_id: account_id@,
                slot_name: slot_name@,
                block_num,
                entries_limit,
                max_entries,
                last_block_included: None,
                values: Seq::empty(),
            }),
    {
        let values: Vec<StorageMapValue> = Vec::new();
        assert(values_view(values@) =~= Seq::empty());
        StorageMapReconstruction {
            account_id,
            slot_name,
            block_num,
            entries_limit,
            max_entries,
            last_block_included: None,
            values,
        }
    }

    /// The page that is needed next.
    pub fn query(&self) -> (query: StorageMapQuery)
        ensures
            query.account_id@ == self@.account_id,
            query.block_range.start == self@.first_block(),
            query.block_range.start == (match self@.last_block_included {
                Some(last) => last + 1,
                None => 0int,
            }),
            query.block_range.end == self@.block_num,
            query.entries_limit == self@.entries_limit,
    {
        proof {
            use_type_invariant(self);
        }
        let first_block: u32 = match self.last_block_included {
            None => 0,
            Some(last) => last + 1,
        };
        StorageMapQuery {
            account_id: self.account_id,
            block_range: BlockRange { start: first_block, end: self.block_num },
            entries_limit: self.entries_limit,
        }
    }

    /// Takes the page that was asked for.
    ///
    /// If it does not cover the block in question, there has to be a block after it.
    pub fn on_page(self, page: StorageMapValuesPage) -> (step: ReconstructionStep)
        requires
            page.last_block_included < u32::MAX || page.last_block_included == self@.block_num,
        ensures
            is_step(step, self@, page@),
            step matches ReconstructionStep::Continue(next) ==> page.last_block_included
                != self@.block_num && next@.last_block_included == Some(page.last_block_included)
                && next@.values == self@.values + page@.values && next@.account_id
                == self@.account_id && next@.slot_name == self@.slot_name && next@.block_num
                == self@.block_num && next@.entries_limit == self@.entries_limit
                && next@.max_entries == self@.max_entries,
            step matches ReconstructionStep::Done(details) ==> details.slot_name@
                == self@.slot_name,
            self@.last_block_included is Some && page.last_block_included
                <= self@.last_block_included->Some_0 ==> (step matches ReconstructionStep::Done(
                details,
            ) && details.entries is LimitExceeded),
            self@.last_block_included is None && page.values@.len() == 0
                && page.last_block_included == 0 && (self@.block_num != 0 || page.values_left_out)
                ==> (step matches ReconstructionStep::Done(details)
                && details.entries is LimitExceeded),
            step is Done && page.last_block_included != self@.block_num
                ==> self@.last_block_included is Some || page.last_block_included == 0,
    {
        let stuck = match self.last_block_included {
            None => page.values.len() == 0 && page.last_block_included == 0 && (self.block_num != 0
                || page.values_left_out),
            Some(last) => page.last_block_included <= last,
        };
        if stuck {
            return ReconstructionStep::Done(
                AccountStorageMapDetails::limit_exceeded(self.slot_name),
            );
        }
        let mut values = self.values;
        let mut more = page.values;
        let ghost received = values_view(values@) + values_view(more@);
        values.append(&mut more);
        assert(values_view(values@) =~= received);
        if page.last_block_included == self.block_num {
            return ReconstructionStep::Done(
                storage_map_details(&values, self.slot_name, self.max_entries),
            );
        }
        ReconstructionStep::Continue(
            StorageMapReconstruction {
                account_id: self.account_id,
                slot_name: self.slot_name,
                block_num: self.block_num,
                entries_limit: self.entries_limit,
                max_entries: self.max_entries,
                last_block_included: Some(page.last_block_included),
                values,
            },
        )
    }

    /// Takes what came of the request for a page. If the page could not be read, the reconstruction is
    /// over and the error is reported as it is.
    pub fn on_result<E>(self, page: Result<StorageMapValuesPage, E>) -> (step: Result<
        ReconstructionStep,
        E,
    >)
        requires
            page matches Ok(p) ==> p.last_block_included < u32::MAX || p.last_block_included
                == self@.block_num,
        ensures
            match page {
                Ok(p) => step matches Ok(s) && is_step(s, self@, p@),
                Err(e) => step == Err::<ReconstructionStep, _>(e),
            },
    {
        match page {
            Ok(page) => Ok(self.on_page(page)),
            Err(error) => Err(error),
        }
    }
}

} // verus!
