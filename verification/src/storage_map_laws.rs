//! What holds of the reconstruction of storage maps as a whole.

use crate::storage_map;
use crate::storage_map::{
    AccountStorageMapDetails, Outcome, ReconstructionStep, StorageMapEntries,
    StorageMapEntriesView, StorageMapReconstructionView, StorageMapValue, StorageMapValueView, StorageMapValuesPage,
    StorageMapValuesPageView,
};
use crate::word;
use crate::word::Word;
use vstd::prelude::*;

verus! {

// ENTRIES
// ------------------------------------------------------------------------------------------------

/// There is only one way to list the entries of a storage map.
pub proof fn law_listing_is_unique(
    a: Seq<(Seq<u64>, Seq<u64>)>,
    b: Seq<(Seq<u64>, Seq<u64>)>,
    map: Map<Seq<u64>, Seq<u64>>,
)
    requires
        storage_map::lists(a, map),
        storage_map::lists(b, map),
    ensures
        a == b,
{
    storage_map::lemma_listed_len(a, map);
    storage_map::lemma_listed_len(b, map);
    assert forall|i: int| 0 <= i < a.len() implies a[i] == b[i] by {
        lemma_listings_agree(a, b, map, i);
    }
    assert(a =~= b);
}

proof fn lemma_listings_agree(
    a: Seq<(Seq<u64>, Seq<u64>)>,
    b: Seq<(Seq<u64>, Seq<u64>)>,
    map: Map<Seq<u64>, Seq<u64>>,
    i: int,
)
    requires
        storage_map::lists(a, map),
        storage_map::lists(b, map),
        a.len() == b.len(),
        0 <= i < a.len(),
    ensures
        a[i] == b[i],
    decreases i,
{
    assert forall|j: int| 0 <= j < i implies a[j] == b[j] by {
        lemma_listings_agree(a, b, map, j);
    }
    word::lemma_word_order(a[i].0, b[i].0, a[i].0);
    assert(map.contains_key(a[i].0) && map.contains_key(b[i].0));
    let j = choose|j: int| 0 <= j < b.len() && (#[trigger] b[j]).0 == a[i].0;
    let k = choose|k: int| 0 <= k < a.len() && (#[trigger] a[k]).0 == b[i].0;
    if j < i {
        assert(word::word_before(a[j].0, a[i].0));
    }
    if k < i {
        word::lemma_word_order(b[i].0, b[i].0, b[i].0);
        assert(word::word_before(b[k].0, b[i].0));
    }
    if j > i && k > i {
        assert(word::word_before(b[i].0, b[j].0));
        assert(word::word_before(a[i].0, a[k].0));
    }
    assert(a[i].0 == b[i].0);
    assert(map[a[i].0] == a[i].1 && map[b[i].0] == b[i].1);
}

/// Whether the value in place `i` is written to the key in the slot.
pub open spec fn writes(
    values: Seq<StorageMapValueView>,
    slot_name: Seq<char>,
    key: Seq<u64>,
    i: int,
) -> bool {
    0 <= i < values.len() && values[i].slot_name == slot_name && values[i].key == key
}

/// A key has a value exactly if some value was written to it in the slot.
pub proof fn law_written_keys_have_values(
    values: Seq<StorageMapValueView>,
    slot_name: Seq<char>,
    key: Seq<u64>,
)
    ensures
        storage_map::latest(values, slot_name).contains_key(key) <==> exists|i: int| #[trigger]
            writes(values, slot_name, key, i),
    decreases values.len(),
{
    if values.len() > 0 {
        let before = values.drop_last();
        law_written_keys_have_values(before, slot_name, key);
        assert forall|i: int| #[trigger] writes(before, slot_name, key, i) implies writes(
            values,
            slot_name,
            key,
            i,
        ) by {}
        assert forall|i: int| #[trigger] writes(values, slot_name, key, i) implies i == values.len()
            - 1 || writes(before, slot_name, key, i) by {}
        let found = storage_map::latest(values, slot_name);
        if found.contains_key(key) && storage_map::latest(before, slot_name).contains_key(key) {
            let i = choose|i: int| #[trigger] writes(before, slot_name, key, i);
            assert(writes(values, slot_name, key, i));
        } else if found.contains_key(key) {
            assert(writes(values, slot_name, key, values.len() - 1));
        }
    }
}

/// The value of a key is the last one that was written to it in the slot.
pub proof fn law_last_value_counts(
    values: Seq<StorageMapValueView>,
    slot_name: Seq<char>,
    key: Seq<u64>,
    i: int,
)
    requires
        writes(values, slot_name, key, i),
        forall|j: int| i < j < values.len() ==> !#[trigger] writes(values, slot_name, key, j),
    ensures
        storage_map::latest(values, slot_name).contains_key(key),
        storage_map::latest(values, slot_name)[key] == values[i].value,
    decreases values.len(),
{
    let before = values.drop_last();
    if i < values.len() - 1 {
        assert(!writes(values, slot_name, key, values.len() - 1));
        assert forall|j: int| i < j < before.len() implies !#[trigger] writes(
            before,
            slot_name,
            key,
            j,
        ) by {
            assert(!writes(values, slot_name, key, j));
        }
        law_last_value_counts(before, slot_name, key, i);
    }
}

/// What is written to other slots does not matter.
pub proof fn law_other_slots_do_not_matter(
    values: Seq<StorageMapValueView>,
    slot_name: Seq<char>,
)
    ensures
        storage_map::latest(values, slot_name) == storage_map::latest(
            values.filter(|value: StorageMapValueView| value.slot_name == slot_name),
            slot_name,
        ),
    decreases values.len(),
{
    reveal(Seq::filter);
    let of_slot = |value: StorageMapValueView| value.slot_name == slot_name;
    if values.len() > 0 {
        law_other_slots_do_not_matter(values.drop_last(), slot_name);
        let kept = values.drop_last().filter(of_slot);
        if of_slot(values.last()) {
            assert(kept.push(values.last()).drop_last() =~= kept);
        }
    }
}

/// No entry that is told has the empty word for its value.
pub proof fn law_removed_entries_are_not_listed(
    entries: Seq<(Seq<u64>, Seq<u64>)>,
    values: Seq<StorageMapValueView>,
    slot_name: Seq<char>,
)
    requires
        storage_map::lists(
            entries,
            storage_map::present(storage_map::latest(values, slot_name)),
        ),
    ensures
        forall|i: int|
            0 <= i < entries.len() ==> (#[trigger] entries[i]).1 != word::empty_word(),
{
}

/// An entry is present exactly if its value is not the word of four zeroes, and then with its value.
pub proof fn law_entry_is_present_unless_empty(
    entries: Map<Seq<u64>, Seq<u64>>,
    key: Seq<u64>,
)
    ensures
        storage_map::present(entries).contains_key(key) <==> entries.contains_key(key)
            && entries[key] != seq![0u64, 0, 0, 0],
        storage_map::present(entries).contains_key(key) ==> storage_map::present(entries)[key]
            == entries[key],
{
}

/// A key whose last value in the slot is the one in place `i` is listed exactly if that value is not
/// the word of four zeroes, and then with that value and no other.
pub proof fn law_key_is_listed_with_its_last_value(
    details: AccountStorageMapDetails,
    values: Seq<StorageMapValueView>,
    slot_name: Seq<char>,
    max_entries: usize,
    listed: Seq<(Seq<u64>, Seq<u64>)>,
    i: int,
)
    requires
        storage_map::are_details(details, values, slot_name, max_entries),
        details.entries@ == StorageMapEntriesView::AllEntries(listed),
        0 <= i < values.len(),
        values[i].slot_name == slot_name,
        forall|j: int|
            i < j < values.len() ==> (#[trigger] values[j]).slot_name != slot_name || values[j].key
                != values[i].key,
    ensures
        (exists|k: int| 0 <= k < listed.len() && (#[trigger] listed[k]).0 == values[i].key)
            <==> values[i].value != seq![0u64, 0, 0, 0],
        forall|k: int|
            0 <= k < listed.len() && (#[trigger] listed[k]).0 == values[i].key ==> listed[k].1
                == values[i].value,
{
    let key = values[i].key;
    let entries = storage_map::latest(values, slot_name);
    assert(writes(values, slot_name, key, i));
    law_last_value_counts(values, slot_name, key, i);
    law_entry_is_present_unless_empty(entries, key);
    assert forall|k: int| 0 <= k < listed.len() && (#[trigger] listed[k]).0 == key implies listed[k].1
        == values[i].value && storage_map::present(entries).contains_key(key) by {
        assert(storage_map::present(entries).contains_key(listed[k].0));
    }
}

/// Every entry that is listed has a key that was written in the slot, with the last value that was
/// written to it, which is not the word of four zeroes.
pub proof fn law_listed_entries_were_written_last(
    details: AccountStorageMapDetails,
    values: Seq<StorageMapValueView>,
    slot_name: Seq<char>,
    max_entries: usize,
    listed: Seq<(Seq<u64>, Seq<u64>)>,
    k: int,
)
    requires
        storage_map::are_details(details, values, slot_name, max_entries),
        details.entries@ == StorageMapEntriesView::AllEntries(listed),
        0 <= k < listed.len(),
    ensures
        details.slot_name@ == slot_name,
        listed[k].1 != seq![0u64, 0, 0, 0],
        exists|i: int|
            0 <= i < values.len() && (#[trigger] values[i]).slot_name == slot_name && values[i].key
                == listed[k].0 && values[i].value == listed[k].1 && forall|j: int|
                i < j < values.len() ==> (#[trigger] values[j]).slot_name != slot_name
                    || values[j].key != values[i].key,
{
    let key = listed[k].0;
    let entries = storage_map::latest(values, slot_name);
    assert(storage_map::present(entries).contains_key(key));
    law_entry_is_present_unless_empty(entries, key);
    let i = lemma_last_write(values, slot_name, key);
    assert forall|j: int| i < j < values.len() implies !#[trigger] writes(
        values,
        slot_name,
        key,
        j,
    ) by {
        assert(values[j].slot_name != slot_name || values[j].key != key);
    }
    law_last_value_counts(values, slot_name, key, i);
    assert(values[i].value == listed[k].1);
}

/// A key that has a value was written for a last time.
proof fn lemma_last_write(
    values: Seq<StorageMapValueView>,
    slot_name: Seq<char>,
    key: Seq<u64>,
) -> (i: int)
    requires
        storage_map::latest(values, slot_name).contains_key(key),
    ensures
        writes(values, slot_name, key, i),
        forall|j: int|
            i < j < values.len() ==> (#[trigger] values[j]).slot_name != slot_name || values[j].key
                != key,
    decreases values.len(),
{
    let last = values.len() - 1;
    if values[last].slot_name == slot_name && values[last].key == key {
        last
    } else {
        let before = values.drop_last();
        let i = lemma_last_write(before, slot_name, key);
        assert forall|j: int| i < j < values.len() implies (#[trigger] values[j]).slot_name
            != slot_name || values[j].key != key by {
            if j < last {
                assert(before[j] == values[j]);
            }
        }
        i
    }
}

/// No key is listed twice, and the keys are listed in the order of words.
pub proof fn law_keys_are_listed_once_in_order(
    details: AccountStorageMapDetails,
    values: Seq<StorageMapValueView>,
    slot_name: Seq<char>,
    max_entries: usize,
    listed: Seq<(Seq<u64>, Seq<u64>)>,
    k: int,
    l: int,
)
    requires
        storage_map::are_details(details, values, slot_name, max_entries),
        details.entries@ == StorageMapEntriesView::AllEntries(listed),
        0 <= k < l < listed.len(),
    ensures
        listed[k].0 != listed[l].0,
        word::word_before(listed[k].0, listed[l].0),
{
    word::lemma_word_order(listed[k].0, listed[k].0, listed[k].0);
    assert(word::word_before(listed[k].0, listed[l].0));
}

/// That there are too many entries is told only where it is so: any list of all keys whose last value
/// in the slot is not the word of four zeroes is longer than may be told.
pub proof fn law_too_many_entries_are_too_many(
    details: AccountStorageMapDetails,
    values: Seq<StorageMapValueView>,
    slot_name: Seq<char>,
    max_entries: usize,
    keys: Seq<Seq<u64>>,
)
    requires
        storage_map::are_details(details, values, slot_name, max_entries),
        details.entries@ is LimitExceeded,
        forall|i: int|
            0 <= i < values.len() && (#[trigger] values[i]).slot_name == slot_name
                && values[i].value != seq![0u64, 0, 0, 0] && (forall|j: int|
                i < j < values.len() ==> (#[trigger] values[j]).slot_name != slot_name
                    || values[j].key != values[i].key) ==> keys.contains(values[i].key),
    ensures
        keys.len() > max_entries,
{
    let entries = storage_map::latest(values, slot_name);
    let there = storage_map::present(entries).dom();
    assert forall|key: Seq<u64>| there.contains(key) implies keys.to_set().contains(key) by {
        law_entry_is_present_unless_empty(entries, key);
        let i = lemma_last_write(values, slot_name, key);
        assert forall|j: int| i < j < values.len() implies !#[trigger] writes(
            values,
            slot_name,
            key,
            j,
        ) by {
            assert(values[j].slot_name != slot_name || values[j].key != key);
        }
        law_last_value_counts(values, slot_name, key, i);
        assert(keys.contains(values[i].key));
    }
    keys.lemma_cardinality_of_set();
    vstd::set_lib::lemma_len_subset(there, keys.to_set());
}

/// Pages, values and entries are seen part by part as they are.
pub proof fn law_values_are_seen_as_they_are(
    page: StorageMapValuesPage,
    told: StorageMapEntries,
    values: Seq<StorageMapValue>,
    entries: Seq<(Word, Word)>,
)
    ensures
        match told {
            StorageMapEntries::AllEntries(all) => told@ == StorageMapEntriesView::AllEntries(
                storage_map::entries_view(all@),
            ),
            StorageMapEntries::LimitExceeded => told@ is LimitExceeded,
        },
        page@.last_block_included == page.last_block_included,
        page@.values_left_out == page.values_left_out,
        page@.values == storage_map::values_view(page.values@),
        storage_map::values_view(values).len() == values.len(),
        forall|i: int|
            0 <= i < values.len() ==> {
                &&& (#[trigger] storage_map::values_view(values)[i]).block_num
                    == values[i].block_num
                &&& storage_map::values_view(values)[i].slot_name == values[i].slot_name@
                &&& storage_map::values_view(values)[i].key == values[i].key@
                &&& storage_map::values_view(values)[i].value == values[i].value@
            },
        storage_map::entries_view(entries).len() == entries.len(),
        forall|i: int|
            0 <= i < entries.len() ==> #[trigger] storage_map::entries_view(entries)[i] == (
                entries[i].0@,
                entries[i].1@,
            ),
{
}

/// No more entries are told than may be told, and none are told exactly if there are more than that.
pub proof fn law_limit_is_kept(
    details: AccountStorageMapDetails,
    values: Seq<StorageMapValueView>,
    slot_name: Seq<char>,
    max_entries: usize,
)
    requires
        storage_map::are_details(details, values, slot_name, max_entries),
    ensures
        details.entries@ matches StorageMapEntriesView::AllEntries(listed) ==> listed.len()
            <= max_entries,
        details.entries@ is LimitExceeded <==> storage_map::present(
            storage_map::latest(values, slot_name),
        ).dom().len() > max_entries,
{
    match details.entries@ {
        StorageMapEntriesView::AllEntries(listed) => {
            storage_map::lemma_listed_len(
                listed,
                storage_map::present(storage_map::latest(values, slot_name)),
            );
        },
        StorageMapEntriesView::LimitExceeded => {},
    }
}

// PAGES
// ------------------------------------------------------------------------------------------------

/// What follows from pages that come one after another.
pub open spec fn after_pages(
    state: StorageMapReconstructionView,
    pages: Seq<StorageMapValuesPageView>,
) -> Outcome
    decreases pages.len(),
{
    if pages.len() == 0 {
        Outcome::Continue(state)
    } else {
        match storage_map::after_page(state, pages[0]) {
            Outcome::Continue(next) => after_pages(next, pages.skip(1)),
            outcome => outcome,
        }
    }
}

/// The values of a history that belong to the blocks from the first to the last.
pub open spec fn of_blocks(
    history: Seq<StorageMapValueView>,
    first: int,
    last: int,
) -> Seq<StorageMapValueView> {
    history.filter(|value: StorageMapValueView| first <= value.block_num <= last)
}

/// Whether the values of a history stand in the order of their blocks.
pub open spec fn in_block_order(history: Seq<StorageMapValueView>) -> bool {
    forall|i: int, j: int|
        0 <= i <= j < history.len() ==> (#[trigger] history[i]).block_num <= (
        #[trigger] history[j]).block_num
}

/// Whether every page holds what the history has for the blocks that the page covers: those from the
/// first one that was asked for to the last one that it includes. A page that ends the reconstruction
/// because it covers nothing may hold anything.
pub open spec fn answered_from(
    history: Seq<StorageMapValueView>,
    state: StorageMapReconstructionView,
    pages: Seq<StorageMapValuesPageView>,
) -> bool
    decreases pages.len(),
{
    pages.len() > 0 && !(storage_map::after_page(state, pages[0]) is LimitExceeded) ==> {
        &&& pages[0].values == of_blocks(
            history,
            state.first_block(),
            pages[0].last_block_included as int,
        )
        &&& storage_map::after_page(state, pages[0]) matches Outcome::Continue(next)
            ==> answered_from(history, next, pages.skip(1))
    }
}

/// Whether the state is that of a reconstruction that has no page yet.
pub open spec fn is_fresh(state: StorageMapReconstructionView) -> bool {
    state.last_block_included is None && state.values.len() == 0
}

/// Every page that asks for another one brings the reconstruction forward.
pub proof fn law_pages_advance(
    state: StorageMapReconstructionView,
    page: StorageMapValuesPageView,
)
    ensures
        storage_map::after_page(state, page) matches Outcome::Continue(next) ==> next.first_block()
            > state.first_block() && next.block_num == state.block_num && next.slot_name
            == state.slot_name,
{
}

/// A page that does not reach beyond the pages before it, or that is the first and covers the genesis
/// block alone with nothing to show for it, ends the reconstruction without entries, unless there is
/// nothing to show as of the genesis block itself. Any other page adds its values to those before it
/// and moves the last covered block, and nothing else; it completes the reconstruction exactly if it
/// covers the block in question.
pub proof fn law_page_adds_its_values(
    state: StorageMapReconstructionView,
    page: StorageMapValuesPageView,
)
    ensures
        storage_map::after_page(state, page) is LimitExceeded <==> match state.last_block_included {
            Some(last) => page.last_block_included <= last,
            None => page.last_block_included == 0 && page.values.len() == 0 && !(state.block_num
                == 0 && !page.values_left_out),
        },
        storage_map::after_page(state, page) matches Outcome::Complete(values)
            ==> page.last_block_included == state.block_num && values == state.values + page.values,
        storage_map::after_page(state, page) matches Outcome::Continue(next) ==> {
            &&& page.last_block_included != state.block_num
            &&& next.last_block_included == Some(page.last_block_included)
            &&& next.first_block() == page.last_block_included + 1
            &&& next.values == state.values + page.values
            &&& next.account_id == state.account_id
            &&& next.slot_name == state.slot_name
            &&& next.block_num == state.block_num
            &&& next.entries_limit == state.entries_limit
            &&& next.max_entries == state.max_entries
        },
        is_fresh(state) ==> state.first_block() == 0,
{
}

/// A step ends the reconstruction exactly if the page does: with all entries only where the page
/// completes it, and for the slot in question; a step that goes on keeps what the page leaves.
pub proof fn law_step_follows_from_the_page(
    step: ReconstructionStep,
    state: StorageMapReconstructionView,
    page: StorageMapValuesPageView,
)
    requires
        storage_map::is_step(step, state, page),
    ensures
        step is Continue <==> storage_map::after_page(state, page) is Continue,
        step matches ReconstructionStep::Continue(next) ==> Outcome::Continue(next@)
            == storage_map::after_page(state, page),
        step matches ReconstructionStep::Done(details) ==> details.slot_name@ == state.slot_name,
        step is Done && storage_map::after_page(state, page) is LimitExceeded
            ==> step->Done_0.entries is LimitExceeded,
        step is Done && step->Done_0.entries is AllEntries ==> storage_map::after_page(
            state,
            page,
        ) is Complete,
        storage_map::after_page(state, page) is Complete ==> step is Done
            && page.last_block_included == state.block_num && storage_map::are_details(
            step->Done_0,
            state.values + page.values,
            state.slot_name,
            state.max_entries,
        ),
{
}

/// There are never more queries than there are blocks up to the one in question, as long as no page
/// goes beyond it.
pub proof fn law_reconstruction_ends(
    state: StorageMapReconstructionView,
    pages: Seq<StorageMapValuesPageView>,
)
    requires
        state.first_block() <= state.block_num,
        forall|i: int|
            0 <= i < pages.len() ==> (#[trigger] pages[i]).last_block_included
                <= state.block_num,
        pages.len() > state.block_num - state.first_block(),
    ensures
        !(after_pages(state, pages) is Continue),
    decreases pages.len(),
{
    match storage_map::after_page(state, pages[0]) {
        Outcome::Continue(next) => {
            let rest = pages.skip(1);
            assert forall|i: int| 0 <= i < rest.len() implies (
            #[trigger] rest[i]).last_block_included <= next.block_num by {
                assert(rest[i] == pages[i + 1]);
            }
            law_reconstruction_ends(next, rest);
        },
        _ => {},
    }
}

/// If every page holds what the history has for its blocks, a reconstruction that completes has seen
/// the history up to the block in question, without gap or repetition.
pub proof fn law_reconstruction_is_complete(
    history: Seq<StorageMapValueView>,
    state: StorageMapReconstructionView,
    pages: Seq<StorageMapValuesPageView>,
)
    requires
        in_block_order(history),
        is_fresh(state),
        answered_from(history, state, pages),
    ensures
        after_pages(state, pages) matches Outcome::Complete(values) ==> values == of_blocks(
            history,
            0,
            state.block_num as int,
        ),
{
    lemma_nothing_before_genesis(history);
    assert(state.values =~= of_blocks(history, 0, -1));
    lemma_pages_accumulate(history, state, pages);
}

/// An account without values as of the genesis block has a storage map without entries, and that is
/// told whatever the limit is.
pub proof fn law_no_values_at_genesis(
    state: StorageMapReconstructionView,
    page: StorageMapValuesPageView,
    details: AccountStorageMapDetails,
)
    requires
        is_fresh(state),
        state.block_num == 0,
        page.values.len() == 0,
        page.last_block_included == 0,
        !page.values_left_out,
        storage_map::are_details(details, page.values, state.slot_name, state.max_entries),
    ensures
        storage_map::after_page(state, page) == Outcome::Complete(page.values),
        details.entries@ == StorageMapEntriesView::AllEntries(Seq::empty()),
{
    assert(state.values + page.values =~= page.values);
    let entries = storage_map::present(storage_map::latest(page.values, state.slot_name));
    assert(entries.dom() =~= Set::empty());
    match details.entries@ {
        StorageMapEntriesView::AllEntries(listed) => {
            storage_map::lemma_listed_len(listed, entries);
            assert(listed =~= Seq::empty());
        },
        StorageMapEntriesView::LimitExceeded => {},
    }
}

/// It does not matter how the history is cut into pages: two reconstructions of the same history
/// that complete have seen the same values.
pub proof fn law_paging_does_not_matter(
    history: Seq<StorageMapValueView>,
    state: StorageMapReconstructionView,
    pages: Seq<StorageMapValuesPageView>,
    other_pages: Seq<StorageMapValuesPageView>,
)
    requires
        in_block_order(history),
        is_fresh(state),
        answered_from(history, state, pages),
        answered_from(history, state, other_pages),
        after_pages(state, pages) is Complete,
        after_pages(state, other_pages) is Complete,
    ensures
        after_pages(state, pages) == after_pages(state, other_pages),
{
    law_reconstruction_is_complete(history, state, pages);
    law_reconstruction_is_complete(history, state, other_pages);
}

/// The details that a completed reconstruction gives are those of the storage map as of the block in
/// question: of every key in the slot that was written up to that block and not removed since, the
/// last value, unless there are more of them than may be told.
pub proof fn law_details_are_as_of_the_block(
    history: Seq<StorageMapValueView>,
    state: StorageMapReconstructionView,
    pages: Seq<StorageMapValuesPageView>,
    values: Seq<StorageMapValueView>,
    details: AccountStorageMapDetails,
)
    requires
        in_block_order(history),
        is_fresh(state),
        answered_from(history, state, pages),
        after_pages(state, pages) == Outcome::Complete(values),
        storage_map::are_details(details, values, state.slot_name, state.max_entries),
    ensures
        storage_map::are_details(
            details,
            of_blocks(history, 0, state.block_num as int),
            state.slot_name,
            state.max_entries,
        ),
{
    law_reconstruction_is_complete(history, state, pages);
}

proof fn lemma_pages_accumulate(
    history: Seq<StorageMapValueView>,
    state: StorageMapReconstructionView,
    pages: Seq<StorageMapValuesPageView>,
)
    requires
        in_block_order(history),
        state.values == of_blocks(history, 0, state.first_block() - 1),
        answered_from(history, state, pages),
    ensures
        after_pages(state, pages) matches Outcome::Complete(values) ==> values == of_blocks(
            history,
            0,
            state.block_num as int,
        ),
    decreases pages.len(),
{
    if pages.len() > 0 {
        let last = pages[0].last_block_included as int;
        if last >= state.first_block() - 1 {
            lemma_blocks_join(history, state.first_block(), last);
        }
        match storage_map::after_page(state, pages[0]) {
            Outcome::Continue(next) => {
                lemma_pages_accumulate(history, next, pages.skip(1));
            },
            _ => {},
        }
    }
}

proof fn lemma_nothing_before_genesis(history: Seq<StorageMapValueView>)
    ensures
        of_blocks(history, 0, -1).len() == 0,
    decreases history.len(),
{
    reveal(Seq::filter);
    if history.len() > 0 {
        lemma_nothing_before_genesis(history.drop_last());
    }
}

proof fn lemma_nothing_after_the_end(history: Seq<StorageMapValueView>, first: int, last: int)
    requires
        forall|i: int| 0 <= i < history.len() ==> (#[trigger] history[i]).block_num < first,
    ensures
        of_blocks(history, first, last).len() == 0,
    decreases history.len(),
{
    reveal(Seq::filter);
    if history.len() > 0 {
        lemma_nothing_after_the_end(history.drop_last(), first, last);
    }
}

proof fn lemma_blocks_join(history: Seq<StorageMapValueView>, middle: int, last: int)
    requires
        in_block_order(history),
        0 <= middle <= last + 1,
    ensures
        of_blocks(history, 0, middle - 1) + of_blocks(history, middle, last) == of_blocks(
            history,
            0,
            last,
        ),
    decreases history.len(),
{
    reveal(Seq::filter);
    let front = of_blocks(history, 0, middle - 1);
    let back = of_blocks(history, middle, last);
    let whole = of_blocks(history, 0, last);
    if history.len() == 0 {
        assert(front + back =~= whole);
    } else {
        let before = history.drop_last();
        assert(in_block_order(before)) by {
            assert forall|i: int, j: int| 0 <= i <= j < before.len() implies (
            #[trigger] before[i]).block_num <= (#[trigger] before[j]).block_num by {
                assert(before[i] == history[i] && before[j] == history[j]);
            }
        }
        lemma_blocks_join(before, middle, last);
        if history.last().block_num < middle {
            assert forall|i: int| 0 <= i < history.len() implies (#[trigger] history[i]).block_num
                < middle by {
                assert(history[i].block_num <= history[history.len() - 1].block_num);
            }
            lemma_nothing_after_the_end(history, middle, last);
            lemma_nothing_after_the_end(before, middle, last);
            assert(of_blocks(before, middle, last) =~= Seq::empty());
            assert(back =~= Seq::empty());
        }
        assert(front + back =~= whole);
    }
}

} // verus!
