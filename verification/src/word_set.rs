//! Sets of words.

use crate::word;
use crate::word::{Word, WordOrder};
use vstd::prelude::*;

verus! {

/// A set of words, kept in the order of words.
#[derive(Debug, PartialEq, Eq)]
pub struct WordSet {
    words: Vec<Word>,
}

/// Whether words increase.
pub open spec fn increasing(words: Seq<Word>) -> bool {
    forall|i: int, j: int|
        0 <= i < j < words.len() ==> word::word_before(
            (#[trigger] words[i])@,
            (#[trigger] words[j])@,
        )
}

impl View for WordSet {
    type V = Set<Word>;

    closed spec fn view(&self) -> Set<Word> {
        self.words@.to_set()
    }
}

impl WordSet {
    #[verifier::type_invariant]
    closed spec fn ordered(self) -> bool {
        increasing(self.words@)
    }

    /// The empty set.
    pub fn new() -> (set: Self)
        ensures
            set@ == Set::<Word>::empty(),
    {
        let words: Vec<Word> = Vec::new();
        assert(words@.to_set() =~= Set::empty());
        WordSet { words }
    }

    /// Adds a word. Returns whether it was not in the set before.
    pub fn insert(&mut self, added: Word) -> (is_new: bool)
        ensures
            final(self)@ == old(self)@.insert(added),
            is_new == !old(self)@.contains(added),
    {
        proof {
            use_type_invariant(&*self);
        }
        let mut place: usize = 0;
        while place < self.words.len()
            invariant
                place <= self.words@.len(),
                *self == *old(self),
                forall|i: int|
                    0 <= i < place ==> word::word_before((#[trigger] self.words@[i])@, added@),
            ensures
                place <= self.words@.len(),
                *self == *old(self),
                place < self.words@.len() ==> word::word_before(
                    added@,
                    self.words@[place as int]@,
                ),
            decreases self.words.len() - place,
        {
            match self.words[place].order(&added) {
                WordOrder::Before => {
                    place = place + 1;
                },
                WordOrder::Same => {
                    assert(self.words@[place as int] == added);
                    assert(self@.contains(added));
                    assert(self@.insert(added) =~= self@);
                    return false;
                },
                WordOrder::After => {
                    break ;
                },
            }
        }
        proof {
            use_type_invariant(&*self);
        }
        let ghost before = self.words@;
        let mut words: Vec<Word> = Vec::new();
        std::mem::swap(&mut words, &mut self.words);
        words.insert(place, added);
        proof {
            lemma_word_inserted(before, place as int, added);
        }
        self.words = words;
        true
    }

    /// The words of the set, in order.
    pub fn into_words(self) -> (words: Vec<Word>)
        ensures
            increasing(words@),
            words@.to_set() == self@,
            words@.no_duplicates(),
            forall|i: int, j: int|
                0 <= i < j < words@.len() ==> word::word_before(
                    (#[trigger] words@[i])@,
                    (#[trigger] words@[j])@,
                ),
    {
        proof {
            use_type_invariant(&self);
            assert forall|i: int, j: int| 0 <= i < j < self.words@.len() implies self.words@[i]
                != self.words@[j] by {
                word::lemma_word_order(self.words@[i]@, self.words@[i]@, self.words@[i]@);
            }
        }
        self.words
    }
}

proof fn lemma_word_inserted(words: Seq<Word>, place: int, added: Word)
    requires
        increasing(words),
        0 <= place <= words.len(),
        forall|i: int| 0 <= i < place ==> word::word_before((#[trigger] words[i])@, added@),
        place < words.len() ==> word::word_before(added@, words[place]@),
    ensures
        increasing(words.insert(place, added)),
        words.insert(place, added).to_set() == words.to_set().insert(added),
        !words.contains(added),
{
    let now = words.insert(place, added);
    assert forall|i: int| place <= i < words.len() implies word::word_before(
        added@,
        (#[trigger] words[i])@,
    ) by {
        if i > place {
            word::lemma_word_order(added@, words[place]@, words[i]@);
        }
    }
    word::lemma_word_order(added@, added@, added@);
    assert forall|i: int, j: int| 0 <= i < j < now.len() implies word::word_before(
        (#[trigger] now[i])@,
        (#[trigger] now[j])@,
    ) by {
        if j < place {
            assert(now[i] == words[i] && now[j] == words[j]);
        } else if i > place {
            assert(now[i] == words[i - 1] && now[j] == words[j - 1]);
        } else if i < place && j > place {
            assert(now[i] == words[i] && now[j] == words[j - 1]);
        }
    }
    assert forall|w: Word| words.to_set().insert(added).contains(w) implies now.to_set().contains(
        w,
    ) by {
        if w == added {
            assert(now[place] == w);
        } else {
            let i = words.index_of(w);
            assert(words.contains(w));
            assert(now[if i < place { i } else { i + 1 }] == w);
        }
    }
    assert forall|w: Word| now.to_set().contains(w) implies words.to_set().insert(added).contains(
        w,
    ) by {
        let i = now.index_of(w);
        assert(now.contains(w));
        if i < place {
            assert(words[i] == w);
        } else if i > place {
            assert(words[i - 1] == w);
        }
    }
    assert(now.to_set() =~= words.to_set().insert(added));
}

} // verus!
