//! Words: four field elements, as stored, transmitted and ordered by the protocol.

use miden_protocol::utils::serde::Deserializable;
use miden_protocol::utils::serde::DeserializationError;
use std::cmp::Ordering;
use vstd::prelude::*;

verus! {

/// The order of the prime field, `2^64 - 2^32 + 1`.
pub const FIELD_MODULUS: u64 = 0xffff_ffff_0000_0001;

/// Four canonical field elements.
#[derive(Debug, Clone, Copy, PartialEq, Eq, Structural)]
pub struct Word {
    d0: u64,
    d1: u64,
    d2: u64,
    d3: u64,
}

impl View for Word {
    type V = Seq<u64>;

    closed spec fn view(&self) -> Seq<u64> {
        seq![self.d0, self.d1, self.d2, self.d3]
    }
}

/// Whether `elements` are four canonical field elements.
pub open spec fn is_word(elements: Seq<u64>) -> bool {
    &&& elements.len() == 4
    &&& forall|i: int| 0 <= i < 4 ==> #[trigger] elements[i] < FIELD_MODULUS
}

/// The word of four zeroes, which marks an absent value.
pub open spec fn empty_word() -> Seq<u64> {
    seq![0u64, 0, 0, 0]
}

/// The 32 bytes of a word: its elements in order, each in little-endian form.
pub open spec fn word_to_bytes(elements: Seq<u64>) -> Seq<u8> {
    vstd::bytes::spec_u64_to_le_bytes(elements[0]) + vstd::bytes::spec_u64_to_le_bytes(elements[1])
        + vstd::bytes::spec_u64_to_le_bytes(elements[2]) + vstd::bytes::spec_u64_to_le_bytes(
        elements[3],
    )
}

/// The elements that the first 32 bytes stand for, each in little-endian form.
pub open spec fn word_from_bytes(bytes: Seq<u8>) -> Seq<u64> {
    Seq::new(
        4,
        |i: int| vstd::bytes::spec_u64_from_le_bytes(bytes.subrange(8 * i, 8 * i + 8)),
    )
}

/// The Montgomery form of a field element: `x * 2^64` modulo the order of the field.
#[verifier::opaque]
pub open spec fn montgomery(x: u64) -> int {
    (x * 0x1_0000_0000_0000_0000int) % (FIELD_MODULUS as int)
}

/// The order of words: lexicographic in the Montgomery forms of the elements.
pub open spec fn word_before(a: Seq<u64>, b: Seq<u64>) -> bool {
    ||| montgomery(a[0]) < montgomery(b[0])
    ||| montgomery(a[0]) == montgomery(b[0]) && {
        ||| montgomery(a[1]) < montgomery(b[1])
        ||| montgomery(a[1]) == montgomery(b[1]) && {
            ||| montgomery(a[2]) < montgomery(b[2])
            ||| montgomery(a[2]) == montgomery(b[2]) && montgomery(a[3]) < montgomery(b[3])
        }
    }
}

/// How one word stands to another in the order of words.
#[derive(Debug, Clone, Copy, PartialEq, Eq, Structural)]
pub enum WordOrder {
    Before,
    Same,
    After,
}

impl Word {
    #[verifier::type_invariant]
    closed spec fn canonical(self) -> bool {
        is_word(self@)
    }

    /// The word with the given elements, if all of them are canonical.
    pub fn new(elements: [u64; 4]) -> (word: Option<Word>)
        ensures
            word is Some <==> is_word(elements@),
            word is Some <==> elements@[0] < 0xffff_ffff_0000_0001 && elements@[1]
                < 0xffff_ffff_0000_0001 && elements@[2] < 0xffff_ffff_0000_0001 && elements@[3]
                < 0xffff_ffff_0000_0001,
            word matches Some(w) ==> w@ == elements@,
    {
        if elements[0] < FIELD_MODULUS && elements[1] < FIELD_MODULUS && elements[2]
            < FIELD_MODULUS && elements[3] < FIELD_MODULUS {
            let ghost view = seq![elements@[0], elements@[1], elements@[2], elements@[3]];
            assert(view =~= elements@);
            Some(Word { d0: elements[0], d1: elements[1], d2: elements[2], d3: elements[3] })
        } else {
            None
        }
    }

    /// The word of four zeroes.
    pub fn empty() -> (word: Word)
        ensures
            word@ == empty_word(),
            word@ == seq![0u64, 0, 0, 0],
    {
        Word { d0: 0, d1: 0, d2: 0, d3: 0 }
    }

    /// Whether this is the word of four zeroes.
    pub fn is_empty(&self) -> (empty: bool)
        ensures
            empty == (self@ == empty_word()),
            empty <==> self@[0] == 0 && self@[1] == 0 && self@[2] == 0 && self@[3] == 0,
    {
        proof {
            assert(self@[0] == self.d0 && self@[1] == self.d1);
            assert(self@[2] == self.d2 && self@[3] == self.d3);
            if self.d0 == 0 && self.d1 == 0 && self.d2 == 0 && self.d3 == 0 {
                assert(self@ =~= empty_word());
            }
        }
        self.d0 == 0 && self.d1 == 0 && self.d2 == 0 && self.d3 == 0
    }

    /// The elements of the word.
    pub fn elements(&self) -> (elements: [u64; 4])
        ensures
            elements@ == self@,
            is_word(elements@),
    {
        proof {
            use_type_invariant(self);
        }
        let elements: [u64; 4] = [self.d0, self.d1, self.d2, self.d3];
        assert(elements@ =~= self@);
        elements
    }

    /// The 32 bytes of the word.
    pub fn to_bytes(&self) -> (bytes: Vec<u8>)
        ensures
            bytes@ == word_to_bytes(self@),
            bytes@.len() == 32,
    {
        let mut bytes = vstd::bytes::u64_to_le_bytes(self.d0);
        let mut next = vstd::bytes::u64_to_le_bytes(self.d1);
        bytes.append(&mut next);
        let mut next = vstd::bytes::u64_to_le_bytes(self.d2);
        bytes.append(&mut next);
        let mut next = vstd::bytes::u64_to_le_bytes(self.d3);
        bytes.append(&mut next);
        bytes
    }

    /// Reads a word from the first 32 bytes; whatever follows them is ignored.
    ///
    /// Returns `None` if there are fewer bytes, or if they hold an element that is not canonical.
    pub fn read_from_bytes(bytes: &Vec<u8>) -> (word: Option<Word>)
        ensures
            word is Some <==> (bytes@.len() >= 32 && is_word(word_from_bytes(bytes@))),
            word matches Some(w) ==> w@ == word_from_bytes(bytes@),
    {
        match read_word(bytes) {
            Ok(word) => Some(word),
            Err(_) => None,
        }
    }

    /// How this word stands to `other` in the order of words.
    pub fn order(&self, other: &Word) -> (order: WordOrder)
        ensures
            order is Before <==> word_before(self@, other@),
            order is Same <==> self == other,
            order is After <==> word_before(other@, self@),
    {
        proof {
            lemma_word_view_injective(*self, *other);
        }
        order_words(self, other)
    }
}

/// An error met while decoding bytes.
#[verifier::external_type_specification]
#[verifier::external_body]
pub struct ExDeserializationError(DeserializationError);

/// `miden_protocol::Word::read_from_bytes`.
///
/// Claimed: it reads four little-endian integers from the front of the slice, ignores what follows,
/// and fails exactly when there are fewer than 32 bytes or an integer is not below the order of the
/// field.
#[verifier::external_body]
fn read_word(bytes: &Vec<u8>) -> (res: Result<Word, DeserializationError>)
    ensures
        res is Ok <==> (bytes@.len() >= 32 && is_word(word_from_bytes(bytes@))),
        res matches Ok(w) ==> w@ == word_from_bytes(bytes@),
{
    let word = miden_protocol::Word::read_from_bytes(bytes)?;
    Ok(
        Word {
            d0: word[0].as_int(),
            d1: word[1].as_int(),
            d2: word[2].as_int(),
            d3: word[3].as_int(),
        },
    )
}

/// `<miden_protocol::Word as Ord>::cmp`.
///
/// Claimed: it compares the elements in order by the integers that represent them internally, which
/// are their Montgomery forms, and the first difference decides.
#[verifier::external_body]
fn order_words(a: &Word, b: &Word) -> (order: WordOrder)
    ensures
        order is Before <==> word_before(a@, b@),
        order is Same <==> a@ == b@,
        order is After <==> word_before(b@, a@),
{
    let felt = miden_protocol::Felt::new;
    let a = miden_protocol::Word::new([felt(a.d0), felt(a.d1), felt(a.d2), felt(a.d3)]);
    let b = miden_protocol::Word::new([felt(b.d0), felt(b.d1), felt(b.d2), felt(b.d3)]);
    match a.cmp(&b) {
        Ordering::Less => WordOrder::Before,
        Ordering::Equal => WordOrder::Same,
        Ordering::Greater => WordOrder::After,
    }
}

/// Words with the same elements are the same word.
pub proof fn lemma_word_view_injective(a: Word, b: Word)
    ensures
        a@ == b@ <==> a == b,
{
    assert(a@[0] == a.d0 && a@[1] == a.d1 && a@[2] == a.d2 && a@[3] == a.d3);
    assert(b@[0] == b.d0 && b@[1] == b.d1 && b@[2] == b.d2 && b@[3] == b.d3);
}

/// The order of words is transitive, and no word stands before itself.
pub proof fn lemma_word_order(a: Seq<u64>, b: Seq<u64>, c: Seq<u64>)
    ensures
        !word_before(a, a),
        word_before(a, b) && word_before(b, c) ==> word_before(a, c),
{
}

/// What [`Word::to_bytes`] writes, [`Word::read_from_bytes`] reads back, whatever follows it.
pub proof fn law_word_round_trip(elements: Seq<u64>, rest: Seq<u8>)
    requires
        is_word(elements),
    ensures
        word_to_bytes(elements).len() == 32,
        word_from_bytes(word_to_bytes(elements) + rest) == elements,
{
    vstd::bytes::lemma_auto_spec_u64_to_from_le_bytes();
    let bytes = word_to_bytes(elements) + rest;
    assert forall|i: int| 0 <= i < 4 implies word_from_bytes(bytes)[i] == #[trigger] elements[i] by {
        assert(bytes.subrange(8 * i, 8 * i + 8) =~= vstd::bytes::spec_u64_to_le_bytes(elements[i]));
    }
    assert(word_from_bytes(bytes) =~= elements);
}

/// Different field elements have different Montgomery forms.
proof fn lemma_montgomery_injective(x: u64, y: u64)
    requires
        x < FIELD_MODULUS,
        y < FIELD_MODULUS,
        montgomery(x) == montgomery(y),
    ensures
        x == y,
{
    reveal(montgomery);
    let p = 0xffff_ffff_0000_0001int;
    let a = x * 0x1_0000_0000_0000_0000int;
    let b = y * 0x1_0000_0000_0000_0000int;
    let difference = x - y;
    let quotient = a / p - b / p;
    assert(difference * 0x1_0000_0000_0000_0000int == p * quotient);
    // The order of the field times 2^32 + 1 is 2^96 + 1.
    let factor = difference * 0x1_0000_0001int - quotient * 0x1_0000_0000int;
    assert(difference == p * factor);
    assert(factor == 0);
}

/// Of two different words one stands before the other, and not the other way round.
pub proof fn law_words_are_ordered(a: Seq<u64>, b: Seq<u64>)
    requires
        is_word(a),
        is_word(b),
    ensures
        a == b <==> !word_before(a, b) && !word_before(b, a),
        word_before(a, b) ==> !word_before(b, a),
{
    if !word_before(a, b) && !word_before(b, a) {
        lemma_montgomery_injective(a[0], b[0]);
        lemma_montgomery_injective(a[1], b[1]);
        lemma_montgomery_injective(a[2], b[2]);
        lemma_montgomery_injective(a[3], b[3]);
        assert(a =~= b);
    }
}

/// The first element in which two words differ decides which of them stands before the other: the
/// one whose element times `2^64` leaves the smaller remainder by the order of the field.
pub proof fn law_first_difference_decides(a: Seq<u64>, b: Seq<u64>, i: int)
    requires
        is_word(a),
        is_word(b),
        0 <= i < 4,
        forall|j: int| 0 <= j < i ==> #[trigger] a[j] == b[j],
        a[i] != b[i],
    ensures
        word_before(a, b) <==> (a[i] * 0x1_0000_0000_0000_0000int) % 0xffff_ffff_0000_0001int < (b[i]
            * 0x1_0000_0000_0000_0000int) % 0xffff_ffff_0000_0001int,
{
    if montgomery(a[i]) == montgomery(b[i]) {
        lemma_montgomery_injective(a[i], b[i]);
    }
    assert(i > 0 ==> a[0] == b[0]);
    assert(i > 1 ==> a[1] == b[1]);
    assert(i > 2 ==> a[2] == b[2]);
    reveal(montgomery);
}

/// A word is empty exactly if each of its elements is zero.
pub proof fn law_only_zeroes_are_empty(elements: Seq<u64>)
    requires
        elements.len() == 4,
    ensures
        elements == empty_word() <==> forall|i: int| 0 <= i < 4 ==> #[trigger] elements[i] == 0,
{
    if forall|i: int| 0 <= i < 4 ==> #[trigger] elements[i] == 0 {
        assert(elements =~= empty_word());
    }
}

/// The bytes of a word are those of its elements, eight for each, in little-endian form.
pub proof fn law_words_are_little_endian(elements: Seq<u64>, i: int)
    requires
        is_word(elements),
        0 <= i < 4,
    ensures
        word_to_bytes(elements).len() == 32,
        word_to_bytes(elements).subrange(8 * i, 8 * i + 8) == vstd::bytes::spec_u64_to_le_bytes(
            elements[i],
        ),
{
    vstd::bytes::lemma_auto_spec_u64_to_from_le_bytes();
    assert(word_to_bytes(elements).subrange(8 * i, 8 * i + 8)
        =~= vstd::bytes::spec_u64_to_le_bytes(elements[i]));
}

} // verus!
