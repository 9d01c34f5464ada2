use miden_store::word::{Word, WordOrder};

#[test]
fn word_reads_back() {
    let word = Word::new([1, 2, 3, 4]).unwrap();
    let mut bytes = word.to_bytes();
    bytes.push(9);
    assert_eq!(Word::read_from_bytes(&bytes), Some(word));
}

#[test]
fn words_are_ordered_by_their_montgomery_forms() {
    let small = Word::new([1, 0, 0, 0]).unwrap();
    let large = Word::new([0x1_0000_0000, 0, 0, 0]).unwrap();
    // 2^64 mod p is 2^32 - 1, and 2^96 mod p is p - 1.
    assert_eq!(small.order(&large), WordOrder::Before);
}

#[test]
fn order_of_words_is_not_that_of_integers() {
    // The Montgomery forms are p - 1 and 2^32 - 2.
    let first = Word::new([0x1_0000_0000, 0, 0, 0]).unwrap();
    let second = Word::new([0x1_0000_0001, 0, 0, 0]).unwrap();
    assert_eq!(first.order(&second), WordOrder::After);
    assert_eq!(second.order(&first), WordOrder::Before);
    assert_eq!(first.order(&first), WordOrder::Same);
}

#[test]
fn first_difference_decides_the_order() {
    let first = Word::new([1, 0, 0, 9]).unwrap();
    let second = Word::new([1, 0, 1, 0]).unwrap();
    assert_eq!(first.order(&second), WordOrder::Before);
}

#[test]
fn elements_must_be_canonical() {
    assert_eq!(Word::new([0, 0, 0, 0xffff_ffff_0000_0001]), None);
    assert!(Word::new([0xffff_ffff_0000_0000, 0, 0, 0]).is_some());
    let mut bytes = vec![0u8; 32];
    assert_eq!(Word::read_from_bytes(&bytes), Some(Word::empty()));
    bytes[24] = 1;
    bytes[28..].copy_from_slice(&[0xff; 4]);
    assert_eq!(Word::read_from_bytes(&bytes), None);
    assert_eq!(Word::read_from_bytes(&vec![0u8; 31]), None);
}

#[test]
fn only_the_zero_word_is_empty() {
    assert!(Word::empty().is_empty());
    assert!(!Word::new([0, 0, 0, 1]).unwrap().is_empty());
}

#[test]
fn word_set_is_ordered_and_distinct() {
    let words = [5u64, 3, 0x1_0000_0000, 5, 0x1_0000_0001];
    let mut set = miden_store::word_set::WordSet::new();
    let mut added = Vec::new();
    for element in words {
        added.push(set.insert(Word::new([element, 0, 0, 0]).unwrap()));
    }
    assert_eq!(added, vec![true, true, true, false, true]);
    let firsts: Vec<u64> = set.into_words().iter().map(|word| word.elements()[0]).collect();
    // The Montgomery forms are 2^32 - 2, 3 * (2^32 - 1), 5 * (2^32 - 1) and p - 1.
    assert_eq!(firsts, vec![0x1_0000_0001, 3, 5, 0x1_0000_0000]);
}
