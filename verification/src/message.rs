//! The messages that the store answers with.
//!
//! A message has the shape of the wire format; its leaves are the values of the domain.

use crate::account::{AccountId, Asset};
use crate::word::Word;
use miden_protocol::crypto::merkle::SparseMerklePath;
use miden_protocol::note::{NoteHeader, NoteMetadata};
use miden_protocol::transaction::InputNoteCommitment;
use vstd::prelude::*;

verus! {

/// The public part of a transaction.
#[derive(Debug, PartialEq)]
pub struct TransactionHeader {
    pub transaction_id: Option<Word>,
    pub account_id: Option<AccountId>,
    pub initial_state_commitment: Option<Word>,
    pub final_state_commitment: Option<Word>,
    pub input_notes: Vec<InputNoteCommitment>,
    pub output_notes: Vec<NoteHeader>,
    pub fee: Option<Asset>,
}

/// A transaction with the block that includes it.
#[derive(Debug, PartialEq)]
pub struct TransactionRecord {
    pub header: Option<TransactionHeader>,
    pub block_num: u32,
}

/// The proof that a note is included in a block.
#[derive(Debug, PartialEq)]
pub struct NoteInclusionInBlockProof {
    pub note_id: Option<Word>,
    pub block_num: u32,
    pub note_index_in_block: u32,
    pub inclusion_path: Option<SparseMerklePath>,
}

/// A note, with its details in serialized form if they are public.
#[derive(Debug, PartialEq)]
pub struct Note {
    pub metadata: Option<NoteMetadata>,
    pub details: Option<Vec<u8>>,
}

/// A note with the proof that it is included in a block.
#[derive(Debug, PartialEq)]
pub struct CommittedNote {
    pub inclusion_proof: Option<NoteInclusionInBlockProof>,
    pub note: Option<Note>,
}

/// What a client learns of a note while it synchronizes.
#[derive(Debug, PartialEq)]
pub struct NoteSyncRecord {
    pub note_index_in_block: u32,
    pub note_id: Option<Word>,
    pub metadata: Option<NoteMetadata>,
    pub inclusion_path: Option<SparseMerklePath>,
}

} // verus!
