//! Compiled instructions and the lookups they make into a transaction's
//! account keys.

use crate::key::Key;
use vstd::prelude::*;

verus! {

/// An instruction as a transaction stores it: every account is an index into
/// the transaction's account keys.
#[derive(Debug, PartialEq, Eq)]
pub struct CompiledInstruction {
    pub program_id_index: u8,
    pub account_indices: Vec<u8>,
    pub data: Vec<u8>,
}

/// What a `CompiledInstruction` holds.
pub struct CompiledInstructionView {
    pub program_id_index: u8,
    pub account_indices: Seq<u8>,
    pub data: Seq<u8>,
}

impl View for CompiledInstruction {
    type V = CompiledInstructionView;

    open spec fn view(&self) -> CompiledInstructionView {
        CompiledInstructionView {
            program_id_index: self.program_id_index,
            account_indices: self.account_indices@,
            data: self.data@,
        }
    }
}

impl Clone for CompiledInstruction {
    fn clone(&self) -> (r: CompiledInstruction)
        ensures
            r@ == self@,
    {
        CompiledInstruction {
            program_id_index: self.program_id_index,
            account_indices: self.account_indices.clone(),
            data: self.data.clone(),
        }
    }
}

impl CompiledInstructionView {
    /// The key of the program that the instruction calls, if its index is one
    /// of the transaction's.
    pub open spec fn program_key(self, keys: Seq<Key>) -> Option<Key> {
        if self.program_id_index < keys.len() {
            Some(keys[self.program_id_index as int])
        } else {
            None
        }
    }

    /// The key of the instruction's account number `slot`, if the instruction
    /// has that many accounts and the index found there is one of the
    /// transaction's.
    pub open spec fn account_key(self, keys: Seq<Key>, slot: int) -> Option<Key> {
        if 0 <= slot < self.account_indices.len() && self.account_indices[slot] < keys.len() {
            Some(keys[self.account_indices[slot] as int])
        } else {
            None
        }
    }

    /// The index that the instruction's account number `slot` holds.
    pub open spec fn account_index(self, slot: int) -> Option<u8> {
        if 0 <= slot < self.account_indices.len() {
            Some(self.account_indices[slot])
        } else {
            None
        }
    }
}

impl CompiledInstruction {
    /// The key of the program that the instruction calls.
    pub fn program_key(&self, keys: &[Key]) -> (r: Option<Key>)
        ensures
            r == self@.program_key(keys@),
    {
        let index = self.program_id_index as usize;
        if index < keys.len() {
            Some(keys[index])
        } else {
            None
        }
    }

    /// The key of the instruction's account number `slot`.
    pub fn account_key(&self, keys: &[Key], slot: usize) -> (r: Option<Key>)
        ensures
            r == self@.account_key(keys@, slot as int),
    {
        if slot < self.account_indices.len() {
            let index = self.account_indices[slot] as usize;
            if index < keys.len() {
                Some(keys[index])
            } else {
                None
            }
        } else {
            None
        }
    }

    /// The index that the instruction's account number `slot` holds.
    pub fn account_index(&self, slot: usize) -> (r: Option<u8>)
        ensures
            r == self@.account_index(slot as int),
    {
        if slot < self.account_indices.len() {
            Some(self.account_indices[slot])
        } else {
            None
        }
    }
}

} // verus!
