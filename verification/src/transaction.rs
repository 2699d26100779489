//! Confirmed transactions, as the partitioner reads them.

use crate::instruction::{CompiledInstruction, CompiledInstructionView};
use crate::key::Key;
use crate::views::views;
use vstd::prelude::*;

verus! {

/// The balance of one token account before or after a transaction, as the
/// ledger reports it: the mint written in base 58, the amount in decimal.
#[derive(Debug, Clone, PartialEq, Eq)]
pub struct TokenBalance {
    pub account_index: u8,
    pub mint: String,
    pub decimals: u8,
    pub amount: String,
}

/// What a `TokenBalance` holds.
pub struct TokenBalanceView {
    pub account_index: u8,
    pub mint: Seq<char>,
    pub decimals: u8,
    pub amount: Seq<char>,
}

impl View for TokenBalance {
    type V = TokenBalanceView;

    open spec fn view(&self) -> TokenBalanceView {
        TokenBalanceView {
            account_index: self.account_index,
            mint: self.mint@,
            decimals: self.decimals,
            amount: self.amount@,
        }
    }
}

/// The instructions that ran inside the outer instruction number `index`.
#[derive(Debug, Clone, PartialEq, Eq)]
pub struct InnerInstructions {
    pub index: u8,
    pub instructions: Vec<CompiledInstruction>,
}

/// What an `InnerInstructions` holds.
pub struct InnerInstructionsView {
    pub index: u8,
    pub instructions: Seq<CompiledInstructionView>,
}

impl View for InnerInstructions {
    type V = InnerInstructionsView;

    open spec fn view(&self) -> InnerInstructionsView {
        InnerInstructionsView { index: self.index, instructions: views(self.instructions@) }
    }
}

/// What the ledger recorded of a transaction's execution. The groups of inner
/// instructions come in the order of their outer instructions.
#[derive(Debug, Clone, PartialEq, Eq)]
pub struct TransactionStatus {
    pub failed: bool,
    pub pre_token_balances: Vec<TokenBalance>,
    pub post_token_balances: Vec<TokenBalance>,
    pub inner_instructions: Vec<InnerInstructions>,
}

/// What a `TransactionStatus` holds.
pub struct TransactionStatusView {
    pub failed: bool,
    pub pre_token_balances: Seq<TokenBalanceView>,
    pub post_token_balances: Seq<TokenBalanceView>,
    pub inner_instructions: Seq<InnerInstructionsView>,
}

impl View for TransactionStatus {
    type V = TransactionStatusView;

    open spec fn view(&self) -> TransactionStatusView {
        TransactionStatusView {
            failed: self.failed,
            pre_token_balances: views(self.pre_token_balances@),
            post_token_balances: views(self.post_token_balances@),
            inner_instructions: views(self.inner_instructions@),
        }
    }
}

/// The account keys of a transaction and its outer instructions.
#[derive(Debug, Clone, PartialEq, Eq)]
pub struct Message {
    pub account_keys: Vec<Key>,
    pub instructions: Vec<CompiledInstruction>,
}

/// What a `Message` holds.
pub struct MessageView {
    pub account_keys: Seq<Key>,
    pub instructions: Seq<CompiledInstructionView>,
}

impl View for Message {
    type V = MessageView;

    open spec fn view(&self) -> MessageView {
        MessageView {
            account_keys: self.account_keys@,
            instructions: views(self.instructions@),
        }
    }
}

/// A confirmed transaction with its place in the ledger.
#[derive(Debug, Clone, PartialEq, Eq)]
pub struct Transaction {
    pub message: Message,
    pub status: Option<TransactionStatus>,
    pub signature: [u8; 64],
    pub slot: u64,
    pub block_index: u64,
}

/// What a `Transaction` holds.
pub struct TransactionView {
    pub message: MessageView,
    pub status: Option<TransactionStatusView>,
    pub signature: Seq<u8>,
    pub slot: u64,
    pub block_index: u64,
}

impl View for Transaction {
    type V = TransactionView;

    open spec fn view(&self) -> TransactionView {
        TransactionView {
            message: self.message@,
            status: match self.status {
                Some(status) => Some(status@),
                None => None,
            },
            signature: self.signature@,
            slot: self.slot,
            block_index: self.block_index,
        }
    }
}

impl TransactionView {
    /// Every instruction's number fits the 64-bit signed index under which
    /// partitioned instructions are kept.
    pub open spec fn indexable(self) -> bool {
        &&& self.message.instructions.len() <= i64::MAX
        &&& match self.status {
            Some(status) => forall|g: int|
                0 <= g < status.inner_instructions.len() ==> (
                #[trigger] status.inner_instructions[g]).instructions.len() <= i64::MAX,
            None => true,
        }
    }
}

impl Transaction {
    /// Whether every instruction's number fits a 64-bit signed index.
    pub fn is_indexable(&self) -> (r: bool)
        ensures
            r == self@.indexable(),
    {
        if self.message.instructions.len() as u64 > 0x7fff_ffff_ffff_ffff {
            return false;
        }
        match &self.status {
            None => true,
            Some(status) => {
                let mut g: usize = 0;
                while g < status.inner_instructions.len()
                    invariant
                        g <= status.inner_instructions.len(),
                        self@.status == Some(status@),
                        self@.message.instructions.len() <= i64::MAX,
                        forall|h: int|
                            0 <= h < g ==> (#[trigger] status@.inner_instructions[h]).instructions.len()
                                <= i64::MAX,
                    decreases status.inner_instructions.len() - g,
                {
                    if status.inner_instructions[g].instructions.len() as u64 > 0x7fff_ffff_ffff_ffff {
                        assert(self@.status.unwrap().inner_instructions[g as int].instructions.len()
                            > i64::MAX);
                        return false;
                    }
                    g += 1;
                }
                true
            },
        }
    }
}

} // verus!
