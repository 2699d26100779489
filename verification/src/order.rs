//! The order in which partitioned instructions are replayed, and what
//! partitioning a transaction promises of it.

use crate::instruction::CompiledInstructionView;
use crate::key::Key;
use crate::partition::{
    amount_fits, get_token_meta, group_is_due, outcome, partitioned, run_from, run_group,
    run_transaction, step, token_index, token_partition_key, ErrorCode, Frame,
    InstructionPartitioner, PartitionedInstruction, PartitionedInstructionView, Progress,
    TransactionTokenMetaView, frame_of, result_views,
};
use crate::token::TokenInstruction;
use crate::transaction::{InnerInstructionsView, TransactionView};
use crate::views::views;
use vstd::prelude::*;

verus! {

/// Whether an instruction's number inside its outer instruction puts it
/// before another of the same outer instruction. The outer instruction
/// itself, which has no such number, comes last.
pub open spec fn inner_before(a: Option<i64>, b: Option<i64>) -> bool {
    match (a, b) {
        (Some(x), Some(y)) => x < y,
        (Some(_), None) => true,
        (None, _) => false,
    }
}

/// Whether `a` is replayed before `b`: by slot, then by the transaction's
/// place in its block, then by the outer instruction's number, then by the
/// number inside the outer instruction.
pub open spec fn replayed_before(
    a: PartitionedInstructionView,
    b: PartitionedInstructionView,
) -> bool {
    if a.slot != b.slot {
        a.slot < b.slot
    } else if a.block_index != b.block_index {
        a.block_index < b.block_index
    } else if a.outer_index != b.outer_index {
        a.outer_index < b.outer_index
    } else {
        inner_before(a.inner_index, b.inner_index)
    }
}

impl PartitionedInstruction {
    /// Whether this instruction is replayed before `other`.
    pub fn replayed_before(&self, other: &PartitionedInstruction) -> (r: bool)
        ensures
            r == replayed_before(self@, other@),
    {
        if self.slot != other.slot {
            self.slot < other.slot
        } else if self.block_index != other.block_index {
            self.block_index < other.block_index
        } else if self.outer_index != other.outer_index {
            self.outer_index < other.outer_index
        } else {
            match (self.inner_index, other.inner_index) {
                (Some(x), Some(y)) => x < y,
                (Some(_), None) => true,
                (None, _) => false,
            }
        }
    }
}

/// Every instruction comes before all those behind it.
pub open spec fn in_replay_order(kept: Seq<PartitionedInstructionView>) -> bool {
    forall|i: int, j: int|
        0 <= i < j < kept.len() ==> replayed_before(#[trigger] kept[i], #[trigger] kept[j])
}

/// Whether the instructions stand in replay order.
pub fn is_in_replay_order(kept: &[PartitionedInstruction]) -> (r: bool)
    ensures
        r == in_replay_order(views(kept@)),
{
    if kept.len() < 2 {
        return true;
    }
    let mut j: usize = 1;
    while j < kept.len()
        invariant
            1 <= j <= kept.len(),
            forall|a: int, b: int|
                0 <= a < b < j ==> replayed_before(
                    #[trigger] views(kept@)[a],
                    #[trigger] views(kept@)[b],
                ),
        decreases kept.len() - j,
    {
        if !kept[j - 1].replayed_before(&kept[j]) {
            return false;
        }
        proof {
            assert forall|a: int, b: int| 0 <= a < b < j + 1 implies replayed_before(
                #[trigger] views(kept@)[a],
                #[trigger] views(kept@)[b],
            ) by {
                if b == j && a < j - 1 {
                    lemma_replayed_before_chains(
                        views(kept@)[a],
                        views(kept@)[j - 1],
                        views(kept@)[j as int],
                    );
                }
            }
        }
        j += 1;
    }
    true
}

/// What is replayed before something that is replayed before a third is
/// replayed before the third.
pub proof fn lemma_replayed_before_chains(
    a: PartitionedInstructionView,
    b: PartitionedInstructionView,
    c: PartitionedInstructionView,
)
    requires
        replayed_before(a, b),
        replayed_before(b, c),
    ensures
        replayed_before(a, c),
{
}

/// All the instructions have the place in the ledger of one transaction.
pub open spec fn of_one_transaction(
    kept: Seq<PartitionedInstructionView>,
    slot: u64,
    block_index: u64,
) -> bool {
    forall|k: int|
        0 <= k < kept.len() ==> (#[trigger] kept[k]).slot == slot && kept[k].block_index
            == block_index
}

/// The instruction `a` of the frame's transaction has a place before the
/// outer instruction number `outer_index`, or in it before the inner
/// instruction number `inner_index`.
pub open spec fn placed_before(
    frame: Frame,
    a: PartitionedInstructionView,
    outer_index: int,
    inner_index: Option<int>,
) -> bool {
    &&& a.slot == frame.slot
    &&& a.block_index == frame.block_index
    &&& (a.outer_index < outer_index || (a.outer_index == outer_index && match (
        a.inner_index,
        inner_index,
    ) {
        (Some(x), Some(y)) => x < y,
        (Some(_), None) => true,
        (None, _) => false,
    }))
}

/// The instructions kept so far are in replay order, and all of them have a
/// place before the given one.
pub open spec fn settled(
    frame: Frame,
    kept: Seq<PartitionedInstructionView>,
    outer_index: int,
    inner_index: Option<int>,
) -> bool {
    &&& in_replay_order(kept)
    &&& forall|k: int|
        0 <= k < kept.len() ==> placed_before(frame, #[trigger] kept[k], outer_index, inner_index)
}

/// An instruction that is kept goes behind those kept before, in replay
/// order, and what is kept then has a place before the next instruction.
proof fn lemma_step_settles(
    frame: Frame,
    progress: Progress,
    instruction: CompiledInstructionView,
    outer_index: int,
    inner_index: Option<int>,
)
    requires
        0 <= outer_index <= i64::MAX,
        inner_index matches Some(i) ==> 0 <= i < i64::MAX,
        settled(frame, progress.partitioned, outer_index, inner_index),
    ensures
        match step(frame, progress, instruction, outer_index, inner_index) {
            Ok(next) => match inner_index {
                Some(i) => settled(frame, next.partitioned, outer_index, Some(i + 1)),
                None => settled(frame, next.partitioned, outer_index + 1, Some(0)),
            },
            Err(_) => true,
        },
{
}

/// What a group of inner instructions adds is in replay order and has its
/// place before the outer instruction.
proof fn lemma_group_settles(
    frame: Frame,
    instructions: Seq<CompiledInstructionView>,
    outer_index: int,
    i: int,
    progress: Progress,
)
    requires
        0 <= outer_index <= i64::MAX,
        0 <= i,
        instructions.len() <= i64::MAX,
        settled(frame, progress.partitioned, outer_index, Some(i)),
    ensures
        match run_group(frame, instructions, outer_index, i, progress) {
            Ok(end) => settled(frame, end.partitioned, outer_index, None),
            Err(_) => true,
        },
    decreases instructions.len() - i,
{
    if i < instructions.len() {
        lemma_step_settles(frame, progress, instructions[i], outer_index, Some(i));
        match step(frame, progress, instructions[i], outer_index, Some(i)) {
            Ok(next) => lemma_group_settles(frame, instructions, outer_index, i + 1, next),
            Err(_) => {},
        }
    }
}

/// What the outer instructions from `outer_index` on add, with their inner
/// instructions, is in replay order.
proof fn lemma_run_settles(
    frame: Frame,
    instructions: Seq<CompiledInstructionView>,
    inner_instructions: Seq<InnerInstructionsView>,
    outer_index: int,
    cursor: int,
    progress: Progress,
)
    requires
        0 <= outer_index,
        instructions.len() <= i64::MAX,
        forall|g: int|
            0 <= g < inner_instructions.len() ==> (#[trigger] inner_instructions[g]).instructions.len()
                <= i64::MAX,
        settled(frame, progress.partitioned, outer_index, Some(0)),
    ensures
        match run_from(frame, instructions, inner_instructions, outer_index, cursor, progress) {
            Ok(end) => in_replay_order(end.partitioned) && of_one_transaction(
                end.partitioned,
                frame.slot,
                frame.block_index,
            ),
            Err(_) => true,
        },
    decreases instructions.len() - outer_index,
{
    if outer_index < instructions.len() {
        let due = group_is_due(inner_instructions, cursor, outer_index);
        let inner = if due {
            run_group(frame, inner_instructions[cursor].instructions, outer_index, 0, progress)
        } else {
            Ok(progress)
        };
        if due {
            lemma_group_settles(
                frame,
                inner_instructions[cursor].instructions,
                outer_index,
                0,
                progress,
            );
        }
        match inner {
            Ok(after_inner) => {
                lemma_step_settles(
                    frame,
                    after_inner,
                    instructions[outer_index],
                    outer_index,
                    None,
                );
                match step(frame, after_inner, instructions[outer_index], outer_index, None) {
                    Ok(next) => lemma_run_settles(
                        frame,
                        instructions,
                        inner_instructions,
                        outer_index + 1,
                        if due {
                            cursor + 1
                        } else {
                            cursor
                        },
                        next,
                    ),
                    Err(_) => {},
                }
            },
            Err(_) => {},
        }
    }
}

/// The instructions that partitioning a transaction keeps are in replay
/// order, and all have the transaction's place in the ledger.
pub proof fn lemma_partitioned_in_replay_order(
    transaction: TransactionView,
    partitioners: Seq<InstructionPartitioner>,
)
    requires
        transaction.indexable(),
    ensures
        match partitioned(transaction, partitioners) {
            Ok(kept) => in_replay_order(kept) && of_one_transaction(
                kept,
                transaction.slot,
                transaction.block_index,
            ),
            Err(_) => true,
        },
{
    match transaction.status {
        None => {},
        Some(status) => {
            if !status.failed {
                match token_index(status.pre_token_balances, status.post_token_balances) {
                    Err(_) => {},
                    Ok(token_metas) => {
                        lemma_run_settles(
                            frame_of(transaction, token_metas, partitioners),
                            transaction.message.instructions,
                            status.inner_instructions,
                            0,
                            0,
                            Progress::start(),
                        );
                    },
                }
            }
        },
    }
}

/// Inner before outer: of two kept instructions of the same outer
/// instruction, an inner one stands before the outer one itself.
pub proof fn lemma_inner_before_outer(
    transaction: TransactionView,
    partitioners: Seq<InstructionPartitioner>,
    i: int,
    j: int,
)
    requires
        transaction.indexable(),
        partitioned(transaction, partitioners) is Ok,
        0 <= i < partitioned(transaction, partitioners)->Ok_0.len(),
        0 <= j < partitioned(transaction, partitioners)->Ok_0.len(),
        partitioned(transaction, partitioners)->Ok_0[i].outer_index == partitioned(
            transaction,
            partitioners,
        )->Ok_0[j].outer_index,
        partitioned(transaction, partitioners)->Ok_0[i].inner_index is Some,
        partitioned(transaction, partitioners)->Ok_0[j].inner_index is None,
    ensures
        i < j,
{
    lemma_partitioned_in_replay_order(transaction, partitioners);
    let kept = partitioned(transaction, partitioners)->Ok_0;
    if j < i {
        assert(replayed_before(kept[j], kept[i]));
    }
}

/// Partitioning is a function of the transaction and of the table of
/// partitioners: two runs on the same transaction give the same outcome, the
/// same instructions in the same order.
pub proof fn lemma_partition_is_deterministic(
    transaction: TransactionView,
    partitioners: Seq<InstructionPartitioner>,
    first: Result<Vec<PartitionedInstruction>, ErrorCode>,
    second: Result<Vec<PartitionedInstruction>, ErrorCode>,
)
    requires
        result_views(first) == partitioned(transaction, partitioners),
        result_views(second) == partitioned(transaction, partitioners),
    ensures
        result_views(first) == result_views(second),
{
}

/// Where partitioning succeeds on a transaction that did not fail, no token
/// account that was initialized within the transaction is left over at its
/// end.
pub proof fn lemma_success_leaves_no_transient(
    transaction: TransactionView,
    partitioners: Seq<InstructionPartitioner>,
)
    requires
        partitioned(transaction, partitioners) is Ok,
        transaction.status is Some,
        !transaction.status->Some_0.failed,
    ensures
        run_transaction(transaction, partitioners) is Ok,
        run_transaction(transaction, partitioners)->Ok_0.transient_metas.len() == 0,
{
}

/// The account of a token instruction whose balances decide whether the
/// instruction is kept.
pub open spec fn deciding_slot(decoded: TokenInstruction) -> int {
    if decoded is MintTo || decoded is MintToChecked {
        1
    } else {
        0
    }
}

/// A token instruction other than the initialization of a mint is kept only
/// under the mint of a token account that it names, and only where that
/// account has no decimals and each of its amounts is absent, "0" or "1".
pub proof fn lemma_kept_token_is_nft_shaped(
    decoded: TokenInstruction,
    instruction: CompiledInstructionView,
    account_keys: Seq<Key>,
    token_metas: Seq<TransactionTokenMetaView>,
    transient_metas: Seq<TransactionTokenMetaView>,
)
    requires
        !(decoded is InitializeMint),
        token_partition_key(decoded, instruction, account_keys, token_metas, transient_metas)
            matches Ok(Some(_)),
    ensures
        instruction.account_index(deciding_slot(decoded)) is Some,
        get_token_meta(
            token_metas,
            transient_metas,
            instruction.account_index(deciding_slot(decoded))->Some_0,
        ) matches Some(meta) && {
            &&& meta.decimals == 0
            &&& amount_fits(meta.pre_amount)
            &&& amount_fits(meta.post_amount)
            &&& token_partition_key(
                decoded,
                instruction,
                account_keys,
                token_metas,
                transient_metas,
            ) == Ok::<Option<Key>, ErrorCode>(Some(meta.mint_key))
        },
{
}

/// The initialization of a mint is kept only for a mint without decimals,
/// under the key of the mint itself.
pub proof fn lemma_kept_mint_has_no_decimals(
    decoded: TokenInstruction,
    instruction: CompiledInstructionView,
    account_keys: Seq<Key>,
    token_metas: Seq<TransactionTokenMetaView>,
    transient_metas: Seq<TransactionTokenMetaView>,
)
    requires
        decoded is InitializeMint,
        token_partition_key(decoded, instruction, account_keys, token_metas, transient_metas)
            matches Ok(Some(_)),
    ensures
        decoded->InitializeMint_decimals == 0,
        token_partition_key(decoded, instruction, account_keys, token_metas, transient_metas)
            == Ok::<Option<Key>, ErrorCode>(instruction.account_key(account_keys, 0)),
{
}

} // verus!
