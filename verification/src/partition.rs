//! The partitioner: which instructions of a transaction are likely to touch a
//! non-fungible token, and which token each of them touches.

use crate::instruction::{CompiledInstruction, CompiledInstructionView};
use crate::key::{key_of_text, lemma_key_bytes_decide, token_program_bytes, token_program_id, Key};
use crate::order::{in_replay_order, lemma_partitioned_in_replay_order};
use crate::metadata::{
    decode_metadata_instruction, metadata_decoded, MetadataInstruction, MetadataInstructionView,
};
use crate::search::{
    first_index, is_first, lemma_first_absent, lemma_first_found, lemma_first_index_is_first,
};
use crate::token::{decode_token_instruction, token_unpacked, AuthorityType, TokenInstruction};
use crate::transaction::{
    InnerInstructionsView, TokenBalance, TokenBalanceView, Transaction, TransactionView,
};
use crate::views::views;
use vstd::prelude::*;

verus! {

/// Why a transaction or one of its instructions could not be partitioned.
#[derive(Debug, Clone, Copy, PartialEq, Eq, Structural)]
pub enum ErrorCode {
    MissingTransactionStatusMeta,
    BadAccountKeyIndex,
    BadTokenMetaAccountIndex,
    BadPubkeyString,
    FailedInstructionDeserialization,
    FailedTransientTokenAccountMatching,
}

/// What a transaction's balances say of one token account: its mint, the
/// mint's decimals, and the amounts held before and after the transaction.
#[derive(Debug, Clone, PartialEq, Eq)]
pub struct TransactionTokenMeta {
    pub account_index: u8,
    pub decimals: u8,
    pub pre_amount: Option<String>,
    pub post_amount: Option<String>,
    pub mint_key: Key,
}

/// What a `TransactionTokenMeta` holds.
pub struct TransactionTokenMetaView {
    pub account_index: u8,
    pub decimals: u8,
    pub pre_amount: Option<Seq<char>>,
    pub post_amount: Option<Seq<char>>,
    pub mint_key: Key,
}

/// The characters of an amount that may be absent.
pub open spec fn amount_view(amount: Option<String>) -> Option<Seq<char>> {
    match amount {
        Some(amount) => Some(amount@),
        None => None,
    }
}

impl View for TransactionTokenMeta {
    type V = TransactionTokenMetaView;

    open spec fn view(&self) -> TransactionTokenMetaView {
        TransactionTokenMetaView {
            account_index: self.account_index,
            decimals: self.decimals,
            pre_amount: amount_view(self.pre_amount),
            post_amount: amount_view(self.post_amount),
            mint_key: self.mint_key,
        }
    }
}

/// An amount fits a non-fungible token when it is absent, or is written "0"
/// or "1".
pub open spec fn amount_fits(amount: Option<Seq<char>>) -> bool {
    match amount {
        Some(amount) => amount == seq!['0'] || amount == seq!['1'],
        None => true,
    }
}

impl TransactionTokenMetaView {
    /// The balances look like those of a non-fungible token: no decimals, and
    /// never more than one token.
    pub open spec fn nft_shaped(self) -> bool {
        self.decimals == 0 && amount_fits(self.pre_amount) && amount_fits(self.post_amount)
    }

    /// The meta that stands for an account that the balances do not list,
    /// initialized for `mint_key` within the transaction.
    pub open spec fn transient(account_index: u8, mint_key: Key) -> TransactionTokenMetaView {
        TransactionTokenMetaView {
            account_index,
            decimals: 1,
            pre_amount: None,
            post_amount: None,
            mint_key,
        }
    }
}

/// The condition "is the meta of the token account `account_index`".
pub open spec fn of_account(account_index: u8) -> spec_fn(TransactionTokenMetaView) -> bool {
    |meta: TransactionTokenMetaView| meta.account_index == account_index
}

/// The first meta of `metas` for the token account `account_index`.
pub open spec fn find_meta(
    metas: Seq<TransactionTokenMetaView>,
    account_index: u8,
) -> Option<TransactionTokenMetaView> {
    match first_index(metas, of_account(account_index)) {
        Some(i) => Some(metas[i]),
        None => None,
    }
}

/// The meta of a token account: the one that the balances give, else the one
/// of an account initialized within the transaction.
pub open spec fn get_token_meta(
    token_metas: Seq<TransactionTokenMetaView>,
    transient_metas: Seq<TransactionTokenMetaView>,
    account_index: u8,
) -> Option<TransactionTokenMetaView> {
    match find_meta(token_metas, account_index) {
        Some(meta) => Some(meta),
        None => find_meta(transient_metas, account_index),
    }
}

/// A sequence without its item at `i`, the last item taking that place.
pub open spec fn swap_removed<T>(s: Seq<T>, i: int) -> Seq<T> {
    s.update(i, s.last()).drop_last()
}

fn amount_is_zero_or_one(amount: &Option<String>) -> (r: bool)
    ensures
        r == amount_fits(amount_view(*amount)),
{
    match amount {
        Some(amount) => {
            let text = amount.as_str();
            if text.unicode_len() != 1 {
                false
            } else {
                let c = text.get_char(0);
                assert(text@ =~= seq![c]);
                c == '0' || c == '1'
            }
        },
        None => true,
    }
}

/// Whether the balances of a token account fit a non-fungible token.
pub fn heuristic_token_meta_ok(meta: &TransactionTokenMeta) -> (r: bool)
    ensures
        r == meta@.nft_shaped(),
{
    meta.decimals == 0 && amount_is_zero_or_one(&meta.pre_amount) && amount_is_zero_or_one(
        &meta.post_amount,
    )
}

/// The place in `metas` of the first meta for `account_index`.
fn position_of(metas: &[TransactionTokenMeta], account_index: u8) -> (r: Option<usize>)
    ensures
        match r {
            Some(i) => first_index(views(metas@), of_account(account_index)) == Some(i as int),
            None => first_index(views(metas@), of_account(account_index)) is None,
        },
{
    let mut i: usize = 0;
    while i < metas.len()
        invariant
            i <= metas.len(),
            forall|j: int| 0 <= j < i ==> !of_account(account_index)(#[trigger] views(metas@)[j]),
        decreases metas.len() - i,
    {
        if metas[i].account_index == account_index {
            proof {
                lemma_first_found(views(metas@), of_account(account_index), i as int);
            }
            return Some(i);
        }
        i += 1;
    }
    proof {
        lemma_first_absent(views(metas@), of_account(account_index));
    }
    None
}

/// Looks a token account up, first in the metas that the balances give, then
/// in those of accounts initialized within the transaction.
pub fn find_token_meta<'a>(
    token_metas: &'a [TransactionTokenMeta],
    transient_metas: &'a [TransactionTokenMeta],
    account_index: u8,
) -> (r: Option<&'a TransactionTokenMeta>)
    ensures
        match r {
            Some(meta) => get_token_meta(views(token_metas@), views(transient_metas@), account_index)
                == Some(meta@),
            None => get_token_meta(views(token_metas@), views(transient_metas@), account_index)
                is None,
        },
{
    match position_of(token_metas, account_index) {
        Some(i) => Some(&token_metas[i]),
        None => match position_of(transient_metas, account_index) {
            Some(i) => Some(&transient_metas[i]),
            None => None,
        },
    }
}

/// What a partitioner is given: one instruction, the account keys of its
/// transaction, the token metas that the transaction's balances give, and the
/// metas of the token accounts initialized so far within the transaction and
/// not yet closed.
pub struct InstructionContext<'a> {
    pub instruction: &'a CompiledInstruction,
    pub account_keys: &'a [Key],
    pub token_metas: &'a [TransactionTokenMeta],
    pub transient_metas: &'a mut Vec<TransactionTokenMeta>,
}

/// The mint of the token account that the instruction names at `slot`, where
/// that account's balances fit a non-fungible token. An instruction with no
/// account at `slot` is refused, and so is one that names an account of which
/// no meta is known.
pub open spec fn mint_of(
    instruction: CompiledInstructionView,
    token_metas: Seq<TransactionTokenMetaView>,
    transient_metas: Seq<TransactionTokenMetaView>,
    slot: int,
) -> Result<Option<Key>, ErrorCode> {
    match instruction.account_index(slot) {
        None => Err(ErrorCode::BadAccountKeyIndex),
        Some(account_index) => match get_token_meta(token_metas, transient_metas, account_index) {
            None => Err(ErrorCode::BadTokenMetaAccountIndex),
            Some(meta) => Ok(
                if meta.nft_shaped() {
                    Some(meta.mint_key)
                } else {
                    None
                },
            ),
        },
    }
}

/// The partition key of an instruction that initializes a token account: the
/// account's mint where its balances are known and fit; none where they are
/// not known, in which case the instruction has to name a mint.
pub open spec fn initialized_account_key(
    instruction: CompiledInstructionView,
    account_keys: Seq<Key>,
    token_metas: Seq<TransactionTokenMetaView>,
    transient_metas: Seq<TransactionTokenMetaView>,
) -> Result<Option<Key>, ErrorCode> {
    match instruction.account_index(0) {
        None => Err(ErrorCode::BadAccountKeyIndex),
        Some(account_index) => match get_token_meta(token_metas, transient_metas, account_index) {
            Some(meta) => Ok(
                if meta.nft_shaped() {
                    Some(meta.mint_key)
                } else {
                    None
                },
            ),
            None => match instruction.account_key(account_keys, 1) {
                Some(_) => Ok(None),
                None => Err(ErrorCode::BadAccountKeyIndex),
            },
        },
    }
}

/// The partition key of a decoded instruction of the token program.
pub open spec fn token_partition_key(
    decoded: TokenInstruction,
    instruction: CompiledInstructionView,
    account_keys: Seq<Key>,
    token_metas: Seq<TransactionTokenMetaView>,
    transient_metas: Seq<TransactionTokenMetaView>,
) -> Result<Option<Key>, ErrorCode> {
    match decoded {
        TokenInstruction::InitializeMint { decimals } => if decimals != 0 {
            Ok(None)
        } else {
            match instruction.account_key(account_keys, 0) {
                Some(key) => Ok(Some(key)),
                None => Err(ErrorCode::BadAccountKeyIndex),
            }
        },
        TokenInstruction::InitializeAccount | TokenInstruction::InitializeAccount2 =>
            initialized_account_key(instruction, account_keys, token_metas, transient_metas),
        TokenInstruction::InitializeMultisig | TokenInstruction::SyncNative
        | TokenInstruction::CloseAccount => Ok(None),
        TokenInstruction::Transfer { amount } | TokenInstruction::Approve { amount }
        | TokenInstruction::Burn { amount } => if amount > 1 {
            Ok(None)
        } else {
            mint_of(instruction, token_metas, transient_metas, 0)
        },
        TokenInstruction::MintTo { amount } => if amount > 1 {
            Ok(None)
        } else {
            mint_of(instruction, token_metas, transient_metas, 1)
        },
        TokenInstruction::Revoke | TokenInstruction::FreezeAccount
        | TokenInstruction::ThawAccount => mint_of(instruction, token_metas, transient_metas, 0),
        TokenInstruction::SetAuthority { authority_type } => if authority_type
            == AuthorityType::MintTokens {
            Ok(None)
        } else {
            mint_of(instruction, token_metas, transient_metas, 0)
        },
        TokenInstruction::TransferChecked { amount, decimals }
        | TokenInstruction::ApproveChecked { amount, decimals }
        | TokenInstruction::BurnChecked { amount, decimals } => if decimals != 0 || amount > 1 {
            Ok(None)
        } else {
            mint_of(instruction, token_metas, transient_metas, 0)
        },
        TokenInstruction::MintToChecked { amount, decimals } => if decimals != 0 || amount > 1 {
            Ok(None)
        } else {
            mint_of(instruction, token_metas, transient_metas, 1)
        },
    }
}

/// The metas of the accounts initialized within the transaction, after a
/// decoded instruction of the token program. Initializing an account whose
/// balances are not known adds its meta; closing an account removes the
/// first meta for it, the last meta taking its place.
pub open spec fn token_partition_transients(
    decoded: TokenInstruction,
    instruction: CompiledInstructionView,
    account_keys: Seq<Key>,
    token_metas: Seq<TransactionTokenMetaView>,
    transient_metas: Seq<TransactionTokenMetaView>,
) -> Seq<TransactionTokenMetaView> {
    match decoded {
        TokenInstruction::InitializeAccount | TokenInstruction::InitializeAccount2 => match (
            instruction.account_index(0),
            instruction.account_key(account_keys, 1),
        ) {
            (Some(account_index), Some(mint_key)) => if get_token_meta(
                token_metas,
                transient_metas,
                account_index,
            ) is None {
                transient_metas.push(TransactionTokenMetaView::transient(account_index, mint_key))
            } else {
                transient_metas
            },
            _ => transient_metas,
        },
        TokenInstruction::CloseAccount => match instruction.account_index(0) {
            Some(account_index) => match first_index(transient_metas, of_account(account_index)) {
                Some(i) => swap_removed(transient_metas, i),
                None => transient_metas,
            },
            None => transient_metas,
        },
        _ => transient_metas,
    }
}

fn token_account_mint_key(
    instruction: &CompiledInstruction,
    token_metas: &[TransactionTokenMeta],
    transient_metas: &[TransactionTokenMeta],
    slot: usize,
) -> (r: Result<Option<Key>, ErrorCode>)
    ensures
        r == mint_of(instruction@, views(token_metas@), views(transient_metas@), slot as int),
{
    match instruction.account_index(slot) {
        None => Err(ErrorCode::BadAccountKeyIndex),
        Some(account_index) => match find_token_meta(token_metas, transient_metas, account_index) {
            None => Err(ErrorCode::BadTokenMetaAccountIndex),
            Some(meta) => if heuristic_token_meta_ok(meta) {
                Ok(Some(meta.mint_key))
            } else {
                Ok(None)
            },
        },
    }
}

fn partition_initialize_account(ctx: InstructionContext) -> (r: Result<Option<Key>, ErrorCode>)
    ensures
        r == initialized_account_key(
            ctx.instruction@,
            ctx.account_keys@,
            views(ctx.token_metas@),
            views(old(ctx.transient_metas)@),
        ),
        views(final(ctx.transient_metas)@) == token_partition_transients(
            TokenInstruction::InitializeAccount,
            ctx.instruction@,
            ctx.account_keys@,
            views(ctx.token_metas@),
            views(old(ctx.transient_metas)@),
        ),
{
    let account_index = match ctx.instruction.account_index(0) {
        None => { return Err(ErrorCode::BadAccountKeyIndex); },
        Some(account_index) => account_index,
    };
    match find_token_meta(ctx.token_metas, ctx.transient_metas.as_slice(), account_index) {
        Some(meta) => if heuristic_token_meta_ok(meta) {
            Ok(Some(meta.mint_key))
        } else {
            Ok(None)
        },
        None => match ctx.instruction.account_key(ctx.account_keys, 1) {
            None => Err(ErrorCode::BadAccountKeyIndex),
            Some(mint_key) => {
                ctx.transient_metas.push(
                    TransactionTokenMeta {
                        account_index,
                        decimals: 1,
                        pre_amount: None,
                        post_amount: None,
                        mint_key,
                    },
                );
                Ok(None)
            },
        },
    }
}

fn partition_close_account(ctx: InstructionContext)
    ensures
        views(final(ctx.transient_metas)@) == token_partition_transients(
            TokenInstruction::CloseAccount,
            ctx.instruction@,
            ctx.account_keys@,
            views(ctx.token_metas@),
            views(old(ctx.transient_metas)@),
        ),
{
    if let Some(account_index) = ctx.instruction.account_index(0) {
        if let Some(i) = position_of(ctx.transient_metas.as_slice(), account_index) {
            ctx.transient_metas.swap_remove(i);
        }
    }
}

/// Partitions an instruction of the token program that is already decoded.
///
/// The key is that of the mint where the instruction is likely to touch a
/// non-fungible token, and none where it is not.
pub fn partition_token_decoded(decoded: &TokenInstruction, ctx: InstructionContext) -> (r: Result<
    Option<Key>,
    ErrorCode,
>)
    ensures
        r == token_partition_key(
            *decoded,
            ctx.instruction@,
            ctx.account_keys@,
            views(ctx.token_metas@),
            views(old(ctx.transient_metas)@),
        ),
        views(final(ctx.transient_metas)@) == token_partition_transients(
            *decoded,
            ctx.instruction@,
            ctx.account_keys@,
            views(ctx.token_metas@),
            views(old(ctx.transient_metas)@),
        ),
{
    match *decoded {
        TokenInstruction::InitializeMint { decimals } => {
            if decimals != 0 {
                Ok(None)
            } else {
                match ctx.instruction.account_key(ctx.account_keys, 0) {
                    Some(key) => Ok(Some(key)),
                    None => Err(ErrorCode::BadAccountKeyIndex),
                }
            }
        },
        TokenInstruction::InitializeAccount | TokenInstruction::InitializeAccount2 => {
            partition_initialize_account(ctx)
        },
        TokenInstruction::InitializeMultisig | TokenInstruction::SyncNative => Ok(None),
        TokenInstruction::CloseAccount => {
            partition_close_account(ctx);
            Ok(None)
        },
        TokenInstruction::Transfer { amount } | TokenInstruction::Approve { amount }
        | TokenInstruction::Burn { amount } => {
            if amount > 1 {
                Ok(None)
            } else {
                token_account_mint_key(
                    ctx.instruction,
                    ctx.token_metas,
                    ctx.transient_metas.as_slice(),
                    0,
                )
            }
        },
        TokenInstruction::MintTo { amount } => {
            if amount > 1 {
                Ok(None)
            } else {
                token_account_mint_key(
                    ctx.instruction,
                    ctx.token_metas,
                    ctx.transient_metas.as_slice(),
                    1,
                )
            }
        },
        TokenInstruction::Revoke | TokenInstruction::FreezeAccount
        | TokenInstruction::ThawAccount => {
            token_account_mint_key(
                ctx.instruction,
                ctx.token_metas,
                ctx.transient_metas.as_slice(),
                0,
            )
        },
        TokenInstruction::SetAuthority { authority_type } => {
            match authority_type {
                AuthorityType::MintTokens => Ok(None),
                _ => token_account_mint_key(
                    ctx.instruction,
                    ctx.token_metas,
                    ctx.transient_metas.as_slice(),
                    0,
                ),
            }
        },
        TokenInstruction::TransferChecked { amount, decimals }
        | TokenInstruction::ApproveChecked { amount, decimals }
        | TokenInstruction::BurnChecked { amount, decimals } => {
            if decimals != 0 || amount > 1 {
                Ok(None)
            } else {
                token_account_mint_key(
                    ctx.instruction,
                    ctx.token_metas,
                    ctx.transient_metas.as_slice(),
                    0,
                )
            }
        },
        TokenInstruction::MintToChecked { amount, decimals } => {
            if decimals != 0 || amount > 1 {
                Ok(None)
            } else {
                token_account_mint_key(
                    ctx.instruction,
                    ctx.token_metas,
                    ctx.transient_metas.as_slice(),
                    1,
                )
            }
        },
    }
}

/// What partitioning an instruction of the token program gives: its key, and
/// the metas of the accounts initialized within the transaction afterwards.
pub open spec fn token_partition(
    instruction: CompiledInstructionView,
    account_keys: Seq<Key>,
    token_metas: Seq<TransactionTokenMetaView>,
    transient_metas: Seq<TransactionTokenMetaView>,
) -> (Result<Option<Key>, ErrorCode>, Seq<TransactionTokenMetaView>) {
    match token_unpacked(instruction.data) {
        None => (Err(ErrorCode::FailedInstructionDeserialization), transient_metas),
        Some(decoded) => (
            token_partition_key(decoded, instruction, account_keys, token_metas, transient_metas),
            token_partition_transients(
                decoded,
                instruction,
                account_keys,
                token_metas,
                transient_metas,
            ),
        ),
    }
}

/// Partitions an instruction of the token program: decodes its data, and
/// gives the mint's key where the instruction is likely to touch a
/// non-fungible token.
pub fn partition_token_instruction(ctx: InstructionContext) -> (r: Result<Option<Key>, ErrorCode>)
    ensures
        (r, views(final(ctx.transient_metas)@)) == token_partition(
            ctx.instruction@,
            ctx.account_keys@,
            views(ctx.token_metas@),
            views(old(ctx.transient_metas)@),
        ),
{
    match decode_token_instruction(ctx.instruction.data.as_slice()) {
        None => Err(ErrorCode::FailedInstructionDeserialization),
        Some(decoded) => partition_token_decoded(&decoded, ctx),
    }
}

/// The account of a metadata instruction whose key is the partition key,
/// where the instruction has one.
pub open spec fn metadata_partition_slot(decoded: MetadataInstructionView) -> Option<int> {
    match decoded {
        MetadataInstructionView::CreateMetadataAccount(_)
        | MetadataInstructionView::CreateMetadataAccountV2(_)
        | MetadataInstructionView::UpdateMetadataAccount(_)
        | MetadataInstructionView::UpdateMetadataAccountV2(_)
        | MetadataInstructionView::SignMetadata
        | MetadataInstructionView::RemoveCreatorVerification
        | MetadataInstructionView::VerifyCollection
        | MetadataInstructionView::UnverifyCollection
        | MetadataInstructionView::SetAndVerifyCollection
        | MetadataInstructionView::UpdatePrimarySaleHappenedViaToken
        | MetadataInstructionView::PuffMetadata
        | MetadataInstructionView::Utilize
        | MetadataInstructionView::DeprecatedMintNewEditionFromMasterEditionViaPrintingToken
        | MetadataInstructionView::MintNewEditionFromMasterEditionViaToken { .. }
        | MetadataInstructionView::MintNewEditionFromMasterEditionViaVaultProxy { .. } => Some(0),
        MetadataInstructionView::DeprecatedCreateMasterEdition => Some(7),
        MetadataInstructionView::CreateMasterEdition
        | MetadataInstructionView::CreateMasterEditionV3
        | MetadataInstructionView::DeprecatedCreateReservationList
        | MetadataInstructionView::DeprecatedMintPrintingTokensViaToken
        | MetadataInstructionView::ApproveUseAuthority
        | MetadataInstructionView::RevokeUseAuthority => Some(5),
        MetadataInstructionView::DeprecatedMintPrintingTokens
        | MetadataInstructionView::RevokeCollectionAuthority => Some(3),
        MetadataInstructionView::ApproveCollectionAuthority => Some(4),
        MetadataInstructionView::DeprecatedSetReservationList
        | MetadataInstructionView::ConvertMasterEditionV1ToV2
        | MetadataInstructionView::FreezeDelegatedAccount
        | MetadataInstructionView::ThawDelegatedAccount => None,
    }
}

/// The account of an instruction that prints an edition at which the master's
/// metadata stands. The older of the two instructions had it at 10 or at 11:
/// where the token program stands at 11, the master's metadata is at 10.
pub open spec fn master_slot(
    decoded: MetadataInstructionView,
    instruction: CompiledInstructionView,
    account_keys: Seq<Key>,
) -> Option<int> {
    match decoded {
        MetadataInstructionView::MintNewEditionFromMasterEditionViaToken { .. } => Some(10),
        MetadataInstructionView::MintNewEditionFromMasterEditionViaVaultProxy { .. } => Some(12),
        MetadataInstructionView::DeprecatedMintNewEditionFromMasterEditionViaPrintingToken =>
            match instruction.account_key(account_keys, 11) {
            Some(pivot) => if pivot@ == token_program_bytes() {
                Some(10)
            } else {
                Some(11)
            },
            None => Some(11),
        },
        _ => None,
    }
}

/// The key of the master's metadata for an instruction that prints an
/// edition, and none for all others.
pub open spec fn master_key(
    decoded: MetadataInstructionView,
    instruction: CompiledInstructionView,
    account_keys: Seq<Key>,
) -> Result<Option<Key>, ErrorCode> {
    match master_slot(decoded, instruction, account_keys) {
        None => Ok(None),
        Some(slot) => match instruction.account_key(account_keys, slot) {
            Some(key) => Ok(Some(key)),
            None => Err(ErrorCode::BadAccountKeyIndex),
        },
    }
}

/// The partition key of a decoded instruction of the metadata program: the
/// key of the account at the instruction's partition slot. An instruction
/// that prints an edition has to name the master's metadata as well.
pub open spec fn metadata_partition_key(
    decoded: MetadataInstructionView,
    instruction: CompiledInstructionView,
    account_keys: Seq<Key>,
) -> Result<Option<Key>, ErrorCode> {
    match metadata_partition_slot(decoded) {
        None => Ok(None),
        Some(slot) => match master_key(decoded, instruction, account_keys) {
            Err(e) => Err(e),
            Ok(_) => match instruction.account_key(account_keys, slot) {
                Some(key) => Ok(Some(key)),
                None => Err(ErrorCode::BadAccountKeyIndex),
            },
        },
    }
}

fn partition_slot(decoded: &MetadataInstruction) -> (r: Option<usize>)
    ensures
        match r {
            Some(slot) => metadata_partition_slot(decoded@) == Some(slot as int),
            None => metadata_partition_slot(decoded@) is None,
        },
{
    match decoded {
        MetadataInstruction::CreateMetadataAccount(_)
        | MetadataInstruction::CreateMetadataAccountV2(_)
        | MetadataInstruction::UpdateMetadataAccount(_)
        | MetadataInstruction::UpdateMetadataAccountV2(_)
        | MetadataInstruction::SignMetadata
        | MetadataInstruction::RemoveCreatorVerification
        | MetadataInstruction::VerifyCollection
        | MetadataInstruction::UnverifyCollection
        | MetadataInstruction::SetAndVerifyCollection
        | MetadataInstruction::UpdatePrimarySaleHappenedViaToken
        | MetadataInstruction::PuffMetadata
        | MetadataInstruction::Utilize
        | MetadataInstruction::DeprecatedMintNewEditionFromMasterEditionViaPrintingToken
        | MetadataInstruction::MintNewEditionFromMasterEditionViaToken { .. }
        | MetadataInstruction::MintNewEditionFromMasterEditionViaVaultProxy { .. } => Some(0),
        MetadataInstruction::DeprecatedCreateMasterEdition => Some(7),
        MetadataInstruction::CreateMasterEdition
        | MetadataInstruction::CreateMasterEditionV3
        | MetadataInstruction::DeprecatedCreateReservationList
        | MetadataInstruction::DeprecatedMintPrintingTokensViaToken
        | MetadataInstruction::ApproveUseAuthority
        | MetadataInstruction::RevokeUseAuthority => Some(5),
        MetadataInstruction::DeprecatedMintPrintingTokens
        | MetadataInstruction::RevokeCollectionAuthority => Some(3),
        MetadataInstruction::ApproveCollectionAuthority => Some(4),
        MetadataInstruction::DeprecatedSetReservationList
        | MetadataInstruction::ConvertMasterEditionV1ToV2
        | MetadataInstruction::FreezeDelegatedAccount
        | MetadataInstruction::ThawDelegatedAccount => None,
    }
}

/// The key of the master's metadata that an instruction printing an edition
/// names.
pub fn find_master_key(
    decoded: &MetadataInstruction,
    instruction: &CompiledInstruction,
    account_keys: &[Key],
) -> (r: Result<Option<Key>, ErrorCode>)
    ensures
        r == master_key(decoded@, instruction@, account_keys@),
{
    let slot: usize = match decoded {
        MetadataInstruction::MintNewEditionFromMasterEditionViaToken { .. } => 10,
        MetadataInstruction::MintNewEditionFromMasterEditionViaVaultProxy { .. } => 12,
        MetadataInstruction::DeprecatedMintNewEditionFromMasterEditionViaPrintingToken => {
            match instruction.account_key(account_keys, 11) {
                Some(pivot) => {
                    let token_program = token_program_id();
                    proof {
                        lemma_key_bytes_decide(pivot, token_program);
                    }
                    if pivot == token_program {
                        10
                    } else {
                        11
                    }
                },
                None => 11,
            }
        },
        _ => { return Ok(None); },
    };
    match instruction.account_key(account_keys, slot) {
        Some(key) => Ok(Some(key)),
        None => Err(ErrorCode::BadAccountKeyIndex),
    }
}

/// Partitions an instruction of the metadata program that is already
/// decoded: the key is that of the metadata account that it is about.
pub fn partition_metadata_decoded(decoded: &MetadataInstruction, ctx: InstructionContext) -> (r:
    Result<Option<Key>, ErrorCode>)
    ensures
        r == metadata_partition_key(decoded@, ctx.instruction@, ctx.account_keys@),
        final(ctx.transient_metas)@ == old(ctx.transient_metas)@,
{
    match partition_slot(decoded) {
        None => Ok(None),
        Some(slot) => match find_master_key(decoded, ctx.instruction, ctx.account_keys) {
            Err(e) => Err(e),
            Ok(_) => match ctx.instruction.account_key(ctx.account_keys, slot) {
                Some(key) => Ok(Some(key)),
                None => Err(ErrorCode::BadAccountKeyIndex),
            },
        },
    }
}

/// What partitioning an instruction of the metadata program gives.
pub open spec fn metadata_partition(
    instruction: CompiledInstructionView,
    account_keys: Seq<Key>,
) -> Result<Option<Key>, ErrorCode> {
    match metadata_decoded(instruction.data) {
        None => Err(ErrorCode::FailedInstructionDeserialization),
        Some(decoded) => metadata_partition_key(decoded, instruction, account_keys),
    }
}

/// Partitions an instruction of the metadata program: decodes its data, and
/// gives the key of the metadata account that the instruction is about.
pub fn partition_metadata_instruction(ctx: InstructionContext) -> (r: Result<
    Option<Key>,
    ErrorCode,
>)
    ensures
        r == metadata_partition(ctx.instruction@, ctx.account_keys@),
        final(ctx.transient_metas)@ == old(ctx.transient_metas)@,
{
    match decode_metadata_instruction(ctx.instruction.data.as_slice()) {
        None => Err(ErrorCode::FailedInstructionDeserialization),
        Some(decoded) => partition_metadata_decoded(&decoded, ctx),
    }
}

/// The programs whose instructions are partitioned.
#[derive(Debug, Clone, Copy, PartialEq, Eq, Structural)]
pub enum Partitioner {
    Token,
    Metadata,
}

/// An entry of the table that says which partitioner takes the instructions
/// of which program.
#[derive(Debug, Clone, Copy, PartialEq, Eq)]
pub struct InstructionPartitioner {
    pub program_id: Key,
    pub partitioner: Partitioner,
}

/// The condition "is the entry of `program`".
pub open spec fn of_program(program: Key) -> spec_fn(InstructionPartitioner) -> bool {
    |entry: InstructionPartitioner| entry.program_id == program
}

/// The partitioner of the first entry for `program`.
pub open spec fn find_partitioner(
    partitioners: Seq<InstructionPartitioner>,
    program: Key,
) -> Option<Partitioner> {
    match first_index(partitioners, of_program(program)) {
        Some(i) => Some(partitioners[i].partitioner),
        None => None,
    }
}

/// What partitioning an instruction gives: the key by which it is grouped,
/// if it is kept at all, and the metas of the accounts initialized within the
/// transaction afterwards. An instruction of a program without a partitioner
/// is passed over.
pub open spec fn partition_of(
    instruction: CompiledInstructionView,
    account_keys: Seq<Key>,
    token_metas: Seq<TransactionTokenMetaView>,
    transient_metas: Seq<TransactionTokenMetaView>,
    partitioners: Seq<InstructionPartitioner>,
) -> (Result<Option<Key>, ErrorCode>, Seq<TransactionTokenMetaView>) {
    match instruction.program_key(account_keys) {
        None => (Err(ErrorCode::BadAccountKeyIndex), transient_metas),
        Some(program) => match find_partitioner(partitioners, program) {
            None => (Ok(None), transient_metas),
            Some(Partitioner::Token) => token_partition(
                instruction,
                account_keys,
                token_metas,
                transient_metas,
            ),
            Some(Partitioner::Metadata) => (
                metadata_partition(instruction, account_keys),
                transient_metas,
            ),
        },
    }
}

/// Looks up the partitioner of a program.
pub fn lookup_partitioner(partitioners: &[InstructionPartitioner], program: &Key) -> (r: Option<
    Partitioner,
>)
    ensures
        r == find_partitioner(partitioners@, *program),
{
    let mut i: usize = 0;
    while i < partitioners.len()
        invariant
            i <= partitioners.len(),
            forall|j: int| 0 <= j < i ==> !of_program(*program)(#[trigger] partitioners@[j]),
        decreases partitioners.len() - i,
    {
        if partitioners[i].program_id == *program {
            proof {
                lemma_first_found(partitioners@, of_program(*program), i as int);
            }
            return Some(partitioners[i].partitioner);
        }
        i += 1;
    }
    proof {
        lemma_first_absent(partitioners@, of_program(*program));
    }
    None
}

/// Partitions an instruction with the partitioner of its program.
pub fn partition_instruction(ctx: InstructionContext, partitioners: &[InstructionPartitioner]) -> (r:
    Result<Option<Key>, ErrorCode>)
    ensures
        (r, views(final(ctx.transient_metas)@)) == partition_of(
            ctx.instruction@,
            ctx.account_keys@,
            views(ctx.token_metas@),
            views(old(ctx.transient_metas)@),
            partitioners@,
        ),
{
    let program = match ctx.instruction.program_key(ctx.account_keys) {
        None => { return Err(ErrorCode::BadAccountKeyIndex); },
        Some(program) => program,
    };
    match lookup_partitioner(partitioners, &program) {
        None => Ok(None),
        Some(Partitioner::Token) => partition_token_instruction(ctx),
        Some(Partitioner::Metadata) => partition_metadata_instruction(ctx),
    }
}

/// A meta with the amount of one more balance: the amount after the
/// transaction where `post` holds, else the amount before it.
pub open spec fn with_amount(
    meta: TransactionTokenMetaView,
    amount: Seq<char>,
    post: bool,
) -> TransactionTokenMetaView {
    if post {
        TransactionTokenMetaView { post_amount: Some(amount), ..meta }
    } else {
        TransactionTokenMetaView { pre_amount: Some(amount), ..meta }
    }
}

/// The metas with one more balance taken in. A balance of an account that
/// has a meta only sets that meta's amount, so the mint and the decimals
/// that came first stay; a balance of another account adds a meta.
pub open spec fn merge_balance(
    metas: Seq<TransactionTokenMetaView>,
    balance: TokenBalanceView,
    mint_key: Key,
    post: bool,
) -> Seq<TransactionTokenMetaView> {
    match first_index(metas, of_account(balance.account_index)) {
        Some(i) => metas.update(i, with_amount(metas[i], balance.amount, post)),
        None => metas.push(
            with_amount(
                TransactionTokenMetaView {
                    account_index: balance.account_index,
                    decimals: balance.decimals,
                    pre_amount: None,
                    post_amount: None,
                    mint_key,
                },
                balance.amount,
                post,
            ),
        ),
    }
}

/// The metas after the balances from number `k` on are taken in, one after
/// the other. Every balance has to name its mint in base 58.
pub open spec fn merge_balances(
    metas: Seq<TransactionTokenMetaView>,
    balances: Seq<TokenBalanceView>,
    k: int,
    post: bool,
) -> Result<Seq<TransactionTokenMetaView>, ErrorCode>
    decreases balances.len() - k,
{
    if k < 0 || k >= balances.len() {
        Ok(metas)
    } else {
        match key_of_text(balances[k].mint) {
            None => Err(ErrorCode::BadPubkeyString),
            Some(mint_key) => merge_balances(
                merge_balance(metas, balances[k], mint_key, post),
                balances,
                k + 1,
                post,
            ),
        }
    }
}

/// The token metas of a transaction: its balances before, then its balances
/// after, merged by token account.
pub open spec fn token_index(
    pre_token_balances: Seq<TokenBalanceView>,
    post_token_balances: Seq<TokenBalanceView>,
) -> Result<Seq<TransactionTokenMetaView>, ErrorCode> {
    match merge_balances(Seq::empty(), pre_token_balances, 0, false) {
        Err(e) => Err(e),
        Ok(metas) => merge_balances(metas, post_token_balances, 0, true),
    }
}

/// No two metas are for the same token account.
pub open spec fn distinct_accounts(metas: Seq<TransactionTokenMetaView>) -> bool {
    forall|i: int, j: int|
        0 <= i < j < metas.len() ==> (#[trigger] metas[i]).account_index != (
        #[trigger] metas[j]).account_index
}

/// Taking a balance in keeps the token accounts of the metas distinct.
pub proof fn lemma_merge_keeps_distinct(
    metas: Seq<TransactionTokenMetaView>,
    balance: TokenBalanceView,
    mint_key: Key,
    post: bool,
)
    requires
        distinct_accounts(metas),
    ensures
        distinct_accounts(merge_balance(metas, balance, mint_key, post)),
{
    lemma_first_index_is_first(metas, of_account(balance.account_index));
}

/// Taking balances in keeps the token accounts of the metas distinct.
pub proof fn lemma_merges_keep_distinct(
    metas: Seq<TransactionTokenMetaView>,
    balances: Seq<TokenBalanceView>,
    k: int,
    post: bool,
)
    requires
        distinct_accounts(metas),
    ensures
        match merge_balances(metas, balances, k, post) {
            Ok(merged) => distinct_accounts(merged),
            Err(_) => true,
        },
    decreases balances.len() - k,
{
    if 0 <= k < balances.len() {
        match key_of_text(balances[k].mint) {
            None => {},
            Some(mint_key) => {
                lemma_merge_keeps_distinct(metas, balances[k], mint_key, post);
                lemma_merges_keep_distinct(
                    merge_balance(metas, balances[k], mint_key, post),
                    balances,
                    k + 1,
                    post,
                );
            },
        }
    }
}

/// The token metas of a transaction hold every token account once.
pub proof fn lemma_token_index_distinct(
    pre_token_balances: Seq<TokenBalanceView>,
    post_token_balances: Seq<TokenBalanceView>,
)
    ensures
        match token_index(pre_token_balances, post_token_balances) {
            Ok(metas) => distinct_accounts(metas),
            Err(_) => true,
        },
{
    lemma_merges_keep_distinct(Seq::empty(), pre_token_balances, 0, false);
    match merge_balances(Seq::empty(), pre_token_balances, 0, false) {
        Ok(metas) => lemma_merges_keep_distinct(metas, post_token_balances, 0, true),
        Err(_) => {},
    }
}

fn clone_amount(amount: &Option<String>) -> (r: Option<String>)
    ensures
        amount_view(r) == amount_view(*amount),
{
    match amount {
        Some(amount) => Some(amount.clone()),
        None => None,
    }
}

/// Takes one balance into the metas.
fn merge_token_balance(
    metas: &mut Vec<TransactionTokenMeta>,
    balance: &TokenBalance,
    mint_key: Key,
    post: bool,
)
    ensures
        views(final(metas)@) == merge_balance(views(old(metas)@), balance@, mint_key, post),
{
    let amount = balance.amount.clone();
    match position_of(metas.as_slice(), balance.account_index) {
        Some(i) => {
            let meta = &metas[i];
            let merged = if post {
                TransactionTokenMeta {
                    account_index: meta.account_index,
                    decimals: meta.decimals,
                    pre_amount: clone_amount(&meta.pre_amount),
                    post_amount: Some(amount),
                    mint_key: meta.mint_key,
                }
            } else {
                TransactionTokenMeta {
                    account_index: meta.account_index,
                    decimals: meta.decimals,
                    pre_amount: Some(amount),
                    post_amount: clone_amount(&meta.post_amount),
                    mint_key: meta.mint_key,
                }
            };
            metas[i] = merged;
        },
        None => {
            let merged = if post {
                TransactionTokenMeta {
                    account_index: balance.account_index,
                    decimals: balance.decimals,
                    pre_amount: None,
                    post_amount: Some(amount),
                    mint_key,
                }
            } else {
                TransactionTokenMeta {
                    account_index: balance.account_index,
                    decimals: balance.decimals,
                    pre_amount: Some(amount),
                    post_amount: None,
                    mint_key,
                }
            };
            metas.push(merged);
        },
    }
}

/// Takes balances into the metas, one after the other.
fn merge_token_balances(
    metas: &mut Vec<TransactionTokenMeta>,
    balances: &[TokenBalance],
    post: bool,
) -> (r: Result<(), ErrorCode>)
    ensures
        match merge_balances(views(old(metas)@), views(balances@), 0, post) {
            Ok(merged) => r is Ok && views(final(metas)@) == merged,
            Err(e) => r == Err::<(), ErrorCode>(e),
        },
{
    let mut k: usize = 0;
    while k < balances.len()
        invariant
            k <= balances.len(),
            merge_balances(views(old(metas)@), views(balances@), 0, post) == merge_balances(
                views(metas@),
                views(balances@),
                k as int,
                post,
            ),
        decreases balances.len() - k,
    {
        let mint_key = match Key::from_base58(balances[k].mint.as_str()) {
            Some(mint_key) => mint_key,
            None => { return Err(ErrorCode::BadPubkeyString); },
        };
        merge_token_balance(metas, &balances[k], mint_key, post);
        k += 1;
    }
    Ok(())
}

/// Builds the token metas of a transaction from its balances before and
/// after. Every token account gets one meta.
pub fn build_token_metas(
    pre_token_balances: &[TokenBalance],
    post_token_balances: &[TokenBalance],
) -> (r: Result<Vec<TransactionTokenMeta>, ErrorCode>)
    ensures
        match token_index(views(pre_token_balances@), views(post_token_balances@)) {
            Ok(metas) => r is Ok && views(r->Ok_0@) == metas && distinct_accounts(metas),
            Err(e) => r is Err && r->Err_0 == e,
        },
{
    let mut metas: Vec<TransactionTokenMeta> = Vec::new();
    assert(views(metas@) =~= Seq::empty());
    proof {
        lemma_token_index_distinct(views(pre_token_balances@), views(post_token_balances@));
    }
    match merge_token_balances(&mut metas, pre_token_balances, false) {
        Err(e) => { return Err(e); },
        Ok(()) => {},
    }
    match merge_token_balances(&mut metas, post_token_balances, true) {
        Err(e) => { return Err(e); },
        Ok(()) => {},
    }
    Ok(metas)
}

/// An instruction that was kept, with the key by which it is grouped and its
/// place: the transaction's place in the ledger, the number of the outer
/// instruction, and the instruction's number inside it for an inner one.
#[derive(Debug, Clone, PartialEq, Eq)]
pub struct PartitionedInstruction {
    pub instruction: CompiledInstruction,
    pub partition_key: Key,
    pub program_key: Key,
    pub outer_index: i64,
    pub inner_index: Option<i64>,
    pub signature: [u8; 64],
    pub slot: u64,
    pub block_index: u64,
}

/// What a `PartitionedInstruction` holds.
pub struct PartitionedInstructionView {
    pub instruction: CompiledInstructionView,
    pub partition_key: Key,
    pub program_key: Key,
    pub outer_index: i64,
    pub inner_index: Option<i64>,
    pub signature: Seq<u8>,
    pub slot: u64,
    pub block_index: u64,
}

impl View for PartitionedInstruction {
    type V = PartitionedInstructionView;

    open spec fn view(&self) -> PartitionedInstructionView {
        PartitionedInstructionView {
            instruction: self.instruction@,
            partition_key: self.partition_key,
            program_key: self.program_key,
            outer_index: self.outer_index,
            inner_index: self.inner_index,
            signature: self.signature@,
            slot: self.slot,
            block_index: self.block_index,
        }
    }
}

/// What stays the same while a transaction is partitioned.
pub struct Frame {
    pub account_keys: Seq<Key>,
    pub token_metas: Seq<TransactionTokenMetaView>,
    pub partitioners: Seq<InstructionPartitioner>,
    pub signature: Seq<u8>,
    pub slot: u64,
    pub block_index: u64,
}

/// What changes while a transaction is partitioned: the metas of the token
/// accounts initialized so far and not yet closed, and the instructions kept
/// so far.
pub struct Progress {
    pub transient_metas: Seq<TransactionTokenMetaView>,
    pub partitioned: Seq<PartitionedInstructionView>,
}

impl Progress {
    /// Nothing initialized, nothing kept.
    pub open spec fn start() -> Progress {
        Progress { transient_metas: Seq::empty(), partitioned: Seq::empty() }
    }
}

/// The index of an inner instruction as it is kept.
pub open spec fn kept_inner_index(inner_index: Option<int>) -> Option<i64> {
    match inner_index {
        Some(i) => Some(i as i64),
        None => None,
    }
}

/// The progress after one more instruction. The instruction is kept, behind
/// those kept before, where its partitioner gives a key.
pub open spec fn step(
    frame: Frame,
    progress: Progress,
    instruction: CompiledInstructionView,
    outer_index: int,
    inner_index: Option<int>,
) -> Result<Progress, ErrorCode> {
    let (key, transient_metas) = partition_of(
        instruction,
        frame.account_keys,
        frame.token_metas,
        progress.transient_metas,
        frame.partitioners,
    );
    match key {
        Err(e) => Err(e),
        Ok(None) => Ok(Progress { transient_metas, partitioned: progress.partitioned }),
        Ok(Some(partition_key)) => Ok(
            Progress {
                transient_metas,
                partitioned: progress.partitioned.push(
                    PartitionedInstructionView {
                        instruction,
                        partition_key,
                        program_key: instruction.program_key(frame.account_keys).unwrap(),
                        outer_index: outer_index as i64,
                        inner_index: kept_inner_index(inner_index),
                        signature: frame.signature,
                        slot: frame.slot,
                        block_index: frame.block_index,
                    },
                ),
            },
        ),
    }
}

/// The progress after the inner instructions of the outer instruction number
/// `outer_index`, from number `i` on, in their order.
pub open spec fn run_group(
    frame: Frame,
    instructions: Seq<CompiledInstructionView>,
    outer_index: int,
    i: int,
    progress: Progress,
) -> Result<Progress, ErrorCode>
    decreases instructions.len() - i,
{
    if i < 0 || i >= instructions.len() {
        Ok(progress)
    } else {
        match step(frame, progress, instructions[i], outer_index, Some(i)) {
            Err(e) => Err(e),
            Ok(next) => run_group(frame, instructions, outer_index, i + 1, next),
        }
    }
}

/// Whether the group of inner instructions at `cursor` belongs to the outer
/// instruction number `outer_index`.
pub open spec fn group_is_due(
    inner_instructions: Seq<InnerInstructionsView>,
    cursor: int,
    outer_index: int,
) -> bool {
    0 <= cursor < inner_instructions.len() && inner_instructions[cursor].index == outer_index
}

/// The progress after the outer instructions from number `outer_index` on.
/// The groups of inner instructions are taken in their order: where the next
/// group belongs to an outer instruction, its instructions come first, then
/// the outer instruction itself.
pub open spec fn run_from(
    frame: Frame,
    instructions: Seq<CompiledInstructionView>,
    inner_instructions: Seq<InnerInstructionsView>,
    outer_index: int,
    cursor: int,
    progress: Progress,
) -> Result<Progress, ErrorCode>
    decreases instructions.len() - outer_index,
{
    if outer_index < 0 || outer_index >= instructions.len() {
        Ok(progress)
    } else {
        let due = group_is_due(inner_instructions, cursor, outer_index);
        let inner = if due {
            run_group(frame, inner_instructions[cursor].instructions, outer_index, 0, progress)
        } else {
            Ok(progress)
        };
        match inner {
            Err(e) => Err(e),
            Ok(after_inner) => match step(
                frame,
                after_inner,
                instructions[outer_index],
                outer_index,
                None,
            ) {
                Err(e) => Err(e),
                Ok(next) => run_from(
                    frame,
                    instructions,
                    inner_instructions,
                    outer_index + 1,
                    if due {
                        cursor + 1
                    } else {
                        cursor
                    },
                    next,
                ),
            },
        }
    }
}

/// The frame of a transaction with the given token metas.
pub open spec fn frame_of(
    transaction: TransactionView,
    token_metas: Seq<TransactionTokenMetaView>,
    partitioners: Seq<InstructionPartitioner>,
) -> Frame {
    Frame {
        account_keys: transaction.message.account_keys,
        token_metas,
        partitioners,
        signature: transaction.signature,
        slot: transaction.slot,
        block_index: transaction.block_index,
    }
}

/// The progress at the end of a transaction that did not fail: all its
/// instructions in the order in which they ran.
pub open spec fn run_transaction(
    transaction: TransactionView,
    partitioners: Seq<InstructionPartitioner>,
) -> Result<Progress, ErrorCode> {
    match transaction.status {
        None => Err(ErrorCode::MissingTransactionStatusMeta),
        Some(status) => match token_index(status.pre_token_balances, status.post_token_balances) {
            Err(e) => Err(e),
            Ok(token_metas) => run_from(
                frame_of(transaction, token_metas, partitioners),
                transaction.message.instructions,
                status.inner_instructions,
                0,
                0,
                Progress::start(),
            ),
        },
    }
}

/// What the progress at the end of a transaction gives: the instructions
/// kept, unless a token account that was initialized within the transaction
/// is left over.
pub open spec fn outcome(run: Result<Progress, ErrorCode>) -> Result<
    Seq<PartitionedInstructionView>,
    ErrorCode,
> {
    match run {
        Err(e) => Err(e),
        Ok(progress) => if progress.transient_metas.len() != 0 {
            Err(ErrorCode::FailedTransientTokenAccountMatching)
        } else {
            Ok(progress.partitioned)
        },
    }
}

/// The instructions of a transaction that are kept, in the order in which
/// they ran. A failed transaction gives none. A transaction in which a token
/// account was initialized and not closed again, without showing in the
/// balances, is refused.
pub open spec fn partitioned(
    transaction: TransactionView,
    partitioners: Seq<InstructionPartitioner>,
) -> Result<Seq<PartitionedInstructionView>, ErrorCode> {
    match transaction.status {
        None => Err(ErrorCode::MissingTransactionStatusMeta),
        Some(status) => if status.failed {
            Ok(Seq::empty())
        } else {
            outcome(run_transaction(transaction, partitioners))
        },
    }
}

/// The views of the instructions in a result.
pub open spec fn result_views(r: Result<Vec<PartitionedInstruction>, ErrorCode>) -> Result<
    Seq<PartitionedInstructionView>,
    ErrorCode,
> {
    match r {
        Ok(kept) => Ok(views(kept@)),
        Err(e) => Err(e),
    }
}

/// Partitions one more instruction of a transaction and keeps it where its
/// partitioner gives a key.
fn partition_next(
    transaction: &Transaction,
    token_metas: &[TransactionTokenMeta],
    partitioners: &[InstructionPartitioner],
    instruction: &CompiledInstruction,
    outer_index: usize,
    inner_index: Option<usize>,
    transient_metas: &mut Vec<TransactionTokenMeta>,
    kept: &mut Vec<PartitionedInstruction>,
) -> (r: Result<(), ErrorCode>)
    requires
        outer_index <= i64::MAX,
        inner_index matches Some(i) ==> i <= i64::MAX,
    ensures
        match step(
            frame_of(transaction@, views(token_metas@), partitioners@),
            Progress {
                transient_metas: views(old(transient_metas)@),
                partitioned: views(old(kept)@),
            },
            instruction@,
            outer_index as int,
            match inner_index {
                Some(i) => Some(i as int),
                None => None,
            },
        ) {
            Err(e) => r == Err::<(), ErrorCode>(e),
            Ok(next) => r is Ok && views(final(transient_metas)@) == next.transient_metas && views(
                final(kept)@,
            ) == next.partitioned,
        },
{
    let ctx = InstructionContext {
        instruction,
        account_keys: transaction.message.account_keys.as_slice(),
        token_metas,
        transient_metas,
    };
    let partition_key = match partition_instruction(ctx, partitioners) {
        Err(e) => { return Err(e); },
        Ok(None) => { return Ok(()); },
        Ok(Some(partition_key)) => partition_key,
    };
    let program_key = match instruction.program_key(transaction.message.account_keys.as_slice()) {
        Some(program_key) => program_key,
        None => { return Err(ErrorCode::BadAccountKeyIndex); },
    };
    let inner_index = match inner_index {
        Some(i) => Some(i as i64),
        None => None,
    };
    let next = PartitionedInstruction {
        instruction: instruction.clone(),
        partition_key,
        program_key,
        outer_index: outer_index as i64,
        inner_index,
        signature: transaction.signature,
        slot: transaction.slot,
        block_index: transaction.block_index,
    };
    kept.push(next);
    Ok(())
}

/// Partitions a transaction: gives, in the order in which they ran, those of
/// its instructions that are likely to touch a non-fungible token, each with
/// the key by which it is grouped. The inner instructions of an outer
/// instruction come before that instruction.
pub fn partition_transaction(
    transaction: &Transaction,
    partitioners: &[InstructionPartitioner],
) -> (r: Result<Vec<PartitionedInstruction>, ErrorCode>)
    requires
        transaction@.indexable(),
    ensures
        result_views(r) == partitioned(transaction@, partitioners@),
        r matches Ok(kept) ==> in_replay_order(views(kept@)),
{
    proof {
        lemma_partitioned_in_replay_order(transaction@, partitioners@);
    }
    let status = match &transaction.status {
        None => { return Err(ErrorCode::MissingTransactionStatusMeta); },
        Some(status) => status,
    };
    let mut kept: Vec<PartitionedInstruction> = Vec::new();
    assert(views(kept@) =~= Seq::empty());
    if status.failed {
        return Ok(kept);
    }
    let token_metas = match build_token_metas(
        status.pre_token_balances.as_slice(),
        status.post_token_balances.as_slice(),
    ) {
        Err(e) => { return Err(e); },
        Ok(token_metas) => token_metas,
    };
    let mut transient_metas: Vec<TransactionTokenMeta> = Vec::new();
    assert(views(transient_metas@) =~= Seq::empty());
    let ghost frame = frame_of(transaction@, views(token_metas@), partitioners@);
    let ghost goal = run_transaction(transaction@, partitioners@);
    let ghost expected = partitioned(transaction@, partitioners@);
    let instructions = &transaction.message.instructions;
    let inner_instructions = &status.inner_instructions;
    let mut cursor: usize = 0;
    let mut outer_index: usize = 0;
    while outer_index < instructions.len()
        invariant
            outer_index <= instructions.len(),
            cursor <= inner_instructions.len(),
            transaction@.indexable(),
            transaction@.status == Some(status@),
            instructions == &transaction.message.instructions,
            inner_instructions == &status.inner_instructions,
            frame == frame_of(transaction@, views(token_metas@), partitioners@),
            expected == partitioned(transaction@, partitioners@),
            expected == outcome(goal),
            goal == run_from(
                frame,
                views(instructions@),
                views(inner_instructions@),
                outer_index as int,
                cursor as int,
                Progress {
                    transient_metas: views(transient_metas@),
                    partitioned: views(kept@),
                },
            ),
        decreases instructions.len() - outer_index,
    {
        let ghost before = Progress {
            transient_metas: views(transient_metas@),
            partitioned: views(kept@),
        };
        let due = cursor < inner_instructions.len() && inner_instructions[cursor].index as usize
            == outer_index;
        if due {
            let group = &inner_instructions[cursor].instructions;
            let mut i: usize = 0;
            while i < group.len()
                invariant
                    i <= group.len(),
                    group.len() <= i64::MAX,
                    outer_index < instructions.len() <= i64::MAX,
                    frame == frame_of(transaction@, views(token_metas@), partitioners@),
                    expected == partitioned(transaction@, partitioners@),
                    expected == outcome(goal),
                    group_is_due(views(inner_instructions@), cursor as int, outer_index as int),
                    views(inner_instructions@)[cursor as int].instructions == views(group@),
                    goal == run_from(
                        frame,
                        views(instructions@),
                        views(inner_instructions@),
                        outer_index as int,
                        cursor as int,
                        before,
                    ),
                    run_group(frame, views(group@), outer_index as int, 0, before) == run_group(
                        frame,
                        views(group@),
                        outer_index as int,
                        i as int,
                        Progress {
                            transient_metas: views(transient_metas@),
                            partitioned: views(kept@),
                        },
                    ),
                decreases group.len() - i,
            {
                match partition_next(
                    transaction,
                    token_metas.as_slice(),
                    partitioners,
                    &group[i],
                    outer_index,
                    Some(i),
                    &mut transient_metas,
                    &mut kept,
                ) {
                    Err(e) => {
                        return Err(e);
                    },
                    Ok(()) => {},
                }
                i += 1;
            }
            cursor += 1;
        }
        match partition_next(
            transaction,
            token_metas.as_slice(),
            partitioners,
            &instructions[outer_index],
            outer_index,
            None,
            &mut transient_metas,
            &mut kept,
        ) {
            Err(e) => {
                return Err(e);
            },
            Ok(()) => {},
        }
        outer_index += 1;
    }
    if transient_metas.len() != 0 {
        return Err(ErrorCode::FailedTransientTokenAccountMatching);
    }
    Ok(kept)
}

} // verus!
