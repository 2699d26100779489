//! What holds of a token's state over its replay: its edition, its metadata
//! account and the versions of its metadata.

use crate::assemble::{
    assembled, collection_verification, creator_verification, replay_from, result_view,
    trace_from, update_of, updater_of, Bonbon, BonbonUpdater, BonbonView, EditionStatus,
    ErrorCode, GlazingView, ReplayedView, TracedView, TransactionTokenOwnerMeta, Updater,
};
use crate::instruction::CompiledInstructionView;
use crate::key::{lemma_key_bytes_decide, Key};
use crate::metadata::{metadata_account_of, metadata_decoded, MetadataInstructionView};
use crate::token::token_unpacked;
use vstd::prelude::*;

verus! {

/// The instruction goes to the updater of the metadata program and decodes
/// to an instruction of which `such` holds.
pub open spec fn is_metadata_instruction(
    instruction: CompiledInstructionView,
    account_keys: Seq<Key>,
    updaters: Seq<BonbonUpdater>,
    such: spec_fn(MetadataInstructionView) -> bool,
) -> bool {
    &&& updater_of(instruction, account_keys, updaters) == Some(Updater::Metadata)
    &&& metadata_decoded(instruction.data) matches Some(decoded) && such(decoded)
}

/// The instructions that print a token as an edition of a master.
pub open spec fn prints_edition() -> spec_fn(MetadataInstructionView) -> bool {
    |decoded: MetadataInstructionView|
        decoded is DeprecatedMintNewEditionFromMasterEditionViaPrintingToken
            || decoded is MintNewEditionFromMasterEditionViaToken
            || decoded is MintNewEditionFromMasterEditionViaVaultProxy
}

/// The instructions that set a token's metadata account.
pub open spec fn sets_metadata_account() -> spec_fn(MetadataInstructionView) -> bool {
    |decoded: MetadataInstructionView|
        decoded is CreateMetadataAccount || decoded is CreateMetadataAccountV2
            || prints_edition()(decoded)
}

/// The instructions that record one more version of a token's metadata.
pub open spec fn records_version() -> spec_fn(MetadataInstructionView) -> bool {
    |decoded: MetadataInstructionView|
        decoded is CreateMetadataAccount || decoded is CreateMetadataAccountV2 || (
        decoded matches MetadataInstructionView::UpdateMetadataAccount(Some(_))) || (
        decoded matches MetadataInstructionView::UpdateMetadataAccountV2(Some(_)))
            || decoded is SignMetadata || decoded is RemoveCreatorVerification
            || decoded is VerifyCollection || decoded is UnverifyCollection
            || decoded is SetAndVerifyCollection
}

/// The instruction goes to the updater of the token program and initializes
/// a mint.
pub open spec fn initializes_mint(
    instruction: CompiledInstructionView,
    account_keys: Seq<Key>,
    updaters: Seq<BonbonUpdater>,
) -> bool {
    &&& updater_of(instruction, account_keys, updaters) == Some(Updater::Token)
    &&& token_unpacked(instruction.data) matches Some(decoded) && decoded is InitializeMint
}

/// `earlier` is how `later` began.
pub open spec fn extends(later: Seq<GlazingView>, earlier: Seq<GlazingView>) -> bool {
    earlier.len() <= later.len() && later.subrange(0, earlier.len() as int) == earlier
}

/// No instruction takes a token's edition away, and a limited edition stays
/// one.
pub proof fn lemma_edition_is_kept(
    bonbon: BonbonView,
    instruction: CompiledInstructionView,
    account_keys: Seq<Key>,
    owners: Seq<TransactionTokenOwnerMeta>,
    updaters: Seq<BonbonUpdater>,
)
    requires
        update_of(bonbon, instruction, account_keys, owners, updaters) is Ok,
    ensures
        bonbon.edition_status != EditionStatus::NotCreated ==> update_of(
            bonbon,
            instruction,
            account_keys,
            owners,
            updaters,
        )->Ok_0.edition_status != EditionStatus::NotCreated,
        bonbon.edition_status == EditionStatus::Limited ==> update_of(
            bonbon,
            instruction,
            account_keys,
            owners,
            updaters,
        )->Ok_0.edition_status == EditionStatus::Limited,
{
}

/// Edition monotonicity: once a token is a master or a limited edition, an
/// instruction leaves its edition as it is, unless the token is a master and
/// the instruction prints it as an edition.
pub proof fn lemma_edition_stays(
    bonbon: BonbonView,
    instruction: CompiledInstructionView,
    account_keys: Seq<Key>,
    owners: Seq<TransactionTokenOwnerMeta>,
    updaters: Seq<BonbonUpdater>,
)
    requires
        update_of(bonbon, instruction, account_keys, owners, updaters) is Ok,
        bonbon.edition_status != EditionStatus::NotCreated,
        !(bonbon.edition_status == EditionStatus::Master && is_metadata_instruction(
            instruction,
            account_keys,
            updaters,
            prints_edition(),
        )),
    ensures
        update_of(bonbon, instruction, account_keys, owners, updaters)->Ok_0.edition_status
            == bonbon.edition_status,
{
}

/// Over any run of instructions, a token's edition is never taken away, and
/// a limited edition stays one.
pub proof fn lemma_replay_keeps_edition(
    bonbon: BonbonView,
    instructions: Seq<ReplayedView>,
    k: int,
    updaters: Seq<BonbonUpdater>,
)
    requires
        replay_from(bonbon, instructions, k, updaters) is Ok,
    ensures
        bonbon.edition_status != EditionStatus::NotCreated ==> replay_from(
            bonbon,
            instructions,
            k,
            updaters,
        )->Ok_0.edition_status != EditionStatus::NotCreated,
        bonbon.edition_status == EditionStatus::Limited ==> replay_from(
            bonbon,
            instructions,
            k,
            updaters,
        )->Ok_0.edition_status == EditionStatus::Limited,
    decreases instructions.len() - k,
{
    if 0 <= k < instructions.len() {
        let step = instructions[k];
        lemma_edition_is_kept(bonbon, step.instruction, step.account_keys, step.owners, updaters);
        let next = update_of(bonbon, step.instruction, step.account_keys, step.owners, updaters);
        lemma_replay_keeps_edition(next->Ok_0, instructions, k + 1, updaters);
    }
}

/// The master of an edition is known only of limited editions.
pub open spec fn master_only_of_limited(bonbon: BonbonView) -> bool {
    bonbon.limited_edition is Some ==> bonbon.edition_status == EditionStatus::Limited
}

/// An instruction keeps it so that only a limited edition has a master.
pub proof fn lemma_master_only_of_limited(
    bonbon: BonbonView,
    instruction: CompiledInstructionView,
    account_keys: Seq<Key>,
    owners: Seq<TransactionTokenOwnerMeta>,
    updaters: Seq<BonbonUpdater>,
)
    requires
        update_of(bonbon, instruction, account_keys, owners, updaters) is Ok,
        master_only_of_limited(bonbon),
    ensures
        master_only_of_limited(
            update_of(bonbon, instruction, account_keys, owners, updaters)->Ok_0,
        ),
{
}

/// Over any run of instructions, only a limited edition has a master; so it
/// is with every token that is assembled from nothing.
pub proof fn lemma_replay_keeps_master_only_of_limited(
    bonbon: BonbonView,
    instructions: Seq<ReplayedView>,
    k: int,
    updaters: Seq<BonbonUpdater>,
)
    requires
        replay_from(bonbon, instructions, k, updaters) is Ok,
        master_only_of_limited(bonbon),
    ensures
        master_only_of_limited(replay_from(bonbon, instructions, k, updaters)->Ok_0),
        master_only_of_limited(BonbonView::fresh()),
    decreases instructions.len() - k,
{
    if 0 <= k < instructions.len() {
        let step = instructions[k];
        lemma_master_only_of_limited(
            bonbon,
            step.instruction,
            step.account_keys,
            step.owners,
            updaters,
        );
        let next = update_of(bonbon, step.instruction, step.account_keys, step.owners, updaters);
        lemma_replay_keeps_master_only_of_limited(next->Ok_0, instructions, k + 1, updaters);
    }
}

/// Metadata identity: an instruction leaves a token's metadata account as it
/// is, unless it sets the account anew. An instruction that sets it anew
/// leaves it as it is where it is the account derived for the token's mint.
pub proof fn lemma_metadata_key_stays(
    bonbon: BonbonView,
    instruction: CompiledInstructionView,
    account_keys: Seq<Key>,
    owners: Seq<TransactionTokenOwnerMeta>,
    updaters: Seq<BonbonUpdater>,
)
    requires
        update_of(bonbon, instruction, account_keys, owners, updaters) is Ok,
        is_metadata_instruction(instruction, account_keys, updaters, sets_metadata_account())
            ==> metadata_account_of(bonbon.mint_key@) == Some(bonbon.metadata_key@),
    ensures
        update_of(bonbon, instruction, account_keys, owners, updaters)->Ok_0.metadata_key
            == bonbon.metadata_key,
{
    if is_metadata_instruction(instruction, account_keys, updaters, sets_metadata_account()) {
        let next = update_of(bonbon, instruction, account_keys, owners, updaters)->Ok_0;
        lemma_key_bytes_decide(next.metadata_key, bonbon.metadata_key);
    }
}

/// Over any run of instructions that initializes no mint, a metadata account
/// that is the one derived for the token's mint stays the token's metadata
/// account.
pub proof fn lemma_replay_keeps_metadata_key(
    bonbon: BonbonView,
    instructions: Seq<ReplayedView>,
    k: int,
    updaters: Seq<BonbonUpdater>,
)
    requires
        replay_from(bonbon, instructions, k, updaters) is Ok,
        metadata_account_of(bonbon.mint_key@) == Some(bonbon.metadata_key@),
        forall|i: int|
            k <= i < instructions.len() ==> !initializes_mint(
                (#[trigger] instructions[i]).instruction,
                instructions[i].account_keys,
                updaters,
            ),
    ensures
        replay_from(bonbon, instructions, k, updaters)->Ok_0.metadata_key == bonbon.metadata_key,
    decreases instructions.len() - k,
{
    if 0 <= k < instructions.len() {
        let step = instructions[k];
        lemma_metadata_key_stays(
            bonbon,
            step.instruction,
            step.account_keys,
            step.owners,
            updaters,
        );
        let next = update_of(bonbon, step.instruction, step.account_keys, step.owners, updaters);
        lemma_replay_keeps_metadata_key(next->Ok_0, instructions, k + 1, updaters);
    }
}

/// A change of a creator's verification adds exactly one version behind
/// those that are there.
pub proof fn lemma_creator_verification_appends(
    glazing: Seq<GlazingView>,
    creator: Key,
    verified: bool,
)
    ensures
        creator_verification(glazing, creator, verified).len() == glazing.len() + 1,
        extends(creator_verification(glazing, creator, verified), glazing),
{
    assert(creator_verification(glazing, creator, verified).subrange(0, glazing.len() as int)
        =~= glazing);
}

/// A change of the collection's verification adds exactly one version behind
/// those that are there.
pub proof fn lemma_collection_verification_appends(
    glazing: Seq<GlazingView>,
    collection: Key,
    verified: bool,
)
    ensures
        collection_verification(glazing, collection, verified).len() == glazing.len() + 1,
        extends(collection_verification(glazing, collection, verified), glazing),
{
    assert(collection_verification(glazing, collection, verified).subrange(
        0,
        glazing.len() as int,
    ) =~= glazing);
}

/// Glazing growth: an instruction keeps the versions that are there, in their
/// order, and adds exactly one where it creates metadata, updates it with
/// new data, or changes a verification; it adds none otherwise.
pub proof fn lemma_glazing_grows(
    bonbon: BonbonView,
    instruction: CompiledInstructionView,
    account_keys: Seq<Key>,
    owners: Seq<TransactionTokenOwnerMeta>,
    updaters: Seq<BonbonUpdater>,
)
    requires
        update_of(bonbon, instruction, account_keys, owners, updaters) is Ok,
    ensures
        extends(
            update_of(bonbon, instruction, account_keys, owners, updaters)->Ok_0.glazing,
            bonbon.glazing,
        ),
        update_of(bonbon, instruction, account_keys, owners, updaters)->Ok_0.glazing.len()
            == bonbon.glazing.len() + if is_metadata_instruction(
            instruction,
            account_keys,
            updaters,
            records_version(),
        ) {
            1int
        } else {
            0int
        },
{
    let next = update_of(bonbon, instruction, account_keys, owners, updaters)->Ok_0;
    assert(next.glazing.subrange(0, bonbon.glazing.len() as int) =~= bonbon.glazing);
}

/// Over any run of instructions, the versions of a token's metadata only
/// grow: those that were there stay, in their order.
pub proof fn lemma_replay_extends_glazing(
    bonbon: BonbonView,
    instructions: Seq<ReplayedView>,
    k: int,
    updaters: Seq<BonbonUpdater>,
)
    requires
        replay_from(bonbon, instructions, k, updaters) is Ok,
    ensures
        extends(replay_from(bonbon, instructions, k, updaters)->Ok_0.glazing, bonbon.glazing),
    decreases instructions.len() - k,
{
    if 0 <= k < instructions.len() {
        let step = instructions[k];
        lemma_glazing_grows(bonbon, step.instruction, step.account_keys, step.owners, updaters);
        let next = update_of(bonbon, step.instruction, step.account_keys, step.owners, updaters)->Ok_0;
        lemma_replay_extends_glazing(next, instructions, k + 1, updaters);
        let end = replay_from(bonbon, instructions, k, updaters)->Ok_0;
        assert(end.glazing.subrange(0, bonbon.glazing.len() as int) =~= next.glazing.subrange(
            0,
            bonbon.glazing.len() as int,
        ));
    } else {
        assert(bonbon.glazing.subrange(0, bonbon.glazing.len() as int) =~= bonbon.glazing);
    }
}

/// Assembling is a function of the instructions and of the table of
/// updaters: the same instructions in the same order, assembled twice from
/// nothing, give the same state or the same refusal.
pub proof fn lemma_assembly_is_deterministic(
    instructions: Seq<ReplayedView>,
    updaters: Seq<BonbonUpdater>,
    first: Result<Bonbon, ErrorCode>,
    second: Result<Bonbon, ErrorCode>,
)
    requires
        result_view(first) == assembled(instructions, updaters),
        result_view(second) == assembled(instructions, updaters),
    ensures
        result_view(first) == result_view(second),
{
}

/// Tracing the origins changes nothing of what is assembled: the state, or
/// the refusal, is that of the plain replay.
pub proof fn lemma_trace_follows_replay(
    traced: TracedView,
    instructions: Seq<ReplayedView>,
    k: int,
    updaters: Seq<BonbonUpdater>,
)
    ensures
        match trace_from(traced, instructions, k, updaters) {
            Ok(end) => replay_from(traced.bonbon, instructions, k, updaters) == Ok::<
                BonbonView,
                ErrorCode,
            >(end.bonbon),
            Err(e) => replay_from(traced.bonbon, instructions, k, updaters) == Err::<
                BonbonView,
                ErrorCode,
            >(e),
        },
    decreases instructions.len() - k,
{
    if 0 <= k < instructions.len() {
        let step = instructions[k];
        match update_of(traced.bonbon, step.instruction, step.account_keys, step.owners, updaters) {
            Err(_) => {},
            Ok(next) => {
                let origins = if next.glazing.len() > traced.bonbon.glazing.len() {
                    traced.origins.push(k)
                } else {
                    traced.origins
                };
                lemma_trace_follows_replay(
                    TracedView { bonbon: next, origins },
                    instructions,
                    k + 1,
                    updaters,
                );
            },
        }
    }
}

/// Every version has an origin, the origins are instructions before number
/// `k`, and a later version has a later origin.
pub open spec fn well_traced(traced: TracedView, k: int) -> bool {
    &&& traced.origins.len() == traced.bonbon.glazing.len()
    &&& forall|i: int| 0 <= i < traced.origins.len() ==> 0 <= #[trigger] traced.origins[i] < k
    &&& forall|i: int, j: int|
        0 <= i < j < traced.origins.len() ==> #[trigger] traced.origins[i]
            < #[trigger] traced.origins[j]
}

/// What is assembled has one origin for every version of the metadata; the
/// origins are among the instructions, and those of later versions are later
/// instructions.
pub proof fn lemma_trace_is_well_traced(
    traced: TracedView,
    instructions: Seq<ReplayedView>,
    k: int,
    updaters: Seq<BonbonUpdater>,
)
    requires
        0 <= k,
        well_traced(traced, k),
        trace_from(traced, instructions, k, updaters) is Ok,
    ensures
        well_traced(
            trace_from(traced, instructions, k, updaters)->Ok_0,
            if k <= instructions.len() {
                instructions.len() as int
            } else {
                k
            },
        ),
    decreases instructions.len() - k,
{
    if k < instructions.len() {
        let step = instructions[k];
        let next = update_of(
            traced.bonbon,
            step.instruction,
            step.account_keys,
            step.owners,
            updaters,
        )->Ok_0;
        lemma_glazing_grows(
            traced.bonbon,
            step.instruction,
            step.account_keys,
            step.owners,
            updaters,
        );
        let origins = if next.glazing.len() > traced.bonbon.glazing.len() {
            traced.origins.push(k)
        } else {
            traced.origins
        };
        let after = TracedView { bonbon: next, origins };
        lemma_trace_is_well_traced(after, instructions, k + 1, updaters);
    }
}

} // verus!
