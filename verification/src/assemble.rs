//! The assembler: folds the instructions of one token, in replay order, into
//! the token's current state.

use crate::instruction::{CompiledInstruction, CompiledInstructionView};
use crate::key::{lemma_key_bytes_decide, Key};
use crate::metadata::{
    decode_metadata_instruction, find_metadata_account, metadata_account_of, metadata_decoded,
    MetadataCollection, MetadataCreator, MetadataData, MetadataDataView, MetadataInstruction,
    MetadataInstructionView,
};
use crate::search::{first_index, is_first, lemma_first_absent, lemma_first_found};
use crate::token::{decode_token_instruction, token_unpacked, TokenInstruction};
use crate::views::views;
use vstd::prelude::*;
use vstd::std_specs::convert::FromSpecImpl;

verus! {

/// Why an instruction could not be applied to a token's state.
#[derive(Debug, Clone, Copy, PartialEq, Eq, Structural)]
pub enum ErrorCode {
    BadAccountKeyIndex,
    FailedInstructionDeserialization,
    InvalidMetadataCreate,
    InvalidMetadataUpdate,
    InvalidMasterEditionCreate,
    InvalidMetadataVerifyOperation,
}

/// The kind of edition that a token is. Every token starts without one: its
/// metadata has to exist before its edition can.
#[derive(Debug, Clone, Copy, PartialEq, Eq, Structural)]
pub enum EditionStatus {
    NotCreated,
    Master,
    Limited,
}

impl Default for EditionStatus {
    fn default() -> (r: EditionStatus)
        ensures
            r == EditionStatus::NotCreated,
    {
        EditionStatus::NotCreated
    }
}

/// The master from which a limited edition was printed, and its number.
#[derive(Debug, Clone, Copy, PartialEq, Eq)]
pub struct LimitedEdition {
    pub master_key: Key,
    pub edition_num: Option<i64>,
}

/// A creator of a token, with its share in percent.
#[derive(Debug, Clone, Copy, PartialEq, Eq)]
pub struct Creator {
    pub address: Key,
    pub verified: bool,
    pub share: i16,
}

/// The creator as kept, from the creator that an instruction names.
pub open spec fn creator_of(creator: MetadataCreator) -> Creator {
    Creator { address: creator.address, verified: creator.verified, share: creator.share as i16 }
}

impl From<MetadataCreator> for Creator {
    fn from(creator: MetadataCreator) -> (r: Creator) {
        Creator {
            address: creator.address,
            verified: creator.verified,
            share: creator.share as i16,
        }
    }
}

impl FromSpecImpl<MetadataCreator> for Creator {
    open spec fn obeys_from_spec() -> bool {
        true
    }

    open spec fn from_spec(creator: MetadataCreator) -> Creator {
        creator_of(creator)
    }
}

/// The collection that a token belongs to.
#[derive(Debug, Clone, Copy, PartialEq, Eq)]
pub struct Collection {
    pub address: Key,
    pub verified: bool,
}

/// The collection as kept, from the collection that an instruction names.
pub open spec fn collection_of(collection: MetadataCollection) -> Collection {
    Collection { address: collection.key, verified: collection.verified }
}

impl From<MetadataCollection> for Collection {
    fn from(collection: MetadataCollection) -> (r: Collection) {
        Collection { address: collection.key, verified: collection.verified }
    }
}

impl FromSpecImpl<MetadataCollection> for Collection {
    open spec fn obeys_from_spec() -> bool {
        true
    }

    open spec fn from_spec(collection: MetadataCollection) -> Collection {
        collection_of(collection)
    }
}

/// One version of a token's metadata: where it points, who made the token,
/// and the collection that the token belongs to.
#[derive(Debug, PartialEq, Eq)]
pub struct Glazing {
    pub uri: Vec<u8>,
    pub creators: Vec<Creator>,
    pub collection: Option<Collection>,
}

/// What a `Glazing` holds.
pub struct GlazingView {
    pub uri: Seq<u8>,
    pub creators: Seq<Creator>,
    pub collection: Option<Collection>,
}

impl View for Glazing {
    type V = GlazingView;

    open spec fn view(&self) -> GlazingView {
        GlazingView { uri: self.uri@, creators: self.creators@, collection: self.collection }
    }
}

impl GlazingView {
    /// The metadata that says nothing.
    pub open spec fn blank() -> GlazingView {
        GlazingView { uri: Seq::empty(), creators: Seq::empty(), collection: None }
    }
}

impl Default for Glazing {
    fn default() -> (r: Glazing)
        ensures
            r@ == GlazingView::blank(),
    {
        Glazing { uri: Vec::new(), creators: Vec::new(), collection: None }
    }
}

fn clone_creators(creators: &Vec<Creator>) -> (r: Vec<Creator>)
    ensures
        r@ == creators@,
{
    let mut copy: Vec<Creator> = Vec::new();
    let mut i: usize = 0;
    while i < creators.len()
        invariant
            i <= creators.len(),
            copy@ == creators@.subrange(0, i as int),
        decreases creators.len() - i,
    {
        copy.push(creators[i]);
        i += 1;
    }
    copy
}

impl Clone for Glazing {
    fn clone(&self) -> (r: Glazing)
        ensures
            r@ == self@,
    {
        Glazing {
            uri: self.uri.clone(),
            creators: clone_creators(&self.creators),
            collection: self.collection,
        }
    }
}

/// The state of one token: its mint and metadata account, where it is held,
/// its edition, and every version of its metadata in the order in which they
/// came. The two keys are all zero until an instruction sets them.
#[derive(Debug, Clone, PartialEq, Eq)]
pub struct Bonbon {
    pub mint_key: Key,
    pub metadata_key: Key,
    pub current_owner: Option<Key>,
    pub current_account: Option<Key>,
    pub edition_status: EditionStatus,
    pub limited_edition: Option<LimitedEdition>,
    pub glazing: Vec<Glazing>,
}

/// What a `Bonbon` holds.
pub struct BonbonView {
    pub mint_key: Key,
    pub metadata_key: Key,
    pub current_owner: Option<Key>,
    pub current_account: Option<Key>,
    pub edition_status: EditionStatus,
    pub limited_edition: Option<LimitedEdition>,
    pub glazing: Seq<GlazingView>,
}

impl View for Bonbon {
    type V = BonbonView;

    open spec fn view(&self) -> BonbonView {
        BonbonView {
            mint_key: self.mint_key,
            metadata_key: self.metadata_key,
            current_owner: self.current_owner,
            current_account: self.current_account,
            edition_status: self.edition_status,
            limited_edition: self.limited_edition,
            glazing: views(self.glazing@),
        }
    }
}

impl BonbonView {
    /// The state of a token of which nothing is known yet.
    pub open spec fn fresh() -> BonbonView {
        BonbonView {
            mint_key: Key::unset(),
            metadata_key: Key::unset(),
            current_owner: None,
            current_account: None,
            edition_status: EditionStatus::NotCreated,
            limited_edition: None,
            glazing: Seq::empty(),
        }
    }
}

impl Default for Bonbon {
    fn default() -> (r: Bonbon)
        ensures
            r@ == BonbonView::fresh(),
    {
        let r = Bonbon {
            mint_key: Key::default(),
            metadata_key: Key::default(),
            current_owner: None,
            current_account: None,
            edition_status: EditionStatus::NotCreated,
            limited_edition: None,
            glazing: Vec::new(),
        };
        assert(views(r.glazing@) =~= Seq::empty());
        r
    }
}

/// The condition "is the creator at `address`".
pub open spec fn at_address(address: Key) -> spec_fn(Creator) -> bool {
    |creator: Creator| creator.address == address
}

/// The creators with the first one at `address` marked as verified or not;
/// the creators as they are where none is at that address.
pub open spec fn verify_first(creators: Seq<Creator>, address: Key, verified: bool) -> Seq<
    Creator,
> {
    match first_index(creators, at_address(address)) {
        Some(i) => creators.update(i, Creator { verified, ..creators[i] }),
        None => creators,
    }
}

/// The versions of the metadata after a creator's verification changed: one
/// more version, which is the last with that creator marked. Where there is
/// no version yet, the new one names just that creator, with no share.
pub open spec fn creator_verification(
    glazing: Seq<GlazingView>,
    creator: Key,
    verified: bool,
) -> Seq<GlazingView> {
    if glazing.len() == 0 {
        glazing.push(
            GlazingView {
                creators: seq![Creator { address: creator, verified, share: 0 }],
                ..GlazingView::blank()
            },
        )
    } else {
        glazing.push(
            GlazingView {
                creators: verify_first(glazing.last().creators, creator, verified),
                ..glazing.last()
            },
        )
    }
}

/// The versions of the metadata after the collection's verification changed:
/// one more version, which is the last, or a blank one where there is none,
/// with the collection set.
pub open spec fn collection_verification(
    glazing: Seq<GlazingView>,
    collection: Key,
    verified: bool,
) -> Seq<GlazingView> {
    let last = if glazing.len() == 0 {
        GlazingView::blank()
    } else {
        glazing.last()
    };
    glazing.push(
        GlazingView { collection: Some(Collection { address: collection, verified }), ..last },
    )
}

fn position_of_creator(creators: &Vec<Creator>, address: &Key) -> (r: Option<usize>)
    ensures
        match r {
            Some(i) => first_index(creators@, at_address(*address)) == Some(i as int),
            None => first_index(creators@, at_address(*address)) is None,
        },
{
    let mut i: usize = 0;
    while i < creators.len()
        invariant
            i <= creators.len(),
            forall|j: int| 0 <= j < i ==> !at_address(*address)(#[trigger] creators@[j]),
        decreases creators.len() - i,
    {
        if creators[i].address == *address {
            proof {
                lemma_first_found(creators@, at_address(*address), i as int);
            }
            return Some(i);
        }
        i += 1;
    }
    proof {
        lemma_first_absent(creators@, at_address(*address));
    }
    None
}

impl Bonbon {
    /// Records that a creator's verification changed, as one more version of
    /// the metadata.
    pub fn apply_creator_verification(&mut self, creator_key: &Key, verified: bool)
        ensures
            final(self)@ == (BonbonView {
                glazing: creator_verification(old(self)@.glazing, *creator_key, verified),
                ..old(self)@
            }),
    {
        let count = self.glazing.len();
        let next = if count == 0 {
            let mut creators: Vec<Creator> = Vec::new();
            creators.push(Creator { address: *creator_key, verified, share: 0 });
            Glazing { uri: Vec::new(), creators, collection: None }
        } else {
            let mut next = self.glazing[count - 1].clone();
            match position_of_creator(&next.creators, creator_key) {
                Some(i) => {
                    let creator = next.creators[i];
                    next.creators[i] = Creator { verified, ..creator };
                },
                None => {},
            }
            next
        };
        self.glazing.push(next);
        assert(views(self.glazing@) =~= creator_verification(
            old(self)@.glazing,
            *creator_key,
            verified,
        ));
    }

    /// Records that the collection's verification changed, as one more
    /// version of the metadata.
    pub fn apply_collection_verification(&mut self, collection_key: &Key, verified: bool)
        ensures
            final(self)@ == (BonbonView {
                glazing: collection_verification(old(self)@.glazing, *collection_key, verified),
                ..old(self)@
            }),
    {
        let count = self.glazing.len();
        let last = if count == 0 {
            Glazing::default()
        } else {
            let last = self.glazing[count - 1].clone();
            last
        };
        let next = Glazing {
            collection: Some(Collection { address: *collection_key, verified }),
            ..last
        };
        self.glazing.push(next);
        assert(views(self.glazing@) =~= collection_verification(
            old(self)@.glazing,
            *collection_key,
            verified,
        ));
    }
}

/// The owner of a token account after a transaction.
#[derive(Debug, Clone, Copy, PartialEq, Eq)]
pub struct TransactionTokenOwnerMeta {
    pub account_index: u8,
    pub owner_key: Key,
}

/// The condition "is the owner entry of the token account `account_index`".
pub open spec fn owning(account_index: u8) -> spec_fn(TransactionTokenOwnerMeta) -> bool {
    |owner: TransactionTokenOwnerMeta| owner.account_index == account_index
}

/// The owner that the first entry for the token account gives.
pub open spec fn owner_of(owners: Seq<TransactionTokenOwnerMeta>, account_index: Option<u8>) -> Option<
    Key,
> {
    match account_index {
        None => None,
        Some(account_index) => match first_index(owners, owning(account_index)) {
            Some(i) => Some(owners[i].owner_key),
            None => None,
        },
    }
}

/// The creators of a token as kept, from those that an instruction names.
pub open spec fn creators_of(creators: Option<Seq<MetadataCreator>>) -> Seq<Creator> {
    match creators {
        Some(creators) => Seq::new(creators.len(), |i: int| creator_of(creators[i])),
        None => Seq::empty(),
    }
}

/// The version of the metadata that an instruction's data make.
pub open spec fn glazing_of(data: MetadataDataView) -> GlazingView {
    GlazingView {
        uri: data.uri,
        creators: creators_of(data.creators),
        collection: match data.collection {
            Some(collection) => Some(collection_of(collection)),
            None => None,
        },
    }
}

/// A token's state after its metadata account was created: the account has
/// to be the one that the metadata program derives for the token's mint. It
/// becomes the token's metadata account, and the data a version of the
/// metadata.
pub open spec fn created(
    bonbon: BonbonView,
    data: MetadataDataView,
    instruction: CompiledInstructionView,
    account_keys: Seq<Key>,
) -> Result<BonbonView, ErrorCode> {
    match instruction.account_key(account_keys, 0) {
        None => Err(ErrorCode::BadAccountKeyIndex),
        Some(metadata_key) => if metadata_account_of(bonbon.mint_key@) != Some(metadata_key@) {
            Err(ErrorCode::InvalidMetadataCreate)
        } else {
            Ok(
                BonbonView {
                    metadata_key,
                    glazing: bonbon.glazing.push(glazing_of(data)),
                    ..bonbon
                },
            )
        },
    }
}

/// A token's state after its metadata account was updated: the account has
/// to be the token's. New data become one more version of the metadata.
pub open spec fn updated(
    bonbon: BonbonView,
    data: Option<MetadataDataView>,
    instruction: CompiledInstructionView,
    account_keys: Seq<Key>,
) -> Result<BonbonView, ErrorCode> {
    match instruction.account_key(account_keys, 0) {
        None => Err(ErrorCode::BadAccountKeyIndex),
        Some(metadata_key) => if bonbon.metadata_key != metadata_key {
            Err(ErrorCode::InvalidMetadataUpdate)
        } else {
            match data {
                Some(data) => Ok(
                    BonbonView { glazing: bonbon.glazing.push(glazing_of(data)), ..bonbon },
                ),
                None => Ok(bonbon),
            }
        },
    }
}

/// A token's state after it was made a master edition: the metadata account,
/// which the instruction names at `slot`, has to be the token's, and the
/// token must not have an edition yet.
pub open spec fn made_master(
    bonbon: BonbonView,
    instruction: CompiledInstructionView,
    account_keys: Seq<Key>,
    slot: int,
) -> Result<BonbonView, ErrorCode> {
    match instruction.account_key(account_keys, slot) {
        None => Err(ErrorCode::BadAccountKeyIndex),
        Some(metadata_key) => if bonbon.metadata_key != metadata_key || bonbon.edition_status
            != EditionStatus::NotCreated {
            Err(ErrorCode::InvalidMasterEditionCreate)
        } else {
            Ok(BonbonView { edition_status: EditionStatus::Master, ..bonbon })
        },
    }
}

/// A token's state after it was printed as an edition of a master: the new
/// metadata account has to be the one derived for the token's mint. The
/// master's metadata account, which the instruction names at `master_slot`,
/// and the edition's number are kept where the instruction gives them. No
/// version of the metadata is taken over from the master: the edition's
/// metadata starts with what is recorded of the edition itself.
pub open spec fn printed(
    bonbon: BonbonView,
    instruction: CompiledInstructionView,
    account_keys: Seq<Key>,
    numbered: Option<(int, u64)>,
) -> Result<BonbonView, ErrorCode> {
    match instruction.account_key(account_keys, 0) {
        None => Err(ErrorCode::BadAccountKeyIndex),
        Some(metadata_key) => if metadata_account_of(bonbon.mint_key@) != Some(metadata_key@) {
            Err(ErrorCode::InvalidMetadataCreate)
        } else {
            match numbered {
                None => Ok(
                    BonbonView {
                        metadata_key,
                        edition_status: EditionStatus::Limited,
                        limited_edition: None,
                        ..bonbon
                    },
                ),
                Some((master_slot, edition)) => match instruction.account_key(
                    account_keys,
                    master_slot,
                ) {
                    None => Err(ErrorCode::BadAccountKeyIndex),
                    Some(master_key) => Ok(
                        BonbonView {
                            metadata_key,
                            edition_status: EditionStatus::Limited,
                            limited_edition: Some(
                                LimitedEdition { master_key, edition_num: Some(edition as i64) },
                            ),
                            ..bonbon
                        },
                    ),
                },
            }
        },
    }
}

/// A token's state after a creator signed its metadata or took the signature
/// back: the metadata account has to be the token's; the creator is the
/// instruction's second account.
pub open spec fn creator_signed(
    bonbon: BonbonView,
    instruction: CompiledInstructionView,
    account_keys: Seq<Key>,
    verified: bool,
) -> Result<BonbonView, ErrorCode> {
    match instruction.account_key(account_keys, 0) {
        None => Err(ErrorCode::BadAccountKeyIndex),
        Some(metadata_key) => if bonbon.metadata_key != metadata_key {
            Err(ErrorCode::InvalidMetadataVerifyOperation)
        } else {
            match instruction.account_key(account_keys, 1) {
                None => Err(ErrorCode::BadAccountKeyIndex),
                Some(creator) => Ok(
                    BonbonView {
                        glazing: creator_verification(bonbon.glazing, creator, verified),
                        ..bonbon
                    },
                ),
            }
        },
    }
}

/// A token's state after its collection was verified: the metadata account
/// has to be the token's; the collection is the account that the instruction
/// names at `slot`.
pub open spec fn collection_checked(
    bonbon: BonbonView,
    instruction: CompiledInstructionView,
    account_keys: Seq<Key>,
    slot: int,
) -> Result<BonbonView, ErrorCode> {
    match instruction.account_key(account_keys, 0) {
        None => Err(ErrorCode::BadAccountKeyIndex),
        Some(metadata_key) => if bonbon.metadata_key != metadata_key {
            Err(ErrorCode::InvalidMetadataVerifyOperation)
        } else {
            match instruction.account_key(account_keys, slot) {
                None => Err(ErrorCode::BadAccountKeyIndex),
                Some(collection) => Ok(
                    BonbonView {
                        glazing: collection_verification(bonbon.glazing, collection, true),
                        ..bonbon
                    },
                ),
            }
        },
    }
}

/// A token's state after a decoded instruction of the metadata program.
///
/// Unverifying a collection is recorded like verifying it: the collection is
/// set, and marked as verified.
pub open spec fn metadata_update(
    bonbon: BonbonView,
    decoded: MetadataInstructionView,
    instruction: CompiledInstructionView,
    account_keys: Seq<Key>,
) -> Result<BonbonView, ErrorCode> {
    match decoded {
        MetadataInstructionView::CreateMetadataAccount(data)
        | MetadataInstructionView::CreateMetadataAccountV2(data) => created(
            bonbon,
            data,
            instruction,
            account_keys,
        ),
        MetadataInstructionView::UpdateMetadataAccount(data)
        | MetadataInstructionView::UpdateMetadataAccountV2(data) => updated(
            bonbon,
            data,
            instruction,
            account_keys,
        ),
        MetadataInstructionView::DeprecatedCreateMasterEdition => made_master(
            bonbon,
            instruction,
            account_keys,
            7,
        ),
        MetadataInstructionView::CreateMasterEdition
        | MetadataInstructionView::CreateMasterEditionV3 => made_master(
            bonbon,
            instruction,
            account_keys,
            5,
        ),
        MetadataInstructionView::DeprecatedMintNewEditionFromMasterEditionViaPrintingToken =>
            printed(bonbon, instruction, account_keys, None),
        MetadataInstructionView::MintNewEditionFromMasterEditionViaToken { edition } => printed(
            bonbon,
            instruction,
            account_keys,
            Some((10, edition)),
        ),
        MetadataInstructionView::MintNewEditionFromMasterEditionViaVaultProxy { edition } =>
            printed(bonbon, instruction, account_keys, Some((12, edition))),
        MetadataInstructionView::SignMetadata => creator_signed(
            bonbon,
            instruction,
            account_keys,
            true,
        ),
        MetadataInstructionView::RemoveCreatorVerification => creator_signed(
            bonbon,
            instruction,
            account_keys,
            false,
        ),
        MetadataInstructionView::VerifyCollection
        | MetadataInstructionView::UnverifyCollection => collection_checked(
            bonbon,
            instruction,
            account_keys,
            3,
        ),
        MetadataInstructionView::SetAndVerifyCollection => collection_checked(
            bonbon,
            instruction,
            account_keys,
            4,
        ),
        _ => Ok(bonbon),
    }
}

/// What a call that changes a token's state has to leave behind for a given
/// outcome: the new state where the outcome is one, and the old state with
/// the error where it is not.
pub open spec fn applied(
    outcome: Result<BonbonView, ErrorCode>,
    before: BonbonView,
    after: BonbonView,
    r: Result<(), ErrorCode>,
) -> bool {
    match outcome {
        Ok(next) => r is Ok && after == next,
        Err(e) => r == Err::<(), ErrorCode>(e) && after == before,
    }
}

fn from_creators(creators: Option<Vec<MetadataCreator>>) -> (r: Vec<Creator>)
    ensures
        r@ == creators_of(
            match creators {
                Some(creators) => Some(creators@),
                None => None,
            },
        ),
{
    let mut kept: Vec<Creator> = Vec::new();
    match creators {
        None => {},
        Some(creators) => {
            let mut i: usize = 0;
            while i < creators.len()
                invariant
                    i <= creators.len(),
                    kept@.len() == i,
                    forall|j: int| 0 <= j < i ==> kept@[j] == creator_of(creators@[j]),
                decreases creators.len() - i,
            {
                kept.push(Creator::from(creators[i]));
                i += 1;
            }
        },
    }
    kept
}

fn glazing_from(data: MetadataData) -> (r: Glazing)
    ensures
        r@ == glazing_of(data@),
{
    Glazing {
        uri: data.uri,
        creators: from_creators(data.creators),
        collection: match data.collection {
            Some(collection) => Some(Collection::from(collection)),
            None => None,
        },
    }
}

/// Whether `account` is the metadata account that the metadata program
/// derives for `mint`.
fn is_metadata_account_of(mint: &Key, account: &Key) -> (r: bool)
    ensures
        r == (metadata_account_of(mint@) == Some(account@)),
{
    match find_metadata_account(mint) {
        Some(derived) => {
            proof {
                lemma_key_bytes_decide(derived, *account);
            }
            derived == *account
        },
        None => false,
    }
}

fn apply_created(
    bonbon: &mut Bonbon,
    data: MetadataData,
    instruction: &CompiledInstruction,
    account_keys: &[Key],
) -> (r: Result<(), ErrorCode>)
    ensures
        applied(
            created(old(bonbon)@, data@, instruction@, account_keys@),
            old(bonbon)@,
            final(bonbon)@,
            r,
        ),
{
    let metadata_key = match instruction.account_key(account_keys, 0) {
        None => { return Err(ErrorCode::BadAccountKeyIndex); },
        Some(metadata_key) => metadata_key,
    };
    if !is_metadata_account_of(&bonbon.mint_key, &metadata_key) {
        return Err(ErrorCode::InvalidMetadataCreate);
    }
    bonbon.metadata_key = metadata_key;
    bonbon.glazing.push(glazing_from(data));
    assert(views(bonbon.glazing@) =~= old(bonbon)@.glazing.push(glazing_of(data@)));
    Ok(())
}

fn apply_updated(
    bonbon: &mut Bonbon,
    data: Option<MetadataData>,
    instruction: &CompiledInstruction,
    account_keys: &[Key],
) -> (r: Result<(), ErrorCode>)
    ensures
        applied(
            updated(
                old(bonbon)@,
                match data {
                    Some(data) => Some(data@),
                    None => None,
                },
                instruction@,
                account_keys@,
            ),
            old(bonbon)@,
            final(bonbon)@,
            r,
        ),
{
    let metadata_key = match instruction.account_key(account_keys, 0) {
        None => { return Err(ErrorCode::BadAccountKeyIndex); },
        Some(metadata_key) => metadata_key,
    };
    if !(bonbon.metadata_key == metadata_key) {
        return Err(ErrorCode::InvalidMetadataUpdate);
    }
    match data {
        Some(data) => {
            bonbon.glazing.push(glazing_from(data));
            assert(views(bonbon.glazing@) =~= old(bonbon)@.glazing.push(glazing_of(data@)));
        },
        None => {},
    }
    Ok(())
}

fn apply_made_master(
    bonbon: &mut Bonbon,
    instruction: &CompiledInstruction,
    account_keys: &[Key],
    slot: usize,
) -> (r: Result<(), ErrorCode>)
    ensures
        applied(
            made_master(old(bonbon)@, instruction@, account_keys@, slot as int),
            old(bonbon)@,
            final(bonbon)@,
            r,
        ),
{
    let metadata_key = match instruction.account_key(account_keys, slot) {
        None => { return Err(ErrorCode::BadAccountKeyIndex); },
        Some(metadata_key) => metadata_key,
    };
    if !(bonbon.metadata_key == metadata_key) || bonbon.edition_status
        != EditionStatus::NotCreated {
        return Err(ErrorCode::InvalidMasterEditionCreate);
    }
    bonbon.edition_status = EditionStatus::Master;
    Ok(())
}

fn apply_printed(
    bonbon: &mut Bonbon,
    instruction: &CompiledInstruction,
    account_keys: &[Key],
    numbered: Option<(usize, u64)>,
) -> (r: Result<(), ErrorCode>)
    ensures
        applied(
            printed(
                old(bonbon)@,
                instruction@,
                account_keys@,
                match numbered {
                    Some((master_slot, edition)) => Some((master_slot as int, edition)),
                    None => None,
                },
            ),
            old(bonbon)@,
            final(bonbon)@,
            r,
        ),
{
    let metadata_key = match instruction.account_key(account_keys, 0) {
        None => { return Err(ErrorCode::BadAccountKeyIndex); },
        Some(metadata_key) => metadata_key,
    };
    if !is_metadata_account_of(&bonbon.mint_key, &metadata_key) {
        return Err(ErrorCode::InvalidMetadataCreate);
    }
    let limited_edition = match numbered {
        None => None,
        Some((master_slot, edition)) => match instruction.account_key(account_keys, master_slot) {
            None => { return Err(ErrorCode::BadAccountKeyIndex); },
            Some(master_key) => Some(
                LimitedEdition { master_key, edition_num: Some(edition as i64) },
            ),
        },
    };
    bonbon.metadata_key = metadata_key;
    bonbon.edition_status = EditionStatus::Limited;
    bonbon.limited_edition = limited_edition;
    Ok(())
}

fn apply_creator_signed(
    bonbon: &mut Bonbon,
    instruction: &CompiledInstruction,
    account_keys: &[Key],
    verified: bool,
) -> (r: Result<(), ErrorCode>)
    ensures
        applied(
            creator_signed(old(bonbon)@, instruction@, account_keys@, verified),
            old(bonbon)@,
            final(bonbon)@,
            r,
        ),
{
    let metadata_key = match instruction.account_key(account_keys, 0) {
        None => { return Err(ErrorCode::BadAccountKeyIndex); },
        Some(metadata_key) => metadata_key,
    };
    if !(bonbon.metadata_key == metadata_key) {
        return Err(ErrorCode::InvalidMetadataVerifyOperation);
    }
    let creator = match instruction.account_key(account_keys, 1) {
        None => { return Err(ErrorCode::BadAccountKeyIndex); },
        Some(creator) => creator,
    };
    bonbon.apply_creator_verification(&creator, verified);
    Ok(())
}

fn apply_collection_checked(
    bonbon: &mut Bonbon,
    instruction: &CompiledInstruction,
    account_keys: &[Key],
    slot: usize,
) -> (r: Result<(), ErrorCode>)
    ensures
        applied(
            collection_checked(old(bonbon)@, instruction@, account_keys@, slot as int),
            old(bonbon)@,
            final(bonbon)@,
            r,
        ),
{
    let metadata_key = match instruction.account_key(account_keys, 0) {
        None => { return Err(ErrorCode::BadAccountKeyIndex); },
        Some(metadata_key) => metadata_key,
    };
    if !(bonbon.metadata_key == metadata_key) {
        return Err(ErrorCode::InvalidMetadataVerifyOperation);
    }
    let collection = match instruction.account_key(account_keys, slot) {
        None => { return Err(ErrorCode::BadAccountKeyIndex); },
        Some(collection) => collection,
    };
    bonbon.apply_collection_verification(&collection, true);
    Ok(())
}

/// Applies an instruction of the metadata program that is already decoded to
/// a token's state. Where the instruction is refused, the state stays as it
/// is.
pub fn update_metadata_decoded(
    bonbon: &mut Bonbon,
    decoded: MetadataInstruction,
    instruction: &CompiledInstruction,
    account_keys: &[Key],
) -> (r: Result<(), ErrorCode>)
    ensures
        applied(
            metadata_update(old(bonbon)@, decoded@, instruction@, account_keys@),
            old(bonbon)@,
            final(bonbon)@,
            r,
        ),
{
    match decoded {
        MetadataInstruction::CreateMetadataAccount(data)
        | MetadataInstruction::CreateMetadataAccountV2(data) => apply_created(
            bonbon,
            data,
            instruction,
            account_keys,
        ),
        MetadataInstruction::UpdateMetadataAccount(data)
        | MetadataInstruction::UpdateMetadataAccountV2(data) => apply_updated(
            bonbon,
            data,
            instruction,
            account_keys,
        ),
        MetadataInstruction::DeprecatedCreateMasterEdition => apply_made_master(
            bonbon,
            instruction,
            account_keys,
            7,
        ),
        MetadataInstruction::CreateMasterEdition
        | MetadataInstruction::CreateMasterEditionV3 => apply_made_master(
            bonbon,
            instruction,
            account_keys,
            5,
        ),
        MetadataInstruction::DeprecatedMintNewEditionFromMasterEditionViaPrintingToken =>
            apply_printed(bonbon, instruction, account_keys, None),
        MetadataInstruction::MintNewEditionFromMasterEditionViaToken { edition } => apply_printed(
            bonbon,
            instruction,
            account_keys,
            Some((10, edition)),
        ),
        MetadataInstruction::MintNewEditionFromMasterEditionViaVaultProxy { edition } =>
            apply_printed(bonbon, instruction, account_keys, Some((12, edition))),
        MetadataInstruction::SignMetadata => apply_creator_signed(
            bonbon,
            instruction,
            account_keys,
            true,
        ),
        MetadataInstruction::RemoveCreatorVerification => apply_creator_signed(
            bonbon,
            instruction,
            account_keys,
            false,
        ),
        MetadataInstruction::VerifyCollection
        | MetadataInstruction::UnverifyCollection => apply_collection_checked(
            bonbon,
            instruction,
            account_keys,
            3,
        ),
        MetadataInstruction::SetAndVerifyCollection => apply_collection_checked(
            bonbon,
            instruction,
            account_keys,
            4,
        ),
        _ => Ok(()),
    }
}

/// A token's state after an instruction of the metadata program.
pub open spec fn metadata_updated(
    bonbon: BonbonView,
    instruction: CompiledInstructionView,
    account_keys: Seq<Key>,
) -> Result<BonbonView, ErrorCode> {
    match metadata_decoded(instruction.data) {
        None => Err(ErrorCode::FailedInstructionDeserialization),
        Some(decoded) => metadata_update(bonbon, decoded, instruction, account_keys),
    }
}

/// Applies an instruction of the metadata program to a token's state:
/// decodes its data, checks it against the state, and records what it
/// changes. Where the instruction is refused, the state stays as it is.
pub fn update_metadata_instruction(
    bonbon: &mut Bonbon,
    instruction: &CompiledInstruction,
    account_keys: &[Key],
    _owners: &[TransactionTokenOwnerMeta],
) -> (r: Result<(), ErrorCode>)
    ensures
        applied(
            metadata_updated(old(bonbon)@, instruction@, account_keys@),
            old(bonbon)@,
            final(bonbon)@,
            r,
        ),
{
    match decode_metadata_instruction(instruction.data.as_slice()) {
        None => Err(ErrorCode::FailedInstructionDeserialization),
        Some(decoded) => update_metadata_decoded(bonbon, decoded, instruction, account_keys),
    }
}

/// A token's state after tokens arrived in the account that the instruction
/// names at `slot`: that account holds the token now, and its owner, where
/// the owners list it, owns the token.
pub open spec fn received(
    bonbon: BonbonView,
    instruction: CompiledInstructionView,
    account_keys: Seq<Key>,
    owners: Seq<TransactionTokenOwnerMeta>,
    slot: int,
) -> Result<BonbonView, ErrorCode> {
    match instruction.account_key(account_keys, slot) {
        None => Err(ErrorCode::BadAccountKeyIndex),
        Some(account) => Ok(
            BonbonView {
                current_owner: owner_of(owners, instruction.account_index(slot)),
                current_account: Some(account),
                ..bonbon
            },
        ),
    }
}

/// A token's state after a decoded instruction of the token program.
///
/// Only tokens that arrive in an account or are burnt change where the token
/// is held. A new owner that `SetAuthority` gives to the account that holds
/// the token is not followed.
pub open spec fn token_update(
    bonbon: BonbonView,
    decoded: TokenInstruction,
    instruction: CompiledInstructionView,
    account_keys: Seq<Key>,
    owners: Seq<TransactionTokenOwnerMeta>,
) -> Result<BonbonView, ErrorCode> {
    match decoded {
        TokenInstruction::InitializeMint { .. } => match instruction.account_key(account_keys, 0) {
            None => Err(ErrorCode::BadAccountKeyIndex),
            Some(mint_key) => Ok(BonbonView { mint_key, ..bonbon }),
        },
        TokenInstruction::Transfer { .. } | TokenInstruction::MintTo { .. }
        | TokenInstruction::MintToChecked { .. } => received(
            bonbon,
            instruction,
            account_keys,
            owners,
            1,
        ),
        TokenInstruction::TransferChecked { .. } => received(
            bonbon,
            instruction,
            account_keys,
            owners,
            2,
        ),
        TokenInstruction::Burn { .. } | TokenInstruction::BurnChecked { .. } => Ok(
            BonbonView { current_owner: None, current_account: None, ..bonbon },
        ),
        _ => Ok(bonbon),
    }
}

/// Looks up the owner of the token account that the instruction names at
/// `slot`.
fn find_owner(
    owners: &[TransactionTokenOwnerMeta],
    instruction: &CompiledInstruction,
    slot: usize,
) -> (r: Option<Key>)
    ensures
        r == owner_of(owners@, instruction@.account_index(slot as int)),
{
    let account_index = match instruction.account_index(slot) {
        None => { return None; },
        Some(account_index) => account_index,
    };
    let mut i: usize = 0;
    while i < owners.len()
        invariant
            i <= owners.len(),
            instruction@.account_index(slot as int) == Some(account_index),
            forall|j: int| 0 <= j < i ==> !owning(account_index)(#[trigger] owners@[j]),
        decreases owners.len() - i,
    {
        if owners[i].account_index == account_index {
            proof {
                lemma_first_found(owners@, owning(account_index), i as int);
            }
            return Some(owners[i].owner_key);
        }
        i += 1;
    }
    proof {
        lemma_first_absent(owners@, owning(account_index));
    }
    None
}

fn apply_received(
    bonbon: &mut Bonbon,
    instruction: &CompiledInstruction,
    account_keys: &[Key],
    owners: &[TransactionTokenOwnerMeta],
    slot: usize,
) -> (r: Result<(), ErrorCode>)
    ensures
        applied(
            received(old(bonbon)@, instruction@, account_keys@, owners@, slot as int),
            old(bonbon)@,
            final(bonbon)@,
            r,
        ),
{
    let account = match instruction.account_key(account_keys, slot) {
        None => { return Err(ErrorCode::BadAccountKeyIndex); },
        Some(account) => account,
    };
    bonbon.current_owner = find_owner(owners, instruction, slot);
    bonbon.current_account = Some(account);
    Ok(())
}

/// Applies an instruction of the token program that is already decoded to a
/// token's state. Where the instruction is refused, the state stays as it
/// is.
pub fn update_token_decoded(
    bonbon: &mut Bonbon,
    decoded: &TokenInstruction,
    instruction: &CompiledInstruction,
    account_keys: &[Key],
    owners: &[TransactionTokenOwnerMeta],
) -> (r: Result<(), ErrorCode>)
    ensures
        applied(
            token_update(old(bonbon)@, *decoded, instruction@, account_keys@, owners@),
            old(bonbon)@,
            final(bonbon)@,
            r,
        ),
{
    match *decoded {
        TokenInstruction::InitializeMint { .. } => {
            match instruction.account_key(account_keys, 0) {
                None => Err(ErrorCode::BadAccountKeyIndex),
                Some(mint_key) => {
                    bonbon.mint_key = mint_key;
                    Ok(())
                },
            }
        },
        TokenInstruction::Transfer { .. } | TokenInstruction::MintTo { .. }
        | TokenInstruction::MintToChecked { .. } => apply_received(
            bonbon,
            instruction,
            account_keys,
            owners,
            1,
        ),
        TokenInstruction::TransferChecked { .. } => apply_received(
            bonbon,
            instruction,
            account_keys,
            owners,
            2,
        ),
        TokenInstruction::Burn { .. } | TokenInstruction::BurnChecked { .. } => {
            bonbon.current_owner = None;
            bonbon.current_account = None;
            Ok(())
        },
        _ => Ok(()),
    }
}

/// A token's state after an instruction of the token program.
pub open spec fn token_updated(
    bonbon: BonbonView,
    instruction: CompiledInstructionView,
    account_keys: Seq<Key>,
    owners: Seq<TransactionTokenOwnerMeta>,
) -> Result<BonbonView, ErrorCode> {
    match token_unpacked(instruction.data) {
        None => Err(ErrorCode::FailedInstructionDeserialization),
        Some(decoded) => token_update(bonbon, decoded, instruction, account_keys, owners),
    }
}

/// Applies an instruction of the token program to a token's state: decodes
/// its data and records where the token is held afterwards. Where the
/// instruction is refused, the state stays as it is.
pub fn update_token_instruction(
    bonbon: &mut Bonbon,
    instruction: &CompiledInstruction,
    account_keys: &[Key],
    owners: &[TransactionTokenOwnerMeta],
) -> (r: Result<(), ErrorCode>)
    ensures
        applied(
            token_updated(old(bonbon)@, instruction@, account_keys@, owners@),
            old(bonbon)@,
            final(bonbon)@,
            r,
        ),
{
    match decode_token_instruction(instruction.data.as_slice()) {
        None => Err(ErrorCode::FailedInstructionDeserialization),
        Some(decoded) => update_token_decoded(bonbon, &decoded, instruction, account_keys, owners),
    }
}

/// The programs whose instructions change a token's state.
#[derive(Debug, Clone, Copy, PartialEq, Eq, Structural)]
pub enum Updater {
    Token,
    Metadata,
}

/// An entry of the table that says which updater takes the instructions of
/// which program.
#[derive(Debug, Clone, Copy, PartialEq, Eq)]
pub struct BonbonUpdater {
    pub program_id: Key,
    pub update: Updater,
}

/// The condition "is the entry of `program`".
pub open spec fn for_program(program: Key) -> spec_fn(BonbonUpdater) -> bool {
    |entry: BonbonUpdater| entry.program_id == program
}

/// The updater of the first entry for `program`.
pub open spec fn find_updater(updaters: Seq<BonbonUpdater>, program: Key) -> Option<Updater> {
    match first_index(updaters, for_program(program)) {
        Some(i) => Some(updaters[i].update),
        None => None,
    }
}

/// The updater that takes an instruction, if its program has one.
pub open spec fn updater_of(
    instruction: CompiledInstructionView,
    account_keys: Seq<Key>,
    updaters: Seq<BonbonUpdater>,
) -> Option<Updater> {
    match instruction.program_key(account_keys) {
        None => None,
        Some(program) => find_updater(updaters, program),
    }
}

/// A token's state after an instruction. An instruction of a program without
/// an updater changes nothing.
pub open spec fn update_of(
    bonbon: BonbonView,
    instruction: CompiledInstructionView,
    account_keys: Seq<Key>,
    owners: Seq<TransactionTokenOwnerMeta>,
    updaters: Seq<BonbonUpdater>,
) -> Result<BonbonView, ErrorCode> {
    match instruction.program_key(account_keys) {
        None => Err(ErrorCode::BadAccountKeyIndex),
        Some(program) => match find_updater(updaters, program) {
            None => Ok(bonbon),
            Some(Updater::Token) => token_updated(bonbon, instruction, account_keys, owners),
            Some(Updater::Metadata) => metadata_updated(bonbon, instruction, account_keys),
        },
    }
}

/// Looks up the updater of a program.
pub fn lookup_updater(updaters: &[BonbonUpdater], program: &Key) -> (r: Option<Updater>)
    ensures
        r == find_updater(updaters@, *program),
{
    let mut i: usize = 0;
    while i < updaters.len()
        invariant
            i <= updaters.len(),
            forall|j: int| 0 <= j < i ==> !for_program(*program)(#[trigger] updaters@[j]),
        decreases updaters.len() - i,
    {
        if updaters[i].program_id == *program {
            proof {
                lemma_first_found(updaters@, for_program(*program), i as int);
            }
            return Some(updaters[i].update);
        }
        i += 1;
    }
    proof {
        lemma_first_absent(updaters@, for_program(*program));
    }
    None
}

impl Bonbon {
    /// Applies an instruction to the token's state with the updater of the
    /// instruction's program. Where the instruction is refused, the state
    /// stays as it is.
    pub fn update(
        &mut self,
        instruction: &CompiledInstruction,
        account_keys: &[Key],
        owners: &[TransactionTokenOwnerMeta],
        updaters: &[BonbonUpdater],
    ) -> (r: Result<(), ErrorCode>)
        ensures
            applied(
                update_of(old(self)@, instruction@, account_keys@, owners@, updaters@),
                old(self)@,
                final(self)@,
                r,
            ),
    {
        let program = match instruction.program_key(account_keys) {
            None => { return Err(ErrorCode::BadAccountKeyIndex); },
            Some(program) => program,
        };
        match lookup_updater(updaters, &program) {
            None => Ok(()),
            Some(Updater::Token) => update_token_instruction(
                self,
                instruction,
                account_keys,
                owners,
            ),
            Some(Updater::Metadata) => update_metadata_instruction(
                self,
                instruction,
                account_keys,
                owners,
            ),
        }
    }
}

/// One instruction of a token, with what replay needs beside it: the account
/// keys of its transaction and the owners of the transaction's token
/// accounts.
#[derive(Debug, Clone, PartialEq, Eq)]
pub struct Replayed {
    pub instruction: CompiledInstruction,
    pub account_keys: Vec<Key>,
    pub owners: Vec<TransactionTokenOwnerMeta>,
}

/// What a `Replayed` holds.
pub struct ReplayedView {
    pub instruction: CompiledInstructionView,
    pub account_keys: Seq<Key>,
    pub owners: Seq<TransactionTokenOwnerMeta>,
}

impl View for Replayed {
    type V = ReplayedView;

    open spec fn view(&self) -> ReplayedView {
        ReplayedView {
            instruction: self.instruction@,
            account_keys: self.account_keys@,
            owners: self.owners@,
        }
    }
}

/// A token's state after the instructions from number `k` on, one after the
/// other; the first that is refused ends the token.
pub open spec fn replay_from(
    bonbon: BonbonView,
    instructions: Seq<ReplayedView>,
    k: int,
    updaters: Seq<BonbonUpdater>,
) -> Result<BonbonView, ErrorCode>
    decreases instructions.len() - k,
{
    if k < 0 || k >= instructions.len() {
        Ok(bonbon)
    } else {
        match update_of(
            bonbon,
            instructions[k].instruction,
            instructions[k].account_keys,
            instructions[k].owners,
            updaters,
        ) {
            Err(e) => Err(e),
            Ok(next) => replay_from(next, instructions, k + 1, updaters),
        }
    }
}

/// The state of a token after its instructions, from the state of which
/// nothing is known.
pub open spec fn assembled(
    instructions: Seq<ReplayedView>,
    updaters: Seq<BonbonUpdater>,
) -> Result<BonbonView, ErrorCode> {
    replay_from(BonbonView::fresh(), instructions, 0, updaters)
}

/// The view of the state in a result.
pub open spec fn result_view(r: Result<Bonbon, ErrorCode>) -> Result<BonbonView, ErrorCode> {
    match r {
        Ok(bonbon) => Ok(bonbon@),
        Err(e) => Err(e),
    }
}

/// Applies the instructions, in their order, to a token's state; stops at
/// the first that is refused.
pub fn replay(bonbon: Bonbon, instructions: &[Replayed], updaters: &[BonbonUpdater]) -> (r: Result<
    Bonbon,
    ErrorCode,
>)
    ensures
        result_view(r) == replay_from(bonbon@, views(instructions@), 0, updaters@),
{
    let mut state = bonbon;
    let mut k: usize = 0;
    while k < instructions.len()
        invariant
            k <= instructions.len(),
            replay_from(bonbon@, views(instructions@), 0, updaters@) == replay_from(
                state@,
                views(instructions@),
                k as int,
                updaters@,
            ),
        decreases instructions.len() - k,
    {
        let next = &instructions[k];
        match state.update(
            &next.instruction,
            next.account_keys.as_slice(),
            next.owners.as_slice(),
            updaters,
        ) {
            Err(e) => { return Err(e); },
            Ok(()) => {},
        }
        k += 1;
    }
    Ok(state)
}

/// Assembles the state of a token from its instructions in replay order.
pub fn assemble(instructions: &[Replayed], updaters: &[BonbonUpdater]) -> (r: Result<
    Bonbon,
    ErrorCode,
>)
    ensures
        result_view(r) == assembled(views(instructions@), updaters@),
{
    replay(Bonbon::default(), instructions, updaters)
}

/// A token's state with the origin of every version of its metadata: the
/// number of the instruction that recorded it.
#[derive(Debug, PartialEq, Eq)]
pub struct Traced {
    pub bonbon: Bonbon,
    pub origins: Vec<usize>,
}

/// What a `Traced` holds.
pub struct TracedView {
    pub bonbon: BonbonView,
    pub origins: Seq<int>,
}

impl View for Traced {
    type V = TracedView;

    open spec fn view(&self) -> TracedView {
        TracedView {
            bonbon: self.bonbon@,
            origins: Seq::new(self.origins@.len(), |i: int| self.origins@[i] as int),
        }
    }
}

/// A token's state after the instructions from number `k` on, as
/// `replay_from` gives it, with the origins of the versions of its metadata:
/// an instruction after which there are more versions is the origin of the
/// last.
pub open spec fn trace_from(
    traced: TracedView,
    instructions: Seq<ReplayedView>,
    k: int,
    updaters: Seq<BonbonUpdater>,
) -> Result<TracedView, ErrorCode>
    decreases instructions.len() - k,
{
    if k < 0 || k >= instructions.len() {
        Ok(traced)
    } else {
        match update_of(
            traced.bonbon,
            instructions[k].instruction,
            instructions[k].account_keys,
            instructions[k].owners,
            updaters,
        ) {
            Err(e) => Err(e),
            Ok(next) => trace_from(
                TracedView {
                    bonbon: next,
                    origins: if next.glazing.len() > traced.bonbon.glazing.len() {
                        traced.origins.push(k)
                    } else {
                        traced.origins
                    },
                },
                instructions,
                k + 1,
                updaters,
            ),
        }
    }
}

/// The state of a token after its instructions, from the state of which
/// nothing is known, with the origins of the versions of its metadata.
pub open spec fn traced(instructions: Seq<ReplayedView>, updaters: Seq<BonbonUpdater>) -> Result<
    TracedView,
    ErrorCode,
> {
    trace_from(
        TracedView { bonbon: BonbonView::fresh(), origins: Seq::empty() },
        instructions,
        0,
        updaters,
    )
}

/// The view of the traced state in a result.
pub open spec fn traced_view(r: Result<Traced, ErrorCode>) -> Result<TracedView, ErrorCode> {
    match r {
        Ok(traced) => Ok(traced@),
        Err(e) => Err(e),
    }
}

/// Assembles the state of a token from its instructions in replay order, and
/// notes for every version of the metadata which instruction recorded it.
pub fn assemble_traced(instructions: &[Replayed], updaters: &[BonbonUpdater]) -> (r: Result<
    Traced,
    ErrorCode,
>)
    ensures
        traced_view(r) == traced(views(instructions@), updaters@),
{
    let mut state = Traced { bonbon: Bonbon::default(), origins: Vec::new() };
    assert(state@.origins =~= Seq::empty());
    let mut k: usize = 0;
    while k < instructions.len()
        invariant
            k <= instructions.len(),
            traced(views(instructions@), updaters@) == trace_from(
                state@,
                views(instructions@),
                k as int,
                updaters@,
            ),
        decreases instructions.len() - k,
    {
        let next = &instructions[k];
        let versions = state.bonbon.glazing.len();
        let ghost before = state@;
        match state.bonbon.update(
            &next.instruction,
            next.account_keys.as_slice(),
            next.owners.as_slice(),
            updaters,
        ) {
            Err(e) => { return Err(e); },
            Ok(()) => {},
        }
        if state.bonbon.glazing.len() > versions {
            state.origins.push(k);
            assert(state@.origins =~= before.origins.push(k as int));
        }
        k += 1;
    }
    Ok(state)
}

} // verus!
