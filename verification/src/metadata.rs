//! The metadata program's instructions, as far as replay reads them, and the
//! address at which the program keeps a mint's metadata.

use crate::key::Key;
use borsh::BorshDeserialize;
use mpl_token_metadata::instruction::MetadataInstruction as MplInstruction;
use mpl_token_metadata::state::{Data, DataV2, PREFIX};
use solana_program::pubkey::Pubkey;
use vstd::prelude::*;

verus! {

/// A creator as an instruction names it.
#[derive(Debug, Clone, Copy, PartialEq, Eq)]
pub struct MetadataCreator {
    pub address: Key,
    pub verified: bool,
    pub share: u8,
}

/// A collection as an instruction names it.
#[derive(Debug, Clone, Copy, PartialEq, Eq)]
pub struct MetadataCollection {
    pub verified: bool,
    pub key: Key,
}

/// The part of an instruction's metadata that replay keeps.
#[derive(Debug, Clone, PartialEq, Eq)]
pub struct MetadataData {
    pub uri: Vec<u8>,
    pub creators: Option<Vec<MetadataCreator>>,
    pub collection: Option<MetadataCollection>,
}

/// What a `MetadataData` holds.
pub struct MetadataDataView {
    pub uri: Seq<u8>,
    pub creators: Option<Seq<MetadataCreator>>,
    pub collection: Option<MetadataCollection>,
}

impl View for MetadataData {
    type V = MetadataDataView;

    open spec fn view(&self) -> MetadataDataView {
        MetadataDataView {
            uri: self.uri@,
            creators: match self.creators {
                Some(creators) => Some(creators@),
                None => None,
            },
            collection: self.collection,
        }
    }
}

/// A decoded instruction of the metadata program.
#[derive(Debug, Clone, PartialEq, Eq)]
pub enum MetadataInstruction {
    CreateMetadataAccount(MetadataData),
    UpdateMetadataAccount(Option<MetadataData>),
    DeprecatedCreateMasterEdition,
    DeprecatedMintNewEditionFromMasterEditionViaPrintingToken,
    UpdatePrimarySaleHappenedViaToken,
    DeprecatedSetReservationList,
    DeprecatedCreateReservationList,
    SignMetadata,
    DeprecatedMintPrintingTokensViaToken,
    DeprecatedMintPrintingTokens,
    CreateMasterEdition,
    MintNewEditionFromMasterEditionViaToken { edition: u64 },
    ConvertMasterEditionV1ToV2,
    MintNewEditionFromMasterEditionViaVaultProxy { edition: u64 },
    PuffMetadata,
    UpdateMetadataAccountV2(Option<MetadataData>),
    CreateMetadataAccountV2(MetadataData),
    CreateMasterEditionV3,
    VerifyCollection,
    Utilize,
    ApproveUseAuthority,
    RevokeUseAuthority,
    UnverifyCollection,
    ApproveCollectionAuthority,
    RevokeCollectionAuthority,
    SetAndVerifyCollection,
    FreezeDelegatedAccount,
    ThawDelegatedAccount,
    RemoveCreatorVerification,
}

/// What a `MetadataInstruction` holds.
pub enum MetadataInstructionView {
    CreateMetadataAccount(MetadataDataView),
    UpdateMetadataAccount(Option<MetadataDataView>),
    DeprecatedCreateMasterEdition,
    DeprecatedMintNewEditionFromMasterEditionViaPrintingToken,
    UpdatePrimarySaleHappenedViaToken,
    DeprecatedSetReservationList,
    DeprecatedCreateReservationList,
    SignMetadata,
    DeprecatedMintPrintingTokensViaToken,
    DeprecatedMintPrintingTokens,
    CreateMasterEdition,
    MintNewEditionFromMasterEditionViaToken { edition: u64 },
    ConvertMasterEditionV1ToV2,
    MintNewEditionFromMasterEditionViaVaultProxy { edition: u64 },
    PuffMetadata,
    UpdateMetadataAccountV2(Option<MetadataDataView>),
    CreateMetadataAccountV2(MetadataDataView),
    CreateMasterEditionV3,
    VerifyCollection,
    Utilize,
    ApproveUseAuthority,
    RevokeUseAuthority,
    UnverifyCollection,
    ApproveCollectionAuthority,
    RevokeCollectionAuthority,
    SetAndVerifyCollection,
    FreezeDelegatedAccount,
    ThawDelegatedAccount,
    RemoveCreatorVerification,
}

/// The view of metadata that may be absent.
pub open spec fn data_view(data: Option<MetadataData>) -> Option<MetadataDataView> {
    match data {
        Some(data) => Some(data@),
        None => None,
    }
}

impl View for MetadataInstruction {
    type V = MetadataInstructionView;

    open spec fn view(&self) -> MetadataInstructionView {
        match *self {
            MetadataInstruction::CreateMetadataAccount(data) =>
                MetadataInstructionView::CreateMetadataAccount(data@),
            MetadataInstruction::UpdateMetadataAccount(data) =>
                MetadataInstructionView::UpdateMetadataAccount(data_view(data)),
            MetadataInstruction::DeprecatedCreateMasterEdition =>
                MetadataInstructionView::DeprecatedCreateMasterEdition,
            MetadataInstruction::DeprecatedMintNewEditionFromMasterEditionViaPrintingToken =>
                MetadataInstructionView::DeprecatedMintNewEditionFromMasterEditionViaPrintingToken,
            MetadataInstruction::UpdatePrimarySaleHappenedViaToken =>
                MetadataInstructionView::UpdatePrimarySaleHappenedViaToken,
            MetadataInstruction::DeprecatedSetReservationList =>
                MetadataInstructionView::DeprecatedSetReservationList,
            MetadataInstruction::DeprecatedCreateReservationList =>
                MetadataInstructionView::DeprecatedCreateReservationList,
            MetadataInstruction::SignMetadata => MetadataInstructionView::SignMetadata,
            MetadataInstruction::DeprecatedMintPrintingTokensViaToken =>
                MetadataInstructionView::DeprecatedMintPrintingTokensViaToken,
            MetadataInstruction::DeprecatedMintPrintingTokens =>
                MetadataInstructionView::DeprecatedMintPrintingTokens,
            MetadataInstruction::CreateMasterEdition => MetadataInstructionView::CreateMasterEdition,
            MetadataInstruction::MintNewEditionFromMasterEditionViaToken { edition } =>
                MetadataInstructionView::MintNewEditionFromMasterEditionViaToken { edition },
            MetadataInstruction::ConvertMasterEditionV1ToV2 =>
                MetadataInstructionView::ConvertMasterEditionV1ToV2,
            MetadataInstruction::MintNewEditionFromMasterEditionViaVaultProxy { edition } =>
                MetadataInstructionView::MintNewEditionFromMasterEditionViaVaultProxy { edition },
            MetadataInstruction::PuffMetadata => MetadataInstructionView::PuffMetadata,
            MetadataInstruction::UpdateMetadataAccountV2(data) =>
                MetadataInstructionView::UpdateMetadataAccountV2(data_view(data)),
            MetadataInstruction::CreateMetadataAccountV2(data) =>
                MetadataInstructionView::CreateMetadataAccountV2(data@),
            MetadataInstruction::CreateMasterEditionV3 =>
                MetadataInstructionView::CreateMasterEditionV3,
            MetadataInstruction::VerifyCollection => MetadataInstructionView::VerifyCollection,
            MetadataInstruction::Utilize => MetadataInstructionView::Utilize,
            MetadataInstruction::ApproveUseAuthority => MetadataInstructionView::ApproveUseAuthority,
            MetadataInstruction::RevokeUseAuthority => MetadataInstructionView::RevokeUseAuthority,
            MetadataInstruction::UnverifyCollection => MetadataInstructionView::UnverifyCollection,
            MetadataInstruction::ApproveCollectionAuthority =>
                MetadataInstructionView::ApproveCollectionAuthority,
            MetadataInstruction::RevokeCollectionAuthority =>
                MetadataInstructionView::RevokeCollectionAuthority,
            MetadataInstruction::SetAndVerifyCollection =>
                MetadataInstructionView::SetAndVerifyCollection,
            MetadataInstruction::FreezeDelegatedAccount =>
                MetadataInstructionView::FreezeDelegatedAccount,
            MetadataInstruction::ThawDelegatedAccount =>
                MetadataInstructionView::ThawDelegatedAccount,
            MetadataInstruction::RemoveCreatorVerification =>
                MetadataInstructionView::RemoveCreatorVerification,
        }
    }
}

impl MetadataInstructionView {
    /// The instructions that carry the first form of metadata.
    pub open spec fn carries_data(self) -> bool {
        self is CreateMetadataAccount || self is UpdateMetadataAccount
    }

    /// The instructions that carry the second form of metadata, which may
    /// name a collection.
    pub open spec fn carries_data_v2(self) -> bool {
        self is CreateMetadataAccountV2 || self is UpdateMetadataAccountV2
    }

    /// The instructions that make, print or convert an edition.
    pub open spec fn about_editions(self) -> bool {
        self is DeprecatedCreateMasterEdition || self is CreateMasterEdition
            || self is CreateMasterEditionV3
            || self is DeprecatedMintNewEditionFromMasterEditionViaPrintingToken
            || self is MintNewEditionFromMasterEditionViaToken
            || self is MintNewEditionFromMasterEditionViaVaultProxy
            || self is ConvertMasterEditionV1ToV2
    }

    /// The instructions that sign, verify or touch up an existing metadata
    /// account.
    pub open spec fn about_verification(self) -> bool {
        self is SignMetadata || self is RemoveCreatorVerification || self is VerifyCollection
            || self is UnverifyCollection || self is SetAndVerifyCollection
            || self is UpdatePrimarySaleHappenedViaToken || self is PuffMetadata
    }

    /// All the other instructions: reservations, printing tokens, uses and
    /// delegated authorities.
    pub open spec fn about_authorities(self) -> bool {
        !self.carries_data() && !self.carries_data_v2() && !self.about_editions()
            && !self.about_verification()
    }
}

/// What the metadata program's own decoder makes of an instruction's data,
/// with the parts of it that `MetadataInstruction` keeps; `None` for data that
/// it rejects.
pub uninterp spec fn metadata_decoded(data: Seq<u8>) -> Option<MetadataInstructionView>;

/// A decoded instruction where `keep` holds of it, and `None` otherwise.
pub open spec fn only_if(
    decoded: Option<MetadataInstructionView>,
    keep: spec_fn(MetadataInstructionView) -> bool,
) -> Option<MetadataInstructionView> {
    match decoded {
        Some(instruction) => if keep(instruction) {
            Some(instruction)
        } else {
            None
        },
        None => None,
    }
}

/// The view of an instruction that may be absent.
pub open spec fn instruction_view(r: Option<MetadataInstruction>) -> Option<
    MetadataInstructionView,
> {
    match r {
        Some(instruction) => Some(instruction@),
        None => None,
    }
}

/// Calls `MetadataInstruction::try_from_slice` of `mpl_token_metadata` and
/// hands on what it decoded where that creates or updates metadata of the
/// first form: the uri as bytes and the creators as decoded, no collection.
#[verifier::external_body]
fn decode_data_instruction(data: &[u8]) -> (r: Option<MetadataInstruction>)
    ensures
        instruction_view(r) == only_if(
            metadata_decoded(data@),
            |i: MetadataInstructionView| i.carries_data(),
        ),
{
    let kept = |d: Data| MetadataData {
        uri: d.uri.into_bytes(),
        creators: d.creators.map(|v| v.iter().map(|c| MetadataCreator {
            address: Key { bytes: c.address.to_bytes() }, verified: c.verified, share: c.share,
        }).collect()),
        collection: None,
    };
    match MplInstruction::try_from_slice(data).ok()? {
        MplInstruction::CreateMetadataAccount(a) => Some(MetadataInstruction::CreateMetadataAccount(kept(a.data))),
        MplInstruction::UpdateMetadataAccount(a) => Some(MetadataInstruction::UpdateMetadataAccount(a.data.map(kept))),
        _ => None,
    }
}

/// Calls `MetadataInstruction::try_from_slice` of `mpl_token_metadata` and
/// hands on what it decoded where that creates or updates metadata of the
/// second form: the uri as bytes, the creators and the collection as decoded.
#[verifier::external_body]
fn decode_data_v2_instruction(data: &[u8]) -> (r: Option<MetadataInstruction>)
    ensures
        instruction_view(r) == only_if(
            metadata_decoded(data@),
            |i: MetadataInstructionView| i.carries_data_v2(),
        ),
{
    let kept = |d: DataV2| MetadataData {
        uri: d.uri.into_bytes(),
        creators: d.creators.map(|v| v.iter().map(|c| MetadataCreator {
            address: Key { bytes: c.address.to_bytes() }, verified: c.verified, share: c.share,
        }).collect()),
        collection: d.collection.map(|c| MetadataCollection { verified: c.verified, key: Key { bytes: c.key.to_bytes() } }),
    };
    match MplInstruction::try_from_slice(data).ok()? {
        MplInstruction::CreateMetadataAccountV2(a) => Some(MetadataInstruction::CreateMetadataAccountV2(kept(a.data))),
        MplInstruction::UpdateMetadataAccountV2(a) => Some(MetadataInstruction::UpdateMetadataAccountV2(a.data.map(kept))),
        _ => None,
    }
}

/// Calls `MetadataInstruction::try_from_slice` of `mpl_token_metadata` and
/// hands on what it decoded where that is about an edition, with the edition
/// number where the instruction has one.
#[verifier::external_body]
fn decode_edition_instruction(data: &[u8]) -> (r: Option<MetadataInstruction>)
    ensures
        instruction_view(r) == only_if(
            metadata_decoded(data@),
            |i: MetadataInstructionView| i.about_editions(),
        ),
{
    match MplInstruction::try_from_slice(data).ok()? {
        MplInstruction::DeprecatedCreateMasterEdition(_) => Some(MetadataInstruction::DeprecatedCreateMasterEdition),
        MplInstruction::CreateMasterEdition(_) => Some(MetadataInstruction::CreateMasterEdition),
        MplInstruction::CreateMasterEditionV3(_) => Some(MetadataInstruction::CreateMasterEditionV3),
        MplInstruction::DeprecatedMintNewEditionFromMasterEditionViaPrintingToken =>
            Some(MetadataInstruction::DeprecatedMintNewEditionFromMasterEditionViaPrintingToken),
        MplInstruction::MintNewEditionFromMasterEditionViaToken(a) =>
            Some(MetadataInstruction::MintNewEditionFromMasterEditionViaToken { edition: a.edition }),
        MplInstruction::MintNewEditionFromMasterEditionViaVaultProxy(a) =>
            Some(MetadataInstruction::MintNewEditionFromMasterEditionViaVaultProxy { edition: a.edition }),
        MplInstruction::ConvertMasterEditionV1ToV2 => Some(MetadataInstruction::ConvertMasterEditionV1ToV2),
        _ => None,
    }
}

/// Calls `MetadataInstruction::try_from_slice` of `mpl_token_metadata` and
/// hands on what it decoded where that signs, verifies or touches up a
/// metadata account.
#[verifier::external_body]
fn decode_verification_instruction(data: &[u8]) -> (r: Option<MetadataInstruction>)
    ensures
        instruction_view(r) == only_if(
            metadata_decoded(data@),
            |i: MetadataInstructionView| i.about_verification(),
        ),
{
    match MplInstruction::try_from_slice(data).ok()? {
        MplInstruction::SignMetadata => Some(MetadataInstruction::SignMetadata),
        MplInstruction::RemoveCreatorVerification => Some(MetadataInstruction::RemoveCreatorVerification),
        MplInstruction::VerifyCollection => Some(MetadataInstruction::VerifyCollection),
        MplInstruction::UnverifyCollection => Some(MetadataInstruction::UnverifyCollection),
        MplInstruction::SetAndVerifyCollection => Some(MetadataInstruction::SetAndVerifyCollection),
        MplInstruction::UpdatePrimarySaleHappenedViaToken => Some(MetadataInstruction::UpdatePrimarySaleHappenedViaToken),
        MplInstruction::PuffMetadata => Some(MetadataInstruction::PuffMetadata),
        _ => None,
    }
}

/// Calls `MetadataInstruction::try_from_slice` of `mpl_token_metadata` and
/// hands on what it decoded where that is one of the remaining instructions.
#[verifier::external_body]
fn decode_authority_instruction(data: &[u8]) -> (r: Option<MetadataInstruction>)
    ensures
        instruction_view(r) == only_if(
            metadata_decoded(data@),
            |i: MetadataInstructionView| i.about_authorities(),
        ),
{
    match MplInstruction::try_from_slice(data).ok()? {
        MplInstruction::DeprecatedSetReservationList(_) => Some(MetadataInstruction::DeprecatedSetReservationList),
        MplInstruction::DeprecatedCreateReservationList => Some(MetadataInstruction::DeprecatedCreateReservationList),
        MplInstruction::DeprecatedMintPrintingTokensViaToken(_) => Some(MetadataInstruction::DeprecatedMintPrintingTokensViaToken),
        MplInstruction::DeprecatedMintPrintingTokens(_) => Some(MetadataInstruction::DeprecatedMintPrintingTokens),
        MplInstruction::Utilize(_) => Some(MetadataInstruction::Utilize),
        MplInstruction::ApproveUseAuthority(_) => Some(MetadataInstruction::ApproveUseAuthority),
        MplInstruction::RevokeUseAuthority => Some(MetadataInstruction::RevokeUseAuthority),
        MplInstruction::ApproveCollectionAuthority => Some(MetadataInstruction::ApproveCollectionAuthority),
        MplInstruction::RevokeCollectionAuthority => Some(MetadataInstruction::RevokeCollectionAuthority),
        MplInstruction::FreezeDelegatedAccount => Some(MetadataInstruction::FreezeDelegatedAccount),
        MplInstruction::ThawDelegatedAccount => Some(MetadataInstruction::ThawDelegatedAccount),
        _ => None,
    }
}

/// Decodes the data of an instruction of the metadata program.
pub fn decode_metadata_instruction(data: &[u8]) -> (r: Option<MetadataInstruction>)
    ensures
        instruction_view(r) == metadata_decoded(data@),
{
    let with_data = decode_data_instruction(data);
    if with_data.is_some() {
        return with_data;
    }
    let with_data_v2 = decode_data_v2_instruction(data);
    if with_data_v2.is_some() {
        return with_data_v2;
    }
    let edition = decode_edition_instruction(data);
    if edition.is_some() {
        return edition;
    }
    let verification = decode_verification_instruction(data);
    if verification.is_some() {
        return verification;
    }
    decode_authority_instruction(data)
}

/// The address at which the metadata program keeps the metadata of a mint:
/// the program's derived address for the mint, if one exists.
pub uninterp spec fn metadata_account_of(mint: Seq<u8>) -> Option<Seq<u8>>;

/// The bytes of a key that may be absent.
pub open spec fn key_bytes(key: Option<Key>) -> Option<Seq<u8>> {
    match key {
        Some(key) => Some(key@),
        None => None,
    }
}

/// Calls `Pubkey::try_find_program_address` of `solana_program` with the
/// seeds and the program that `mpl_token_metadata::pda::find_metadata_account`
/// uses, and hands on the address without its bump seed.
#[verifier::external_body]
fn derive_metadata_account(mint: &Key) -> (r: Option<Key>)
    ensures
        key_bytes(r) == metadata_account_of(mint@),
{
    let program = mpl_token_metadata::id();
    let seeds = [PREFIX.as_bytes(), program.as_ref(), &mint.bytes];
    Pubkey::try_find_program_address(&seeds, &program).map(|(key, _)| Key { bytes: key.to_bytes() })
}

/// The metadata account of a mint.
pub fn find_metadata_account(mint: &Key) -> (r: Option<Key>)
    ensures
        key_bytes(r) == metadata_account_of(mint@),
{
    derive_metadata_account(mint)
}

} // verus!
