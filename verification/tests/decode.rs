use bonbon::key::Key;
use bonbon::metadata::{
    decode_metadata_instruction, MetadataCollection, MetadataCreator, MetadataData,
    MetadataInstruction,
};
use bonbon::token::{decode_token_instruction, AuthorityType, TokenInstruction};
use borsh::BorshSerialize;
use mpl_token_metadata::deprecated_instruction::{
    MintPrintingTokensViaTokenArgs, SetReservationListArgs,
};
use mpl_token_metadata::instruction::{
    ApproveUseAuthorityArgs, CreateMasterEditionArgs, CreateMetadataAccountArgs,
    CreateMetadataAccountArgsV2, MetadataInstruction as Mpl,
    MintNewEditionFromMasterEditionViaTokenArgs, UpdateMetadataAccountArgs,
    UpdateMetadataAccountArgsV2, UtilizeArgs,
};
use mpl_token_metadata::state::{Collection, Creator, Data, DataV2};
use solana_program::program_option::COption;
use solana_program::pubkey::Pubkey;
use spl_token::instruction::AuthorityType as SplAuthority;
use spl_token::instruction::TokenInstruction as Spl;

fn pubkey(n: u8) -> Pubkey {
    Pubkey::new_from_array([n; 32])
}

fn key(n: u8) -> Key {
    Key::new([n; 32])
}

fn data_v1(creators: Option<Vec<Creator>>) -> Data {
    Data {
        name: "name".to_string(),
        symbol: "SYM".to_string(),
        uri: "https://example.org/1.json".to_string(),
        seller_fee_basis_points: 500,
        creators,
    }
}

fn data_v2(creators: Option<Vec<Creator>>, collection: Option<Collection>) -> DataV2 {
    DataV2 {
        name: "name".to_string(),
        symbol: "SYM".to_string(),
        uri: "https://example.org/2.json".to_string(),
        seller_fee_basis_points: 500,
        creators,
        collection,
        uses: None,
    }
}

fn two_creators() -> Vec<Creator> {
    vec![
        Creator { address: pubkey(21), verified: true, share: 60 },
        Creator { address: pubkey(22), verified: false, share: 40 },
    ]
}

fn two_kept_creators() -> Vec<MetadataCreator> {
    vec![
        MetadataCreator { address: key(21), verified: true, share: 60 },
        MetadataCreator { address: key(22), verified: false, share: 40 },
    ]
}

#[test]
fn decodes_token_instructions_with_amounts() {
    assert_eq!(
        decode_token_instruction(&Spl::Transfer { amount: 1 }.pack()),
        Some(TokenInstruction::Transfer { amount: 1 })
    );
    assert_eq!(
        decode_token_instruction(&Spl::Approve { amount: 2 }.pack()),
        Some(TokenInstruction::Approve { amount: 2 })
    );
    assert_eq!(
        decode_token_instruction(&Spl::MintTo { amount: u64::MAX }.pack()),
        Some(TokenInstruction::MintTo { amount: u64::MAX })
    );
    assert_eq!(
        decode_token_instruction(&Spl::Burn { amount: 0 }.pack()),
        Some(TokenInstruction::Burn { amount: 0 })
    );
}

#[test]
fn decodes_checked_token_instructions() {
    assert_eq!(
        decode_token_instruction(&Spl::TransferChecked { amount: 1, decimals: 0 }.pack()),
        Some(TokenInstruction::TransferChecked { amount: 1, decimals: 0 })
    );
    assert_eq!(
        decode_token_instruction(&Spl::ApproveChecked { amount: 5, decimals: 9 }.pack()),
        Some(TokenInstruction::ApproveChecked { amount: 5, decimals: 9 })
    );
    assert_eq!(
        decode_token_instruction(&Spl::MintToChecked { amount: 1, decimals: 2 }.pack()),
        Some(TokenInstruction::MintToChecked { amount: 1, decimals: 2 })
    );
    assert_eq!(
        decode_token_instruction(&Spl::BurnChecked { amount: 3, decimals: 1 }.pack()),
        Some(TokenInstruction::BurnChecked { amount: 3, decimals: 1 })
    );
}

#[test]
fn decodes_set_authority_with_each_type() {
    let cases = [
        (SplAuthority::MintTokens, AuthorityType::MintTokens),
        (SplAuthority::FreezeAccount, AuthorityType::FreezeAccount),
        (SplAuthority::AccountOwner, AuthorityType::AccountOwner),
        (SplAuthority::CloseAccount, AuthorityType::CloseAccount),
    ];
    for (theirs, ours) in cases {
        let data =
            Spl::SetAuthority { authority_type: theirs, new_authority: COption::Some(pubkey(3)) }
                .pack();
        assert_eq!(
            decode_token_instruction(&data),
            Some(TokenInstruction::SetAuthority { authority_type: ours })
        );
    }
}

#[test]
fn decodes_plain_token_instructions() {
    let mint = Spl::InitializeMint {
        decimals: 6,
        mint_authority: pubkey(1),
        freeze_authority: COption::None,
    };
    assert_eq!(
        decode_token_instruction(&mint.pack()),
        Some(TokenInstruction::InitializeMint { decimals: 6 })
    );
    assert_eq!(
        decode_token_instruction(&Spl::InitializeAccount.pack()),
        Some(TokenInstruction::InitializeAccount)
    );
    assert_eq!(
        decode_token_instruction(&Spl::InitializeAccount2 { owner: pubkey(2) }.pack()),
        Some(TokenInstruction::InitializeAccount2)
    );
    assert_eq!(
        decode_token_instruction(&Spl::InitializeMultisig { m: 2 }.pack()),
        Some(TokenInstruction::InitializeMultisig)
    );
    assert_eq!(decode_token_instruction(&Spl::Revoke.pack()), Some(TokenInstruction::Revoke));
    assert_eq!(
        decode_token_instruction(&Spl::CloseAccount.pack()),
        Some(TokenInstruction::CloseAccount)
    );
    assert_eq!(
        decode_token_instruction(&Spl::FreezeAccount.pack()),
        Some(TokenInstruction::FreezeAccount)
    );
    assert_eq!(
        decode_token_instruction(&Spl::ThawAccount.pack()),
        Some(TokenInstruction::ThawAccount)
    );
    assert_eq!(
        decode_token_instruction(&Spl::SyncNative.pack()),
        Some(TokenInstruction::SyncNative)
    );
}

#[test]
fn refuses_token_data_that_do_not_decode() {
    assert_eq!(decode_token_instruction(&[]), None);
    assert_eq!(decode_token_instruction(&[3]), None);
    assert_eq!(decode_token_instruction(&[3, 1, 0, 0]), None);
    assert_eq!(decode_token_instruction(&[12, 1, 0, 0, 0, 0, 0, 0, 0]), None);
    assert_eq!(decode_token_instruction(&[6, 9, 0]), None);
    assert_eq!(decode_token_instruction(&[200]), None);
}

#[test]
fn refuses_token_instructions_that_are_not_listed() {
    assert_eq!(decode_token_instruction(&Spl::InitializeAccount3 { owner: pubkey(2) }.pack()), None);
    assert_eq!(decode_token_instruction(&Spl::GetAccountDataSize.pack()), None);
    assert_eq!(decode_token_instruction(&Spl::InitializeImmutableOwner.pack()), None);
    assert_eq!(decode_token_instruction(&Spl::AmountToUiAmount { amount: 1 }.pack()), None);
}

#[test]
fn token_data_decode_and_encode_back() {
    let all = [
        Spl::InitializeAccount,
        Spl::InitializeMultisig { m: 3 },
        Spl::Transfer { amount: 1 },
        Spl::Approve { amount: 77 },
        Spl::Revoke,
        Spl::MintTo { amount: 1 },
        Spl::Burn { amount: 1 },
        Spl::CloseAccount,
        Spl::FreezeAccount,
        Spl::ThawAccount,
        Spl::TransferChecked { amount: 1, decimals: 0 },
        Spl::ApproveChecked { amount: 1, decimals: 0 },
        Spl::MintToChecked { amount: 1, decimals: 0 },
        Spl::BurnChecked { amount: 1, decimals: 0 },
        Spl::SyncNative,
    ];
    for instruction in all {
        let data = instruction.pack();
        let again = match decode_token_instruction(&data).unwrap() {
            TokenInstruction::InitializeAccount => Spl::InitializeAccount,
            TokenInstruction::InitializeMultisig => Spl::unpack(&data).unwrap(),
            TokenInstruction::Transfer { amount } => Spl::Transfer { amount },
            TokenInstruction::Approve { amount } => Spl::Approve { amount },
            TokenInstruction::Revoke => Spl::Revoke,
            TokenInstruction::MintTo { amount } => Spl::MintTo { amount },
            TokenInstruction::Burn { amount } => Spl::Burn { amount },
            TokenInstruction::CloseAccount => Spl::CloseAccount,
            TokenInstruction::FreezeAccount => Spl::FreezeAccount,
            TokenInstruction::ThawAccount => Spl::ThawAccount,
            TokenInstruction::TransferChecked { amount, decimals } => {
                Spl::TransferChecked { amount, decimals }
            }
            TokenInstruction::ApproveChecked { amount, decimals } => {
                Spl::ApproveChecked { amount, decimals }
            }
            TokenInstruction::MintToChecked { amount, decimals } => {
                Spl::MintToChecked { amount, decimals }
            }
            TokenInstruction::BurnChecked { amount, decimals } => {
                Spl::BurnChecked { amount, decimals }
            }
            TokenInstruction::SyncNative => Spl::SyncNative,
            other => panic!("not expected: {:?}", other),
        };
        assert_eq!(again.pack(), data);
    }
}

#[test]
fn decodes_create_metadata_account() {
    let args = CreateMetadataAccountArgs { data: data_v1(Some(two_creators())), is_mutable: true };
    let data = Mpl::CreateMetadataAccount(args).try_to_vec().unwrap();
    assert_eq!(
        decode_metadata_instruction(&data),
        Some(MetadataInstruction::CreateMetadataAccount(MetadataData {
            uri: b"https://example.org/1.json".to_vec(),
            creators: Some(two_kept_creators()),
            collection: None,
        }))
    );
}

#[test]
fn decodes_create_metadata_account_without_creators() {
    let args = CreateMetadataAccountArgs { data: data_v1(None), is_mutable: false };
    let data = Mpl::CreateMetadataAccount(args).try_to_vec().unwrap();
    assert_eq!(
        decode_metadata_instruction(&data),
        Some(MetadataInstruction::CreateMetadataAccount(MetadataData {
            uri: b"https://example.org/1.json".to_vec(),
            creators: None,
            collection: None,
        }))
    );
}

#[test]
fn decodes_create_metadata_account_v2() {
    let collection = Collection { verified: false, key: pubkey(30) };
    let args = CreateMetadataAccountArgsV2 {
        data: data_v2(Some(two_creators()), Some(collection)),
        is_mutable: true,
    };
    let data = Mpl::CreateMetadataAccountV2(args).try_to_vec().unwrap();
    assert_eq!(
        decode_metadata_instruction(&data),
        Some(MetadataInstruction::CreateMetadataAccountV2(MetadataData {
            uri: b"https://example.org/2.json".to_vec(),
            creators: Some(two_kept_creators()),
            collection: Some(MetadataCollection { verified: false, key: key(30) }),
        }))
    );
}

#[test]
fn decodes_update_metadata_account() {
    let with = UpdateMetadataAccountArgs {
        data: Some(data_v1(Some(vec![]))),
        update_authority: Some(pubkey(5)),
        primary_sale_happened: None,
    };
    assert_eq!(
        decode_metadata_instruction(&Mpl::UpdateMetadataAccount(with).try_to_vec().unwrap()),
        Some(MetadataInstruction::UpdateMetadataAccount(Some(MetadataData {
            uri: b"https://example.org/1.json".to_vec(),
            creators: Some(vec![]),
            collection: None,
        })))
    );
    let without = UpdateMetadataAccountArgs {
        data: None,
        update_authority: None,
        primary_sale_happened: Some(true),
    };
    assert_eq!(
        decode_metadata_instruction(&Mpl::UpdateMetadataAccount(without).try_to_vec().unwrap()),
        Some(MetadataInstruction::UpdateMetadataAccount(None))
    );
}

#[test]
fn decodes_update_metadata_account_v2() {
    let collection = Collection { verified: true, key: pubkey(31) };
    let with = UpdateMetadataAccountArgsV2 {
        data: Some(data_v2(None, Some(collection))),
        update_authority: None,
        primary_sale_happened: None,
        is_mutable: Some(false),
    };
    assert_eq!(
        decode_metadata_instruction(&Mpl::UpdateMetadataAccountV2(with).try_to_vec().unwrap()),
        Some(MetadataInstruction::UpdateMetadataAccountV2(Some(MetadataData {
            uri: b"https://example.org/2.json".to_vec(),
            creators: None,
            collection: Some(MetadataCollection { verified: true, key: key(31) }),
        })))
    );
    let without = UpdateMetadataAccountArgsV2 {
        data: None,
        update_authority: None,
        primary_sale_happened: None,
        is_mutable: None,
    };
    assert_eq!(
        decode_metadata_instruction(&Mpl::UpdateMetadataAccountV2(without).try_to_vec().unwrap()),
        Some(MetadataInstruction::UpdateMetadataAccountV2(None))
    );
}

#[test]
fn decodes_edition_instructions() {
    let supply = || CreateMasterEditionArgs { max_supply: Some(10) };
    let cases = vec![
        (
            Mpl::DeprecatedCreateMasterEdition(supply()),
            MetadataInstruction::DeprecatedCreateMasterEdition,
        ),
        (Mpl::CreateMasterEdition(supply()), MetadataInstruction::CreateMasterEdition),
        (Mpl::CreateMasterEditionV3(supply()), MetadataInstruction::CreateMasterEditionV3),
        (
            Mpl::DeprecatedMintNewEditionFromMasterEditionViaPrintingToken,
            MetadataInstruction::DeprecatedMintNewEditionFromMasterEditionViaPrintingToken,
        ),
        (
            Mpl::MintNewEditionFromMasterEditionViaToken(
                MintNewEditionFromMasterEditionViaTokenArgs { edition: 42 },
            ),
            MetadataInstruction::MintNewEditionFromMasterEditionViaToken { edition: 42 },
        ),
        (
            Mpl::MintNewEditionFromMasterEditionViaVaultProxy(
                MintNewEditionFromMasterEditionViaTokenArgs { edition: 7 },
            ),
            MetadataInstruction::MintNewEditionFromMasterEditionViaVaultProxy { edition: 7 },
        ),
        (Mpl::ConvertMasterEditionV1ToV2, MetadataInstruction::ConvertMasterEditionV1ToV2),
    ];
    for (theirs, ours) in cases {
        assert_eq!(decode_metadata_instruction(&theirs.try_to_vec().unwrap()), Some(ours));
    }
}

#[test]
fn decodes_verification_instructions() {
    let cases = vec![
        (Mpl::SignMetadata, MetadataInstruction::SignMetadata),
        (Mpl::RemoveCreatorVerification, MetadataInstruction::RemoveCreatorVerification),
        (Mpl::VerifyCollection, MetadataInstruction::VerifyCollection),
        (Mpl::UnverifyCollection, MetadataInstruction::UnverifyCollection),
        (Mpl::SetAndVerifyCollection, MetadataInstruction::SetAndVerifyCollection),
        (
            Mpl::UpdatePrimarySaleHappenedViaToken,
            MetadataInstruction::UpdatePrimarySaleHappenedViaToken,
        ),
        (Mpl::PuffMetadata, MetadataInstruction::PuffMetadata),
    ];
    for (theirs, ours) in cases {
        assert_eq!(decode_metadata_instruction(&theirs.try_to_vec().unwrap()), Some(ours));
    }
}

#[test]
fn decodes_the_remaining_metadata_instructions() {
    let cases = vec![
        (
            Mpl::DeprecatedSetReservationList(SetReservationListArgs {
                reservations: vec![],
                total_reservation_spots: None,
                offset: 0,
                total_spot_offset: 0,
            }),
            MetadataInstruction::DeprecatedSetReservationList,
        ),
        (
            Mpl::DeprecatedCreateReservationList,
            MetadataInstruction::DeprecatedCreateReservationList,
        ),
        (
            Mpl::DeprecatedMintPrintingTokensViaToken(MintPrintingTokensViaTokenArgs { supply: 1 }),
            MetadataInstruction::DeprecatedMintPrintingTokensViaToken,
        ),
        (
            Mpl::DeprecatedMintPrintingTokens(MintPrintingTokensViaTokenArgs { supply: 1 }),
            MetadataInstruction::DeprecatedMintPrintingTokens,
        ),
        (Mpl::Utilize(UtilizeArgs { number_of_uses: 1 }), MetadataInstruction::Utilize),
        (
            Mpl::ApproveUseAuthority(ApproveUseAuthorityArgs { number_of_uses: 1 }),
            MetadataInstruction::ApproveUseAuthority,
        ),
        (Mpl::RevokeUseAuthority, MetadataInstruction::RevokeUseAuthority),
        (Mpl::ApproveCollectionAuthority, MetadataInstruction::ApproveCollectionAuthority),
        (Mpl::RevokeCollectionAuthority, MetadataInstruction::RevokeCollectionAuthority),
        (Mpl::FreezeDelegatedAccount, MetadataInstruction::FreezeDelegatedAccount),
        (Mpl::ThawDelegatedAccount, MetadataInstruction::ThawDelegatedAccount),
    ];
    for (theirs, ours) in cases {
        assert_eq!(decode_metadata_instruction(&theirs.try_to_vec().unwrap()), Some(ours));
    }
}

#[test]
fn refuses_metadata_data_that_do_not_decode() {
    assert_eq!(decode_metadata_instruction(&[]), None);
    assert_eq!(decode_metadata_instruction(&[29]), None);
    assert_eq!(decode_metadata_instruction(&[255, 1, 2]), None);
    // sign metadata takes no arguments: a byte too many is refused
    assert_eq!(decode_metadata_instruction(&[7, 0]), None);
    // an edition number cut short
    assert_eq!(decode_metadata_instruction(&[11, 42, 0, 0]), None);
    // create metadata without its data
    assert_eq!(decode_metadata_instruction(&[0]), None);
}

#[test]
fn metadata_data_decode_and_encode_back() {
    let data = Mpl::MintNewEditionFromMasterEditionViaToken(
        MintNewEditionFromMasterEditionViaTokenArgs { edition: 42 },
    )
    .try_to_vec()
    .unwrap();
    let again = match decode_metadata_instruction(&data) {
        Some(MetadataInstruction::MintNewEditionFromMasterEditionViaToken { edition }) => {
            Mpl::MintNewEditionFromMasterEditionViaToken(
                MintNewEditionFromMasterEditionViaTokenArgs { edition },
            )
        }
        other => panic!("not expected: {:?}", other),
    };
    assert_eq!(again.try_to_vec().unwrap(), data);
    let data = Mpl::SignMetadata.try_to_vec().unwrap();
    assert_eq!(data, vec![7]);
    assert_eq!(decode_metadata_instruction(&data), Some(MetadataInstruction::SignMetadata));
}
