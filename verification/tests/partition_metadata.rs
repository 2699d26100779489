use bonbon::instruction::CompiledInstruction;
use bonbon::key::{token_program_id, Key};
use bonbon::metadata::{MetadataData, MetadataInstruction};
use bonbon::partition::{
    find_master_key, lookup_partitioner, partition_instruction, partition_metadata_decoded,
    partition_metadata_instruction, ErrorCode, InstructionContext, InstructionPartitioner,
    Partitioner, TransactionTokenMeta,
};
use borsh::BorshSerialize;
use mpl_token_metadata::instruction::{
    MetadataInstruction as Mpl, MintNewEditionFromMasterEditionViaTokenArgs,
};
use spl_token::instruction::TokenInstruction as Spl;

fn key(n: u8) -> Key {
    Key::new([n; 32])
}

// the account keys of the transaction: sixteen keys, each told by its number
fn keys() -> Vec<Key> {
    (0..16u8).map(|n| key(100 + n)).collect()
}

fn blank() -> MetadataData {
    MetadataData { uri: vec![], creators: None, collection: None }
}

fn decoded_key(
    decoded: MetadataInstruction,
    account_indices: Vec<u8>,
) -> Result<Option<Key>, ErrorCode> {
    let instruction = CompiledInstruction { program_id_index: 0, account_indices, data: vec![] };
    let account_keys = keys();
    let mut transient_metas = vec![];
    let r = partition_metadata_decoded(
        &decoded,
        InstructionContext {
            instruction: &instruction,
            account_keys: &account_keys,
            token_metas: &[],
            transient_metas: &mut transient_metas,
        },
    );
    assert!(transient_metas.is_empty());
    r
}

// the instruction's accounts in reverse: account number i is key number 15 - i
fn reversed() -> Vec<u8> {
    (0..16u8).rev().collect()
}

#[test]
fn metadata_instructions_partition_to_their_first_account() {
    let cases = vec![
        MetadataInstruction::CreateMetadataAccount(blank()),
        MetadataInstruction::CreateMetadataAccountV2(blank()),
        MetadataInstruction::UpdateMetadataAccount(None),
        MetadataInstruction::UpdateMetadataAccountV2(Some(blank())),
        MetadataInstruction::SignMetadata,
        MetadataInstruction::RemoveCreatorVerification,
        MetadataInstruction::VerifyCollection,
        MetadataInstruction::UnverifyCollection,
        MetadataInstruction::SetAndVerifyCollection,
        MetadataInstruction::UpdatePrimarySaleHappenedViaToken,
        MetadataInstruction::PuffMetadata,
        MetadataInstruction::Utilize,
        MetadataInstruction::DeprecatedMintNewEditionFromMasterEditionViaPrintingToken,
        MetadataInstruction::MintNewEditionFromMasterEditionViaToken { edition: 1 },
        MetadataInstruction::MintNewEditionFromMasterEditionViaVaultProxy { edition: 1 },
    ];
    for decoded in cases {
        assert_eq!(decoded_key(decoded, reversed()), Ok(Some(key(115))));
    }
}

#[test]
fn master_editions_partition_to_their_metadata_account() {
    assert_eq!(
        decoded_key(MetadataInstruction::DeprecatedCreateMasterEdition, reversed()),
        Ok(Some(key(108)))
    );
    assert_eq!(
        decoded_key(MetadataInstruction::CreateMasterEdition, reversed()),
        Ok(Some(key(110)))
    );
    assert_eq!(
        decoded_key(MetadataInstruction::CreateMasterEditionV3, reversed()),
        Ok(Some(key(110)))
    );
}

#[test]
fn the_other_metadata_instructions_partition_by_their_table() {
    let fifth = vec![
        MetadataInstruction::DeprecatedCreateReservationList,
        MetadataInstruction::DeprecatedMintPrintingTokensViaToken,
        MetadataInstruction::ApproveUseAuthority,
        MetadataInstruction::RevokeUseAuthority,
    ];
    for decoded in fifth {
        assert_eq!(decoded_key(decoded, reversed()), Ok(Some(key(110))));
    }
    let third = vec![
        MetadataInstruction::DeprecatedMintPrintingTokens,
        MetadataInstruction::RevokeCollectionAuthority,
    ];
    for decoded in third {
        assert_eq!(decoded_key(decoded, reversed()), Ok(Some(key(112))));
    }
    assert_eq!(
        decoded_key(MetadataInstruction::ApproveCollectionAuthority, reversed()),
        Ok(Some(key(111)))
    );
}

#[test]
fn some_metadata_instructions_are_passed_over() {
    let cases = vec![
        MetadataInstruction::DeprecatedSetReservationList,
        MetadataInstruction::ConvertMasterEditionV1ToV2,
        MetadataInstruction::FreezeDelegatedAccount,
        MetadataInstruction::ThawDelegatedAccount,
    ];
    for decoded in cases {
        assert_eq!(decoded_key(decoded.clone(), reversed()), Ok(None));
        assert_eq!(decoded_key(decoded, vec![]), Ok(None));
    }
}

#[test]
fn a_metadata_instruction_needs_its_account() {
    assert_eq!(
        decoded_key(MetadataInstruction::SignMetadata, vec![]),
        Err(ErrorCode::BadAccountKeyIndex)
    );
    assert_eq!(
        decoded_key(MetadataInstruction::SignMetadata, vec![16]),
        Err(ErrorCode::BadAccountKeyIndex)
    );
    assert_eq!(
        decoded_key(MetadataInstruction::DeprecatedCreateMasterEdition, vec![0, 1, 2, 3, 4, 5, 6]),
        Err(ErrorCode::BadAccountKeyIndex)
    );
    assert_eq!(
        decoded_key(MetadataInstruction::CreateMasterEdition, vec![0, 1, 2, 3, 4]),
        Err(ErrorCode::BadAccountKeyIndex)
    );
    assert_eq!(
        decoded_key(MetadataInstruction::DeprecatedMintPrintingTokens, vec![0, 1, 2]),
        Err(ErrorCode::BadAccountKeyIndex)
    );
    assert_eq!(
        decoded_key(MetadataInstruction::ApproveCollectionAuthority, vec![0, 1, 2, 3]),
        Err(ErrorCode::BadAccountKeyIndex)
    );
    assert_eq!(
        decoded_key(MetadataInstruction::ApproveCollectionAuthority, vec![0, 1, 2, 3, 200]),
        Err(ErrorCode::BadAccountKeyIndex)
    );
}

#[test]
fn printing_an_edition_needs_the_masters_account() {
    let via_token = || MetadataInstruction::MintNewEditionFromMasterEditionViaToken { edition: 1 };
    let via_proxy =
        || MetadataInstruction::MintNewEditionFromMasterEditionViaVaultProxy { edition: 1 };
    let printing =
        || MetadataInstruction::DeprecatedMintNewEditionFromMasterEditionViaPrintingToken;
    let first = |n: u8| (0..n).collect::<Vec<u8>>();
    assert_eq!(decoded_key(via_token(), first(10)), Err(ErrorCode::BadAccountKeyIndex));
    assert_eq!(decoded_key(via_token(), first(11)), Ok(Some(key(100))));
    assert_eq!(decoded_key(via_proxy(), first(12)), Err(ErrorCode::BadAccountKeyIndex));
    assert_eq!(decoded_key(via_proxy(), first(13)), Ok(Some(key(100))));
    assert_eq!(decoded_key(printing(), first(11)), Err(ErrorCode::BadAccountKeyIndex));
    assert_eq!(decoded_key(printing(), first(12)), Ok(Some(key(100))));
}

#[test]
fn find_master_key_follows_the_older_layout() {
    let printing = MetadataInstruction::DeprecatedMintNewEditionFromMasterEditionViaPrintingToken;
    let mut account_keys = keys();
    let instruction = CompiledInstruction {
        program_id_index: 0,
        account_indices: (0..16u8).collect(),
        data: vec![],
    };
    // the newer layout: the master's metadata at 11
    assert_eq!(find_master_key(&printing, &instruction, &account_keys), Ok(Some(key(111))));
    // the older layout: the token program at 11, the master's metadata at 10
    account_keys[11] = token_program_id();
    assert_eq!(find_master_key(&printing, &instruction, &account_keys), Ok(Some(key(110))));
    // the older layout with the account at 10 out of reach
    let mut broken = instruction.clone();
    broken.account_indices[10] = 99;
    assert_eq!(
        find_master_key(&printing, &broken, &account_keys),
        Err(ErrorCode::BadAccountKeyIndex)
    );
    account_keys[11] = key(111);
    assert_eq!(find_master_key(&printing, &broken, &account_keys), Ok(Some(key(111))));
}

#[test]
fn find_master_key_by_instruction() {
    let account_keys = keys();
    let instruction = CompiledInstruction {
        program_id_index: 0,
        account_indices: (0..16u8).collect(),
        data: vec![],
    };
    assert_eq!(
        find_master_key(
            &MetadataInstruction::MintNewEditionFromMasterEditionViaToken { edition: 3 },
            &instruction,
            &account_keys
        ),
        Ok(Some(key(110)))
    );
    assert_eq!(
        find_master_key(
            &MetadataInstruction::MintNewEditionFromMasterEditionViaVaultProxy { edition: 3 },
            &instruction,
            &account_keys
        ),
        Ok(Some(key(112)))
    );
    assert_eq!(
        find_master_key(&MetadataInstruction::SignMetadata, &instruction, &account_keys),
        Ok(None)
    );
    assert_eq!(
        find_master_key(&MetadataInstruction::CreateMasterEdition, &instruction, &account_keys),
        Ok(None)
    );
}

#[test]
fn partition_metadata_instruction_decodes_the_data() {
    let account_keys = keys();
    let mut transient_metas: Vec<TransactionTokenMeta> = vec![];
    let mut go = |data: Vec<u8>, account_indices: Vec<u8>| {
        let instruction = CompiledInstruction { program_id_index: 0, account_indices, data };
        partition_metadata_instruction(InstructionContext {
            instruction: &instruction,
            account_keys: &account_keys,
            token_metas: &[],
            transient_metas: &mut transient_metas,
        })
    };
    assert_eq!(go(Mpl::SignMetadata.try_to_vec().unwrap(), vec![4, 5]), Ok(Some(key(104))));
    assert_eq!(
        go(Mpl::ApproveCollectionAuthority.try_to_vec().unwrap(), vec![0, 1, 2, 3, 9]),
        Ok(Some(key(109)))
    );
    assert_eq!(go(Mpl::ThawDelegatedAccount.try_to_vec().unwrap(), vec![]), Ok(None));
    let print = Mpl::MintNewEditionFromMasterEditionViaToken(
        MintNewEditionFromMasterEditionViaTokenArgs { edition: 42 },
    )
    .try_to_vec()
    .unwrap();
    assert_eq!(go(print.clone(), (1..12).collect()), Ok(Some(key(101))));
    assert_eq!(go(print, vec![1, 2]), Err(ErrorCode::BadAccountKeyIndex));
    assert_eq!(go(vec![], vec![1, 2]), Err(ErrorCode::FailedInstructionDeserialization));
    assert_eq!(go(vec![7, 7], vec![1, 2]), Err(ErrorCode::FailedInstructionDeserialization));
    assert_eq!(go(vec![250], vec![1, 2]), Err(ErrorCode::FailedInstructionDeserialization));
}

fn table() -> Vec<InstructionPartitioner> {
    vec![
        InstructionPartitioner { program_id: key(100), partitioner: Partitioner::Token },
        InstructionPartitioner { program_id: key(101), partitioner: Partitioner::Metadata },
    ]
}

#[test]
fn lookup_partitioner_takes_the_first_entry() {
    let mut partitioners = table();
    assert_eq!(lookup_partitioner(&partitioners, &key(100)), Some(Partitioner::Token));
    assert_eq!(lookup_partitioner(&partitioners, &key(101)), Some(Partitioner::Metadata));
    assert_eq!(lookup_partitioner(&partitioners, &key(102)), None);
    assert_eq!(lookup_partitioner(&[], &key(100)), None);
    partitioners
        .push(InstructionPartitioner { program_id: key(100), partitioner: Partitioner::Metadata });
    assert_eq!(lookup_partitioner(&partitioners, &key(100)), Some(Partitioner::Token));
}

#[test]
fn partition_instruction_goes_by_the_program() {
    let account_keys = keys();
    let partitioners = table();
    let mut transient_metas: Vec<TransactionTokenMeta> = vec![];
    let mut go = |program_id_index: u8, data: Vec<u8>, account_indices: Vec<u8>| {
        let instruction = CompiledInstruction { program_id_index, account_indices, data };
        partition_instruction(
            InstructionContext {
                instruction: &instruction,
                account_keys: &account_keys,
                token_metas: &[],
                transient_metas: &mut transient_metas,
            },
            &partitioners,
        )
    };
    let sign = Mpl::SignMetadata.try_to_vec().unwrap();
    // the same data mean another thing to each program
    assert_eq!(go(1, sign.clone(), vec![4, 5]), Ok(Some(key(104))));
    assert_eq!(go(0, sign.clone(), vec![4, 5]), Err(ErrorCode::FailedInstructionDeserialization));
    assert_eq!(go(0, Spl::SyncNative.pack(), vec![]), Ok(None));
    // a program without a partitioner: passed over, whatever the data
    assert_eq!(go(2, sign.clone(), vec![4, 5]), Ok(None));
    assert_eq!(go(2, vec![], vec![]), Ok(None));
    // a program that is not among the account keys
    assert_eq!(go(16, sign, vec![4, 5]), Err(ErrorCode::BadAccountKeyIndex));
}

#[test]
fn partition_instruction_hands_the_transient_metas_on() {
    let account_keys = keys();
    let partitioners = table();
    let mut transient_metas: Vec<TransactionTokenMeta> = vec![];
    let instruction = CompiledInstruction {
        program_id_index: 0,
        account_indices: vec![5, 3, 4],
        data: Spl::InitializeAccount.pack(),
    };
    let r = partition_instruction(
        InstructionContext {
            instruction: &instruction,
            account_keys: &account_keys,
            token_metas: &[],
            transient_metas: &mut transient_metas,
        },
        &partitioners,
    );
    assert_eq!(r, Ok(None));
    assert_eq!(transient_metas.len(), 1);
    assert_eq!(transient_metas[0].account_index, 5);
    assert_eq!(transient_metas[0].mint_key, key(103));
}
