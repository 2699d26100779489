use bonbon::assemble::{
    assemble, assemble_traced, BonbonUpdater, ErrorCode, Replayed, Traced, Updater,
};
use bonbon::instruction::CompiledInstruction;
use bonbon::key::Key;
use bonbon::metadata::find_metadata_account;
use borsh::BorshSerialize;
use mpl_token_metadata::instruction::{
    CreateMetadataAccountArgs, MetadataInstruction as Mpl, UpdateMetadataAccountArgs,
};
use mpl_token_metadata::state::Data;
use solana_program::program_option::COption;
use solana_program::pubkey::Pubkey;
use spl_token::instruction::TokenInstruction as Spl;

fn key(n: u8) -> Key {
    Key::new([n; 32])
}

fn keys() -> Vec<Key> {
    let mut keys: Vec<Key> = (0..8u8).map(|n| key(100 + n)).collect();
    keys[2] = key(40);
    keys[3] = find_metadata_account(&key(40)).unwrap();
    keys
}

fn updaters() -> Vec<BonbonUpdater> {
    vec![
        BonbonUpdater { program_id: key(100), update: Updater::Token },
        BonbonUpdater { program_id: key(101), update: Updater::Metadata },
    ]
}

fn step(program_id_index: u8, data: Vec<u8>, account_indices: Vec<u8>) -> Replayed {
    Replayed {
        instruction: CompiledInstruction { program_id_index, account_indices, data },
        account_keys: keys(),
        owners: vec![],
    }
}

fn data(uri: &str) -> Data {
    Data {
        name: String::new(),
        symbol: String::new(),
        uri: uri.to_string(),
        seller_fee_basis_points: 0,
        creators: None,
    }
}

fn update(uri: Option<&str>) -> Vec<u8> {
    Mpl::UpdateMetadataAccount(UpdateMetadataAccountArgs {
        data: uri.map(data),
        update_authority: None,
        primary_sale_happened: None,
    })
    .try_to_vec()
    .unwrap()
}

fn history() -> Vec<Replayed> {
    let mint = Spl::InitializeMint {
        decimals: 0,
        mint_authority: Pubkey::new_from_array([9; 32]),
        freeze_authority: COption::None,
    };
    let create =
        Mpl::CreateMetadataAccount(CreateMetadataAccountArgs { data: data("g0"), is_mutable: true });
    vec![
        step(0, mint.pack(), vec![2]),
        step(1, create.try_to_vec().unwrap(), vec![3]),
        step(0, Spl::MintTo { amount: 1 }.pack(), vec![2, 5]),
        step(1, update(None), vec![3]),
        step(1, update(Some("g1")), vec![3]),
        step(5, vec![], vec![]),
        step(1, Mpl::VerifyCollection.try_to_vec().unwrap(), vec![3, 4, 5, 6]),
        step(1, Mpl::PuffMetadata.try_to_vec().unwrap(), vec![3]),
    ]
}

#[test]
fn every_version_has_the_instruction_that_recorded_it() {
    let Traced { bonbon, origins } = assemble_traced(&history(), &updaters()).unwrap();
    assert_eq!(origins, vec![1, 4, 6]);
    let uris: Vec<&[u8]> = bonbon.glazing.iter().map(|g| &g.uri[..]).collect();
    assert_eq!(uris, vec![&b"g0"[..], &b"g1"[..], &b"g1"[..]]);
    assert!(bonbon.glazing[2].collection.is_some());
}

#[test]
fn tracing_assembles_the_same_state() {
    let traced = assemble_traced(&history(), &updaters()).unwrap();
    assert_eq!(Ok(traced.bonbon), assemble(&history(), &updaters()));
    assert_eq!(
        assemble_traced(&[], &updaters()),
        Ok(Traced { bonbon: assemble(&[], &updaters()).unwrap(), origins: vec![] })
    );
}

#[test]
fn tracing_stops_at_the_first_refusal() {
    let mut steps = history();
    steps.insert(3, step(1, update(Some("other")), vec![4]));
    assert_eq!(assemble_traced(&steps, &updaters()), Err(ErrorCode::InvalidMetadataUpdate));
    assert_eq!(assemble(&steps, &updaters()), Err(ErrorCode::InvalidMetadataUpdate));
}

#[test]
fn the_latest_version_has_the_latest_origin() {
    let Traced { bonbon, origins } = assemble_traced(&history(), &updaters()).unwrap();
    assert_eq!(origins.len(), bonbon.glazing.len());
    let latest = origins.iter().enumerate().max_by_key(|(_, origin)| **origin).unwrap().0;
    assert_eq!(latest, bonbon.glazing.len() - 1);
    for w in origins.windows(2) {
        assert!(w[0] < w[1]);
    }
}
