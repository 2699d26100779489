use bonbon::key::{metadata_program_id, token_program_id, Key};
use bonbon::metadata::find_metadata_account;
use solana_program::pubkey::Pubkey;

#[test]
fn token_program_id_is_the_token_programs() {
    assert_eq!(token_program_id().bytes, spl_token::id().to_bytes());
}

#[test]
fn metadata_program_id_is_the_metadata_programs() {
    assert_eq!(metadata_program_id().bytes, mpl_token_metadata::id().to_bytes());
}

#[test]
fn keys_compare_by_their_bytes() {
    let mut other = [7u8; 32];
    assert_eq!(Key::new([7u8; 32]), Key::new(other));
    other[31] = 8;
    assert_ne!(Key::new([7u8; 32]), Key::new(other));
    other[31] = 7;
    other[0] = 0;
    assert_ne!(Key::new([7u8; 32]), Key::new(other));
}

#[test]
fn default_key_is_unset() {
    assert!(Key::default().is_unset());
    assert_eq!(Key::default().bytes, [0u8; 32]);
    assert!(!Key::new([1u8; 32]).is_unset());
    let mut almost = [0u8; 32];
    almost[17] = 1;
    assert!(!Key::new(almost).is_unset());
}

#[test]
fn from_base58_reads_a_program_id() {
    assert_eq!(
        Key::from_base58("TokenkegQfeZyiNwAJbNbGKPFXCWuBvf9Ss623VQ5DA"),
        Some(token_program_id())
    );
    assert_eq!(
        Key::from_base58("metaqbxxUerdq28cj1RbAWkYQm3ybzjb6a8bt518x1s"),
        Some(metadata_program_id())
    );
}

#[test]
fn from_base58_reads_every_byte() {
    let mut bytes = [0u8; 32];
    for i in 0..32 {
        bytes[i] = (i as u8) * 7 + 1;
    }
    let text = bs58::encode(bytes).into_string();
    assert_eq!(Key::from_base58(&text), Some(Key::new(bytes)));
    assert_eq!(Key::from_base58(&bs58::encode([0u8; 32]).into_string()), Some(Key::default()));
}

#[test]
fn from_base58_refuses_what_is_not_base58() {
    assert_eq!(Key::from_base58("Tokenkeg0feZyiNwAJbNbGKPFXCWuBvf9Ss623VQ5DA"), None);
    assert_eq!(Key::from_base58("not a key"), None);
    assert_eq!(Key::from_base58("Tokenk\u{e9}g"), None);
}

#[test]
fn from_base58_refuses_other_lengths() {
    assert_eq!(Key::from_base58(""), None);
    assert_eq!(Key::from_base58("he11owor1d"), None);
    assert_eq!(Key::from_base58(&bs58::encode([1u8; 31]).into_string()), None);
    assert_eq!(Key::from_base58(&bs58::encode([1u8; 33]).into_string()), None);
}

#[test]
fn find_metadata_account_derives_the_programs_address() {
    for seed in [0u8, 1, 9, 200] {
        let mint = Pubkey::new_from_array([seed; 32]);
        let expected = mpl_token_metadata::pda::find_metadata_account(&mint).0;
        let found = find_metadata_account(&Key::new([seed; 32]));
        assert_eq!(found, Some(Key::new(expected.to_bytes())));
        assert_ne!(found, Some(Key::new([seed; 32])));
    }
}

#[test]
fn find_metadata_account_tells_mints_apart() {
    let a = find_metadata_account(&Key::new([3u8; 32]));
    let b = find_metadata_account(&Key::new([4u8; 32]));
    assert!(a.is_some());
    assert_ne!(a, b);
    assert_eq!(a, find_metadata_account(&Key::new([3u8; 32])));
}
