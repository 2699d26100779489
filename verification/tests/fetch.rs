use bonbon::fetch::{chunk_end, mentions_nft_program, parse_block_range, CHUNK_SLOTS};
use bonbon::instruction::CompiledInstruction;
use bonbon::key::{metadata_program_id, token_program_id, Key};
use bonbon::transaction::{Message, Transaction, TransactionStatus};

fn key(n: u8) -> Key {
    Key::new([n; 32])
}

#[test]
fn chunks_are_sixteen_slots() {
    assert_eq!(CHUNK_SLOTS, 16);
    assert_eq!(chunk_end(0, 100), 16);
    assert_eq!(chunk_end(16, 100), 32);
    assert_eq!(chunk_end(84, 100), 100);
    assert_eq!(chunk_end(83, 100), 99);
}

#[test]
fn the_last_chunk_ends_with_the_range() {
    assert_eq!(chunk_end(96, 100), 100);
    assert_eq!(chunk_end(85, 100), 100);
    assert_eq!(chunk_end(0, 5), 5);
    assert_eq!(chunk_end(0, 16), 16);
    assert_eq!(chunk_end(0, 15), 15);
    assert_eq!(chunk_end(7, 7), 7);
    assert_eq!(chunk_end(9, 7), 7);
}

#[test]
fn chunks_at_the_end_of_all_slots_do_not_overflow() {
    assert_eq!(chunk_end(u64::MAX - 3, u64::MAX), u64::MAX);
    assert_eq!(chunk_end(u64::MAX - 16, u64::MAX), u64::MAX);
    assert_eq!(chunk_end(u64::MAX - 17, u64::MAX), u64::MAX - 1);
    assert_eq!(chunk_end(u64::MAX, u64::MAX), u64::MAX);
}

#[test]
fn walking_the_chunks_covers_the_range_once() {
    let (start, end) = (1000u64, 1100u64);
    let mut chunks = vec![];
    let mut chunk_start = start;
    while chunk_start < end {
        let next = chunk_end(chunk_start, end);
        chunks.push((chunk_start, next));
        chunk_start = next;
    }
    assert_eq!(chunks.len(), 7);
    assert_eq!(chunks[0], (1000, 1016));
    assert_eq!(chunks[6], (1096, 1100));
    for w in chunks.windows(2) {
        assert_eq!(w[0].1, w[1].0);
    }
}

#[test]
fn a_transaction_that_names_a_program_is_mentioned() {
    assert!(mentions_nft_program(&[key(1), token_program_id(), key(2)]));
    assert!(mentions_nft_program(&[metadata_program_id()]));
    assert!(mentions_nft_program(&[key(1), key(2), key(3), metadata_program_id()]));
    assert!(mentions_nft_program(&[token_program_id(), metadata_program_id()]));
}

#[test]
fn a_transaction_that_names_neither_program_is_not() {
    assert!(!mentions_nft_program(&[]));
    assert!(!mentions_nft_program(&[key(1), key(2), Key::default()]));
    let mut almost = token_program_id();
    almost.bytes[31] ^= 1;
    assert!(!mentions_nft_program(&[almost]));
}

fn transaction(account_keys: Vec<Key>, status: Option<bool>) -> Transaction {
    Transaction {
        message: Message {
            account_keys,
            instructions: vec![CompiledInstruction {
                program_id_index: 0,
                account_indices: vec![],
                data: vec![],
            }],
        },
        status: status.map(|failed| TransactionStatus {
            failed,
            pre_token_balances: vec![],
            post_token_balances: vec![],
            inner_instructions: vec![],
        }),
        signature: [0u8; 64],
        slot: 1,
        block_index: 2,
    }
}

#[test]
fn transactions_worth_keeping_did_not_fail_and_name_a_program() {
    let with = vec![key(1), token_program_id()];
    let without = vec![key(1), key(2)];
    assert!(transaction(with.clone(), Some(false)).is_worth_keeping());
    // without a status nothing says that it failed
    assert!(transaction(with.clone(), None).is_worth_keeping());
    assert!(!transaction(with, Some(true)).is_worth_keeping());
    assert!(!transaction(without.clone(), Some(false)).is_worth_keeping());
    assert!(!transaction(without.clone(), None).is_worth_keeping());
    assert!(!transaction(without, Some(true)).is_worth_keeping());
}

#[test]
fn block_ranges_are_two_slots_with_a_hyphen() {
    assert_eq!(parse_block_range("1000-1200"), Some((1000, 1200)));
    assert_eq!(parse_block_range("0-0"), Some((0, 0)));
    assert_eq!(parse_block_range("7-7"), Some((7, 7)));
    assert_eq!(parse_block_range("007-0010"), Some((7, 10)));
    assert_eq!(
        parse_block_range("0-18446744073709551615"),
        Some((0, 18446744073709551615))
    );
    assert_eq!(
        parse_block_range("18446744073709551615-18446744073709551615"),
        Some((u64::MAX, u64::MAX))
    );
    assert_eq!(
        parse_block_range("120000000-00000000000000000000000130000000"),
        Some((120000000, 130000000))
    );
}

#[test]
fn block_ranges_that_run_backwards_are_refused() {
    assert_eq!(parse_block_range("1200-1000"), None);
    assert_eq!(parse_block_range("1-0"), None);
}

#[test]
fn block_ranges_need_both_slots() {
    assert_eq!(parse_block_range(""), None);
    assert_eq!(parse_block_range("-"), None);
    assert_eq!(parse_block_range("5-"), None);
    assert_eq!(parse_block_range("-5"), None);
    assert_eq!(parse_block_range("5"), None);
    assert_eq!(parse_block_range("1000 1200"), None);
}

#[test]
fn block_ranges_hold_digits_only() {
    assert_eq!(parse_block_range("1-2-3"), None);
    assert_eq!(parse_block_range("1--2"), None);
    assert_eq!(parse_block_range(" 1-2"), None);
    assert_eq!(parse_block_range("1-2 "), None);
    assert_eq!(parse_block_range("1-2\n"), None);
    assert_eq!(parse_block_range("+1-2"), None);
    assert_eq!(parse_block_range("1-+2"), None);
    assert_eq!(parse_block_range("a-2"), None);
    assert_eq!(parse_block_range("1-0x10"), None);
    assert_eq!(parse_block_range("1_0-20"), None);
    // digits of other scripts are not slots
    assert_eq!(parse_block_range("\u{661}-\u{662}"), None);
    assert_eq!(parse_block_range("1\u{2013}2"), None);
}

#[test]
fn block_ranges_beyond_all_slots_are_refused() {
    assert_eq!(parse_block_range("0-18446744073709551616"), None);
    assert_eq!(parse_block_range("18446744073709551616-18446744073709551617"), None);
    assert_eq!(parse_block_range("0-99999999999999999999999999"), None);
    assert_eq!(parse_block_range("0-184467440737095516150"), None);
    // too large, and not a number either
    assert_eq!(parse_block_range("0-99999999999999999999999999x"), None);
}
