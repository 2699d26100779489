//! What to fetch from the ledger: the ranges of slots to ask for, and the
//! transactions that are worth keeping.

use crate::key::{
    lemma_key_bytes_decide, metadata_program_bytes, metadata_program_id, token_program_bytes,
    token_program_id, Key,
};
use crate::search::{first_index, is_first, lemma_first_absent, lemma_first_found};
use crate::transaction::{Transaction, TransactionView};
use vstd::prelude::*;

verus! {

/// The number of slots that are asked for at once.
pub const CHUNK_SLOTS: u64 = 16;

/// The end of the chunk of slots that starts at `chunk_start`: a full chunk,
/// or what is left up to `block_end`.
pub fn chunk_end(chunk_start: u64, block_end: u64) -> (r: u64)
    ensures
        r == if chunk_start + CHUNK_SLOTS <= block_end {
            chunk_start + CHUNK_SLOTS
        } else {
            block_end as int
        },
{
    if block_end >= CHUNK_SLOTS && chunk_start <= block_end - CHUNK_SLOTS {
        chunk_start + CHUNK_SLOTS
    } else {
        block_end
    }
}

/// One of the keys is the token program's or the metadata program's.
pub open spec fn names_nft_program(account_keys: Seq<Key>) -> bool {
    exists|i: int|
        0 <= i < account_keys.len() && (#[trigger] account_keys[i]@ == token_program_bytes()
            || account_keys[i]@ == metadata_program_bytes())
}

/// Whether a transaction with these account keys can touch a token: whether
/// it names the token program or the metadata program.
pub fn mentions_nft_program(account_keys: &[Key]) -> (r: bool)
    ensures
        r == names_nft_program(account_keys@),
{
    let token_program = token_program_id();
    let metadata_program = metadata_program_id();
    let mut i: usize = 0;
    while i < account_keys.len()
        invariant
            i <= account_keys.len(),
            token_program@ == token_program_bytes(),
            metadata_program@ == metadata_program_bytes(),
            forall|j: int|
                0 <= j < i ==> !(#[trigger] account_keys@[j]@ == token_program_bytes()
                    || account_keys@[j]@ == metadata_program_bytes()),
        decreases account_keys.len() - i,
    {
        proof {
            lemma_key_bytes_decide(account_keys@[i as int], token_program);
            lemma_key_bytes_decide(account_keys@[i as int], metadata_program);
        }
        if account_keys[i] == token_program || account_keys[i] == metadata_program {
            return true;
        }
        i += 1;
    }
    false
}

impl TransactionView {
    /// The transaction is worth keeping: it is not known to have failed, and
    /// it names the token program or the metadata program.
    pub open spec fn worth_keeping(self) -> bool {
        &&& match self.status {
            Some(status) => !status.failed,
            None => true,
        }
        &&& names_nft_program(self.message.account_keys)
    }
}

impl Transaction {
    /// Whether the transaction is worth keeping for replay.
    pub fn is_worth_keeping(&self) -> (r: bool)
        ensures
            r == self@.worth_keeping(),
    {
        let failed = match &self.status {
            Some(status) => status.failed,
            None => false,
        };
        !failed && mentions_nft_program(self.message.account_keys.as_slice())
    }
}

/// Whether a character is one of the ten digits.
pub open spec fn is_digit(c: char) -> bool {
    '0' <= c <= '9'
}

/// The number that a text of digits writes, in base ten.
pub open spec fn number(digits: Seq<char>) -> nat
    decreases digits.len(),
{
    if digits.len() == 0 {
        0
    } else {
        number(digits.drop_last()) * 10 + (digits.last() as int - '0' as int) as nat
    }
}

/// The slot that a text writes: one digit or more, and a number that a slot
/// can hold.
pub open spec fn slot_of(text: Seq<char>) -> Option<u64> {
    if text.len() > 0 && (forall|i: int| 0 <= i < text.len() ==> is_digit(#[trigger] text[i]))
        && number(text) <= u64::MAX {
        Some(number(text) as u64)
    } else {
        None
    }
}

/// The condition "is a hyphen".
pub open spec fn is_hyphen() -> spec_fn(char) -> bool {
    |c: char| c == '-'
}

/// The range of slots that a text writes: a first slot, a hyphen, and a slot
/// that is not before the first.
pub open spec fn block_range_of(text: Seq<char>) -> Option<(u64, u64)> {
    match first_index(text, is_hyphen()) {
        None => None,
        Some(i) => match (
            slot_of(text.subrange(0, i)),
            slot_of(text.subrange(i + 1, text.len() as int)),
        ) {
            (Some(block_start), Some(block_end)) => if block_start <= block_end {
                Some((block_start, block_end))
            } else {
                None
            },
            _ => None,
        },
    }
}

/// A text of digits writes a number that is no smaller than what any of its
/// beginnings writes.
proof fn lemma_number_grows(digits: Seq<char>, k: int)
    requires
        0 <= k <= digits.len(),
        forall|i: int| 0 <= i < digits.len() ==> is_digit(#[trigger] digits[i]),
    ensures
        number(digits.subrange(0, k)) <= number(digits),
    decreases digits.len(),
{
    if k == digits.len() {
        assert(digits.subrange(0, k) =~= digits);
    } else {
        assert(digits.drop_last().subrange(0, k) =~= digits.subrange(0, k));
        lemma_number_grows(digits.drop_last(), k);
    }
}

fn digit_of(c: char) -> (r: Option<u64>)
    ensures
        match r {
            Some(d) => is_digit(c) && d == c as int - '0' as int,
            None => !is_digit(c),
        },
{
    match c {
        '0' => Some(0),
        '1' => Some(1),
        '2' => Some(2),
        '3' => Some(3),
        '4' => Some(4),
        '5' => Some(5),
        '6' => Some(6),
        '7' => Some(7),
        '8' => Some(8),
        '9' => Some(9),
        _ => None,
    }
}

/// Reads the slot that the characters of `text` from `from` up to `to`
/// write.
fn parse_slot(text: &str, from: usize, to: usize) -> (r: Option<u64>)
    requires
        from <= to <= text@.len(),
    ensures
        r == slot_of(text@.subrange(from as int, to as int)),
{
    let ghost digits = text@.subrange(from as int, to as int);
    if from == to {
        return None;
    }
    let mut value: u64 = 0;
    let mut i: usize = from;
    while i < to
        invariant
            from <= i <= to <= text@.len(),
            digits == text@.subrange(from as int, to as int),
            forall|j: int| 0 <= j < i - from ==> is_digit(#[trigger] digits[j]),
            value == number(digits.subrange(0, i - from)),
        decreases to - i,
    {
        let digit = match digit_of(text.get_char(i)) {
            None => {
                assert(!is_digit(digits[i - from]));
                return None;
            },
            Some(digit) => digit,
        };
        assert(digits.subrange(0, i - from + 1).drop_last() =~= digits.subrange(0, i - from));
        if value > (u64::MAX - digit) / 10 {
            proof {
                if forall|j: int| 0 <= j < digits.len() ==> is_digit(#[trigger] digits[j]) {
                    lemma_number_grows(digits, i - from + 1);
                }
            }
            return None;
        }
        value = value * 10 + digit;
        i += 1;
    }
    assert(digits.subrange(0, to - from) =~= digits);
    Some(value)
}

/// Reads a range of slots written as two numbers with a hyphen between them,
/// such as `1000-1200`.
pub fn parse_block_range(text: &str) -> (r: Option<(u64, u64)>)
    ensures
        r == block_range_of(text@),
{
    let len = text.unicode_len();
    let mut i: usize = 0;
    while i < len
        invariant
            i <= len == text@.len(),
            forall|j: int| 0 <= j < i ==> !is_hyphen()(#[trigger] text@[j]),
        decreases len - i,
    {
        if text.get_char(i) == '-' {
            proof {
                assert(is_first(text@, is_hyphen(), i as int));
                lemma_first_found(text@, is_hyphen(), i as int);
            }
            let block_start = parse_slot(text, 0, i);
            let block_end = parse_slot(text, i + 1, len);
            return match (block_start, block_end) {
                (Some(block_start), Some(block_end)) => if block_start <= block_end {
                    Some((block_start, block_end))
                } else {
                    None
                },
                _ => None,
            };
        }
        i += 1;
    }
    proof {
        lemma_first_absent(text@, is_hyphen());
    }
    None
}

} // verus!
