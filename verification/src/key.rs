//! Addresses: 32-byte opaque identifiers with a total equality.

use vstd::prelude::*;
use vstd::std_specs::cmp::PartialEqSpecImpl;

verus! {

/// A 32-byte address. Two keys are equal exactly when their bytes are.
#[derive(Debug, Clone, Copy, Eq, Hash)]
pub struct Key {
    pub bytes: [u8; 32],
}

impl View for Key {
    type V = Seq<u8>;

    open spec fn view(&self) -> Seq<u8> {
        self.bytes@
    }
}

impl Key {
    /// The all-zero key, which stands for "not set yet".
    pub open spec fn unset() -> Key {
        key_with(Seq::new(32, |i: int| 0u8))
    }

    /// Wraps 32 bytes as a key.
    pub fn new(bytes: [u8; 32]) -> (k: Key)
        ensures
            k.bytes == bytes,
    {
        Key { bytes }
    }

    /// Whether this is the all-zero key.
    pub fn is_unset(&self) -> (r: bool)
        ensures
            r == (*self == Key::unset()),
    {
        let zero = Key::default();
        *self == zero
    }
}

/// Keys with the same bytes are the same key.
pub proof fn lemma_key_bytes_decide(a: Key, b: Key)
    ensures
        (a == b) <==> (a@ == b@),
{
    if a@ == b@ {
        assert(a.bytes =~= b.bytes);
    }
}

/// The key whose bytes are `bytes`, for 32 bytes.
pub open spec fn key_with(bytes: Seq<u8>) -> Key {
    choose|key: Key| key@ == bytes
}

/// A key is the key with its bytes.
pub proof fn lemma_key_with(key: Key)
    ensures
        key_with(key@) == key,
{
    lemma_key_bytes_decide(key_with(key@), key);
}

/// What the base-58 decoder makes of a text: the bytes that it stands for,
/// and `None` where it is no base-58 text.
pub uninterp spec fn base58_decoded(text: Seq<char>) -> Option<Seq<u8>>;

/// The bytes of a vector that may be absent.
pub open spec fn bytes_view(bytes: Option<Vec<u8>>) -> Option<Seq<u8>> {
    match bytes {
        Some(bytes) => Some(bytes@),
        None => None,
    }
}

/// Calls `bs58::decode` on the text and takes the result as a vector, with
/// `None` for the decoder's error.
#[verifier::external_body]
fn decode_base58(text: &str) -> (r: Option<Vec<u8>>)
    ensures
        bytes_view(r) == base58_decoded(text@),
{
    bs58::decode(text).into_vec().ok()
}

/// The key that a text stands for: the text is base-58 for exactly 32 bytes.
pub open spec fn key_of_text(text: Seq<char>) -> Option<Key> {
    match base58_decoded(text) {
        Some(bytes) => if bytes.len() == 32 {
            Some(key_with(bytes))
        } else {
            None
        },
        None => None,
    }
}

impl Key {
    /// Reads a key written in base 58.
    pub fn from_base58(text: &str) -> (r: Option<Key>)
        ensures
            r == key_of_text(text@),
    {
        let decoded = match decode_base58(text) {
            Some(decoded) => decoded,
            None => { return None; },
        };
        if decoded.len() != 32 {
            return None;
        }
        let mut bytes = [0u8; 32];
        let mut i: usize = 0;
        while i < 32
            invariant
                i <= 32,
                decoded.len() == 32,
                forall|j: int| 0 <= j < i ==> bytes[j] == decoded[j],
            decreases 32 - i,
        {
            bytes[i] = decoded[i];
            i += 1;
        }
        let key = Key { bytes };
        proof {
            assert(key@ =~= decoded@);
            lemma_key_with(key);
        }
        Some(key)
    }
}

impl PartialEq for Key {
    fn eq(&self, other: &Key) -> (r: bool) {
        let mut i: usize = 0;
        while i < 32
            invariant
                i <= 32,
                forall|j: int| 0 <= j < i ==> self.bytes[j] == other.bytes[j],
            decreases 32 - i,
        {
            if self.bytes[i] != other.bytes[i] {
                return false;
            }
            i += 1;
        }
        assert(self.bytes =~= other.bytes);
        true
    }
}

impl PartialEqSpecImpl for Key {
    open spec fn obeys_eq_spec() -> bool {
        true
    }

    open spec fn eq_spec(&self, other: &Key) -> bool {
        *self == *other
    }
}

impl Default for Key {
    fn default() -> (k: Key)
        ensures
            k == Key::unset(),
    {
        let k = Key { bytes: [0u8; 32] };
        proof {
            assert(k@ =~= Seq::new(32, |i: int| 0u8));
            lemma_key_with(k);
        }
        k
    }
}

/// The bytes of the token program's address.
pub open spec fn token_program_bytes() -> Seq<u8> {
    seq![
        6u8, 221, 246, 225, 215, 101, 161, 147, 217, 203, 225, 70, 206, 235, 121, 172,
        28, 180, 133, 237, 95, 91, 55, 145, 58, 140, 245, 133, 126, 255, 0, 169,
    ]
}

/// The bytes of the metadata program's address.
pub open spec fn metadata_program_bytes() -> Seq<u8> {
    seq![
        11u8, 112, 101, 177, 227, 209, 124, 69, 56, 157, 82, 127, 107, 4, 195, 205,
        88, 184, 108, 115, 26, 160, 253, 181, 73, 182, 209, 188, 3, 248, 41, 70,
    ]
}

/// The address of the token program.
pub fn token_program_id() -> (k: Key)
    ensures
        k@ == token_program_bytes(),
{
    let k = Key {
        bytes: [
            6, 221, 246, 225, 215, 101, 161, 147, 217, 203, 225, 70, 206, 235, 121, 172,
            28, 180, 133, 237, 95, 91, 55, 145, 58, 140, 245, 133, 126, 255, 0, 169,
        ],
    };
    k
}

/// The address of the metadata program.
pub fn metadata_program_id() -> (k: Key)
    ensures
        k@ == metadata_program_bytes(),
{
    let k = Key {
        bytes: [
            11, 112, 101, 177, 227, 209, 124, 69, 56, 157, 82, 127, 107, 4, 195, 205,
            88, 184, 108, 115, 26, 160, 253, 181, 73, 182, 209, 188, 3, 248, 41, 70,
        ],
    };
    k
}

} // verus!
