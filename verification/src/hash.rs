//! The 32-byte SHA-256 hash that identifies a block, and its lowercase
//! hexadecimal text form.

use vstd::prelude::*;
use vstd::std_specs::cmp::PartialEqSpecImpl;
use sha2::Digest;
use crate::block::{BlockData, Timestamp};
use crate::encoding::{
    all_hex_symbols, ascii_chars, first_non_hex, hex_decoded, hex_text, lemma_hex_decode_encode, lemma_hex_round_trip, push_decimal,
    push_signed_decimal, decimal_text, signed_decimal_text,
};

verus! {

/// What SHA-256 gives for `data`.
pub uninterp spec fn sha256(data: Seq<u8>) -> Seq<u8>;

/// Calls `sha2::Sha256::digest` and returns the 32-byte digest. The contract
/// claims that the digest is the SHA-256 of the input bytes, a function of
/// them alone.
#[verifier::external_body]
fn sha256_digest(data: &[u8]) -> (r: [u8; 32])
    ensures
        r@ == sha256(data@),
{
    sha2::Sha256::digest(data).into()
}

/// Calls `data_encoding::HEXLOWER.encode` on the 32 bytes of a hash (far
/// below the input length above which the encoder asserts). The contract
/// claims that the text holds two lowercase hexadecimal digits per byte, high
/// nibble first, which is what the encoding's symbol table and bit order make
/// it.
#[verifier::external_body]
fn hex_lower_encode(bytes: &[u8; 32]) -> (r: String)
    ensures
        r@ == ascii_chars(hex_text(bytes@)),
{
    data_encoding::HEXLOWER.encode(bytes)
}

/// Calls `data_encoding::HEXLOWER.decode_mut` on 64 input bytes with a
/// 32-byte output. The contract claims what the decoder's value table and
/// error handling show: it succeeds exactly when every input byte is one of
/// `0`-`9`, `a`-`f` (upper case is refused), and then the output holds the
/// decoded bytes; otherwise it reports the lowest position of an invalid
/// byte.
#[verifier::external_body]
fn hex_lower_decode(text: &[u8]) -> (r: Result<[u8; 32], usize>)
    requires
        text@.len() == 64,
    ensures
        match r {
            Ok(bytes) => all_hex_symbols(text@) && bytes@ == hex_decoded(text@),
            Err(pos) => first_non_hex(text@, pos as int),
        },
{
    let mut out = [0u8; 32];
    match data_encoding::HEXLOWER.decode_mut(text, &mut out) {
        Ok(_) => Ok(out),
        Err(partial) => Err(partial.error.position),
    }
}

/// A SHA-256 hash.
#[derive(Clone, Copy, Debug)]
pub struct Hash {
    pub bytes: [u8; 32],
}

impl View for Hash {
    type V = Seq<u8>;

    open spec fn view(&self) -> Seq<u8> {
        self.bytes@
    }
}

/// Why a text is not the hexadecimal form of a hash.
#[derive(Clone, Copy, Debug, PartialEq, Eq, Structural)]
pub enum HashParseError {
    /// The text does not have 64 bytes; it has this many.
    InvalidLength(usize),
    /// The byte at this position is not a lowercase hexadecimal digit.
    InvalidSymbol(usize),
}

/// The bytes that the hash of a block commits to: the decimal index, the
/// previous block's hash, the decimal Unix timestamp in seconds and the JSON
/// form of the data, one after the other.
pub open spec fn block_hash_input(index: u64, previous: Seq<u8>, secs: i64, data: BlockData) -> Seq<u8> {
    decimal_text(index as nat) + previous + signed_decimal_text(secs as int) + data.json_view()
}

/// The hash of a block with these fields.
pub open spec fn block_hash(index: u64, previous: Seq<u8>, secs: i64, data: BlockData) -> Seq<u8> {
    sha256(block_hash_input(index, previous, secs, data))
}

impl Hash {
    /// The hash of a block with the given index, previous hash, timestamp and
    /// data.
    pub fn new(index: u64, previous_hash: &Hash, timestamp: &Timestamp, data: &BlockData) -> (r: Hash)
        ensures
            r@ == block_hash(index, previous_hash@, timestamp.secs, *data),
    {
        let mut input: Vec<u8> = Vec::new();
        push_decimal(&mut input, index);
        let mut i: usize = 0;
        while i < 32
            invariant
                0 <= i <= 32,
                input@ == decimal_text(index as nat) + previous_hash@.subrange(0, i as int),
            decreases 32 - i,
        {
            input.push(previous_hash.bytes[i]);
            i = i + 1;
            assert(input@ =~= decimal_text(index as nat) + previous_hash@.subrange(0, i as int));
        }
        push_signed_decimal(&mut input, timestamp.secs);
        let mut json = data.json_bytes();
        input.append(&mut json);
        assert(input@ =~= block_hash_input(index, previous_hash@, timestamp.secs, *data));
        Hash { bytes: sha256_digest(input.as_slice()) }
    }

    /// The bytes of the hash.
    pub fn as_bytes(&self) -> (r: &[u8; 32])
        ensures
            r@ == self@,
    {
        &self.bytes
    }

    /// The 64-character lowercase hexadecimal form of the hash.
    pub fn to_hex(&self) -> (r: String)
        ensures
            r@ == ascii_chars(hex_text(self@)),
    {
        hex_lower_encode(&self.bytes)
    }

    /// Reads a hash from its lowercase hexadecimal form, given as bytes.
    pub fn from_hex(text: &[u8]) -> (r: Result<Hash, HashParseError>)
        ensures
            match r {
                Ok(h) => text@.len() == 64 && all_hex_symbols(text@) && h@ == hex_decoded(text@),
                Err(HashParseError::InvalidLength(n)) => text@.len() != 64 && n == text@.len(),
                Err(HashParseError::InvalidSymbol(pos)) => text@.len() == 64 && first_non_hex(
                    text@,
                    pos as int,
                ),
            },
    {
        let len = text.len();
        if len != 64 {
            return Err(HashParseError::InvalidLength(len));
        }
        match hex_lower_decode(text) {
            Ok(bytes) => Ok(Hash { bytes }),
            Err(pos) => Err(HashParseError::InvalidSymbol(pos)),
        }
    }

    /// Whether two hashes hold the same bytes.
    fn same_bytes(&self, other: &Hash) -> (r: bool)
        ensures
            r == (self@ == other@),
    {
        let mut i: usize = 0;
        while i < 32
            invariant
                0 <= i <= 32,
                forall|j: int| 0 <= j < i ==> self@[j] == other@[j],
            decreases 32 - i,
        {
            if self.bytes[i] != other.bytes[i] {
                return false;
            }
            i = i + 1;
        }
        assert(self@ =~= other@);
        true
    }
}

/// Reading back the hexadecimal form of a hash gives the hash: the form has
/// 64 symbols, all of them lowercase hexadecimal digits, and they decode to
/// the hash's bytes.
pub proof fn law_hex_round_trip(h: Hash)
    ensures
        hex_text(h@).len() == 64,
        all_hex_symbols(hex_text(h@)),
        hex_decoded(hex_text(h@)) == h@,
{
    lemma_hex_round_trip(h@);
}

/// Writing out a hash that was read from a text gives the text back: the 64
/// lowercase hexadecimal digits that `from_hex` accepts are exactly the
/// hexadecimal form of the hash it returns.
pub proof fn law_hex_read_then_written(text: Seq<u8>, h: Hash)
    requires
        text.len() == 64,
        all_hex_symbols(text),
        h@ == hex_decoded(text),
    ensures
        hex_text(h@) == text,
{
    lemma_hex_decode_encode(text);
}

impl PartialEq for Hash {
    fn eq(&self, other: &Hash) -> (r: bool) {
        self.same_bytes(other)
    }
}

impl PartialEqSpecImpl for Hash {
    open spec fn obeys_eq_spec() -> bool {
        true
    }

    open spec fn eq_spec(&self, other: &Hash) -> bool {
        self@ == other@
    }
}

impl Eq for Hash {}

impl Default for Hash {
    /// The hash whose bytes are all zero.
    fn default() -> (r: Hash)
        ensures
            r@ == Seq::new(32, |i: int| 0u8),
    {
        let h = Hash { bytes: [0u8; 32] };
        assert(h@ =~= Seq::new(32, |i: int| 0u8));
        h
    }
}

} // verus!
