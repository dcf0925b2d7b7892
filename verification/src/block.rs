//! Blocks: an index, a timestamp, some data, the hash of the previous block
//! and the block's own hash.

use vstd::prelude::*;
use vstd::utf8::encode_utf8;
use crate::encoding::hex_digit;
use crate::hash::block_hash;

verus! {

/// How `serde_json` writes one byte of a string's UTF-8 form: `"` and `\`
/// behind a backslash; backspace, tab, line feed, form feed and carriage
/// return as `\b`, `\t`, `\n`, `\f`, `\r`; other bytes below 0x20 as
/// `\u00` and two lowercase hexadecimal digits; every other byte as itself.
pub open spec fn json_escape_byte(b: u8) -> Seq<u8> {
    if b == 34 {
        seq![92u8, 34u8]
    } else if b == 92 {
        seq![92u8, 92u8]
    } else if b == 8 {
        seq![92u8, 98u8]
    } else if b == 9 {
        seq![92u8, 116u8]
    } else if b == 10 {
        seq![92u8, 110u8]
    } else if b == 12 {
        seq![92u8, 102u8]
    } else if b == 13 {
        seq![92u8, 114u8]
    } else if b < 32 {
        seq![92u8, 117u8, 48u8, 48u8, hex_digit(b / 16), hex_digit(b % 16)]
    } else {
        seq![b]
    }
}

/// The escaped form of each byte of `bytes`, one after the other.
pub open spec fn json_escaped(bytes: Seq<u8>) -> Seq<u8>
    decreases bytes.len(),
{
    if bytes.len() == 0 {
        Seq::empty()
    } else {
        json_escape_byte(bytes[0]) + json_escaped(bytes.drop_first())
    }
}

/// What `serde_json` writes for a JSON string holding `text`: a quote, the
/// escaped UTF-8 bytes of the text, a quote.
pub open spec fn json_string(text: Seq<char>) -> Seq<u8> {
    seq![34u8] + json_escaped(encode_utf8(text)) + seq![34u8]
}

/// Calls `serde_json::to_vec` on a string slice. The contract claims what the
/// serializer's escape table and formatter write: a quote, each UTF-8 byte of
/// the text escaped as `json_escape_byte` says, a quote. Serialising a string into a `Vec` cannot
/// fail (the source writes into memory and has no other error path), so the
/// `expect` never fires.
#[verifier::external_body]
fn json_string_bytes(text: &str) -> (r: Vec<u8>)
    ensures
        r@ == json_string(text@),
{
    serde_json::to_vec(text).expect("a string always serialises to JSON")
}

/// The system clock's type, `std::time::SystemTime`, carried through
/// unopened.
#[verifier::external_type_specification]
#[verifier::external_body]
pub struct ExSystemTime(std::time::SystemTime);

/// Calls `std::time::SystemTime::now`. Nothing is claimed of the result: it
/// is the clock's reading.
#[verifier::external_body]
fn system_now() -> (r: std::time::SystemTime) {
    std::time::SystemTime::now()
}

/// Calls `SystemTime::duration_since(UNIX_EPOCH)` and gives its outcome as
/// plain values: whether the time is at or after the Unix epoch, and the
/// whole seconds and the nanoseconds of the distance between the two (taken
/// from the error's duration when the time is earlier). The contract claims
/// only what `Duration::subsec_nanos` documents: the nanoseconds are below
/// one billion.
#[verifier::external_body]
fn offset_from_epoch(time: std::time::SystemTime) -> (r: (bool, u64, u32))
    ensures
        r.2 < 1_000_000_000,
{
    match time.duration_since(std::time::UNIX_EPOCH) {
        Ok(after) => (true, after.as_secs(), after.subsec_nanos()),
        Err(before) => (false, before.duration().as_secs(), before.duration().subsec_nanos()),
    }
}

/// `s` held within the range of `i64`.
pub open spec fn clamp_to_i64(s: int) -> int {
    if s > i64::MAX {
        i64::MAX as int
    } else if s < i64::MIN {
        i64::MIN as int
    } else {
        s
    }
}

/// An instant: whole seconds since the Unix epoch and nanoseconds past them.
#[derive(Clone, Copy, Debug, PartialEq, Eq, Structural)]
pub struct Timestamp {
    pub secs: i64,
    pub nanos: u32,
}

/// What a block carries.
#[derive(Debug)]
pub enum BlockData {
    Text(String),
}

impl Clone for BlockData {
    fn clone(&self) -> (r: BlockData)
        ensures
            r == *self,
    {
        match self {
            BlockData::Text(text) => BlockData::Text(text.clone()),
        }
    }
}

/// The instant that a timestamp stands for, in nanoseconds from the Unix
/// epoch.
pub open spec fn instant_nanos(t: Timestamp) -> int {
    t.secs * 1_000_000_000 + t.nanos
}

impl Timestamp {
    /// The instant at the given distance from the Unix epoch, after it when
    /// `after_epoch` holds and before it otherwise, as chrono turns a system
    /// time into a date: an instant `secs` seconds and `nanos` (non-zero)
    /// nanoseconds before the epoch has whole seconds `-secs - 1` and
    /// nanoseconds `1_000_000_000 - nanos`. Seconds that do not fit an `i64`
    /// (no clock reads such a time) are held at its bounds.
    pub fn from_epoch_offset(after_epoch: bool, secs: u64, nanos: u32) -> (r: Timestamp)
        requires
            nanos < 1_000_000_000,
        ensures
            after_epoch ==> r.secs == clamp_to_i64(secs as int) && r.nanos == nanos,
            !after_epoch && nanos == 0 ==> r.secs == clamp_to_i64(-(secs as int)) && r.nanos == 0,
            !after_epoch && nanos > 0 ==> r.secs == clamp_to_i64(-(secs as int) - 1) && r.nanos
                == 1_000_000_000 - nanos,
            // The timestamp stands for the same instant as the distance from
            // the epoch, and its nanoseconds stay below one second.
            secs <= i64::MAX && after_epoch ==> instant_nanos(r) == secs * 1_000_000_000 + nanos,
            secs <= i64::MAX && !after_epoch ==> instant_nanos(r) == -(secs * 1_000_000_000 + nanos),
            r.nanos < 1_000_000_000,
            after_epoch ==> r.secs >= 0,
            !after_epoch && (secs > 0 || nanos > 0) ==> r.secs < 0,
    {
        let whole: i128 = if after_epoch {
            secs as i128
        } else if nanos == 0 {
            -(secs as i128)
        } else {
            -(secs as i128) - 1
        };
        let clamped: i64 = if whole > i64::MAX as i128 {
            i64::MAX
        } else if whole < i64::MIN as i128 {
            i64::MIN
        } else {
            whole as i64
        };
        let fraction: u32 = if after_epoch || nanos == 0 {
            nanos
        } else {
            1_000_000_000 - nanos
        };
        Timestamp { secs: clamped, nanos: fraction }
    }
}

impl BlockData {
    /// The JSON form of the data: that of its text, as a JSON string.
    pub open spec fn json_view(self) -> Seq<u8> {
        match self {
            BlockData::Text(text) => json_string(text@),
        }
    }

    /// The JSON form of the data, as bytes.
    pub fn json_bytes(&self) -> (r: Vec<u8>)
        ensures
            r@ == self.json_view(),
    {
        match self {
            BlockData::Text(text) => json_string_bytes(text.as_str()),
        }
    }
}

/// A block of the chain.
#[derive(Debug)]
pub struct Block {
    pub index: u64,
    pub timestamp: Timestamp,
    pub data: BlockData,
    pub previous_hash: crate::hash::Hash,
    pub hash: crate::hash::Hash,
}

impl Clone for Block {
    fn clone(&self) -> (r: Block)
        ensures
            r == *self,
    {
        Block {
            index: self.index,
            timestamp: self.timestamp,
            data: self.data.clone(),
            previous_hash: self.previous_hash,
            hash: self.hash,
        }
    }
}

impl Block {
    /// Whether the block's hash is the hash of its other fields.
    pub open spec fn hash_is_sound(self) -> bool {
        self.hash@ == block_hash(self.index, self.previous_hash@, self.timestamp.secs, self.data)
    }

    /// Whether the block follows `previous` in a chain: its index is one
    /// more, it names `previous`'s hash, and its own hash is sound.
    pub open spec fn follows(self, previous: Block) -> bool {
        &&& self.index == previous.index + 1
        &&& self.previous_hash@ == previous.hash@
        &&& self.hash_is_sound()
    }

    /// Whether the block has these fields and a sound hash.
    pub open spec fn is_made_of(
        self,
        index: u64,
        data: BlockData,
        previous_hash: crate::hash::Hash,
        timestamp: Timestamp,
    ) -> bool {
        &&& self.index == index
        &&& self.data == data
        &&& self.previous_hash == previous_hash
        &&& self.timestamp == timestamp
        &&& self.hash_is_sound()
    }

    /// A block with the given fields, stamped with `timestamp`.
    pub fn with_timestamp(index: u64, data: BlockData, previous_hash: &crate::hash::Hash, timestamp: Timestamp) -> (r: Block)
        ensures
            r.is_made_of(index, data, *previous_hash, timestamp),
    {
        let previous_hash: crate::hash::Hash = *previous_hash;
        let hash = crate::hash::Hash::new(index, &previous_hash, &timestamp, &data);
        Block { index, timestamp, data, previous_hash, hash }
    }

    /// A block with the given fields, stamped with the current time.
    pub fn new(index: u64, data: BlockData, previous_hash: &crate::hash::Hash) -> (r: Block)
        ensures
            r.is_made_of(index, data, *previous_hash, r.timestamp),
            r.timestamp.nanos < 1_000_000_000,
    {
        let (after_epoch, secs, nanos) = offset_from_epoch(system_now());
        let timestamp = Timestamp::from_epoch_offset(after_epoch, secs, nanos);
        Block::with_timestamp(index, data, previous_hash, timestamp)
    }

    /// The block that follows `previous` with the given data, stamped with the
    /// current time.
    pub fn from_previous(previous: &Block, data: BlockData) -> (r: Block)
        requires
            previous.index < u64::MAX,
        ensures
            r.is_made_of((previous.index + 1) as u64, data, previous.hash, r.timestamp),
            r.timestamp.nanos < 1_000_000_000,
    {
        Block::new(previous.index + 1, data, &previous.hash)
    }

    /// Whether this block follows `previous`.
    pub fn validate_previous(&self, previous: &Block) -> (r: bool)
        requires
            previous.index < u64::MAX,
        ensures
            r == self.follows(*previous),
    {
        self.index == previous.index + 1 && self.previous_hash == previous.hash
            && self.hash == crate::hash::Hash::from_block(self)
    }
}

impl crate::hash::Hash {
    /// The hash of the block's fields other than its hash.
    pub fn from_block(block: &Block) -> (r: crate::hash::Hash)
        ensures
            r@ == block_hash(block.index, block.previous_hash@, block.timestamp.secs, block.data),
    {
        crate::hash::Hash::new(block.index, &block.previous_hash, &block.timestamp, &block.data)
    }
}

} // verus!
