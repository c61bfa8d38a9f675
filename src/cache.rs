//! What the cache holds of an object: its bytes on disk and the
//! `content_length` attribute that records the object's full size.
use vstd::prelude::*;
use crate::decimal::{decimal_reading, parse_decimal};

verus! {

/// How many times the size attribute is looked up before giving up.
pub const SIZE_POLL_ATTEMPTS: u32 = 4000;

/// Pause between two lookups of the size attribute, in microseconds.
pub const SIZE_POLL_INTERVAL_MICROS: u64 = 500;

/// State of a cache file.
#[derive(Debug, Clone, Copy, PartialEq, Eq, Structural)]
pub enum CacheState {
    /// All bytes are on disk; the payload is the full size.
    Complete(u64),
    /// The full size is known but fewer bytes are on disk; the payload is the
    /// number of bytes on disk.
    Partial(u64),
    /// No file.
    Missing,
    /// A file without a readable size attribute; the payload is the number of
    /// bytes on disk.
    Sizeless(u64),
}

/// The size an attribute value records: an ASCII decimal number; anything
/// else counts as no size at all.
pub open spec fn attribute_size(attr: Option<Seq<u8>>) -> Option<u64> {
    match attr {
        Some(v) => decimal_reading(v),
        None => None,
    }
}

pub open spec fn cache_state(file_len: Option<u64>, attr: Option<Seq<u8>>) -> CacheState {
    match file_len {
        None => CacheState::Missing,
        Some(len) => match attribute_size(attr) {
            None => CacheState::Sizeless(len),
            Some(size) => if size == len {
                CacheState::Complete(size)
            } else {
                CacheState::Partial(len)
            },
        },
    }
}

pub open spec fn opt_bytes_view(attr: &Option<Vec<u8>>) -> Option<Seq<u8>> {
    match attr {
        Some(v) => Some(v@),
        None => None,
    }
}

/// Decodes the value of the `content_length` attribute.
pub fn content_length_from_attribute(attr: &Option<Vec<u8>>) -> (r: Option<u64>)
    ensures
        r == attribute_size(opt_bytes_view(attr)),
{
    match attr {
        Some(v) => parse_decimal(v.as_slice()),
        None => None,
    }
}

/// Classifies a cache file from its length on disk (`None`: no file) and the
/// raw value of its size attribute (`None`: no attribute).
pub fn classify(file_len: Option<u64>, attr: &Option<Vec<u8>>) -> (r: CacheState)
    ensures
        r == cache_state(file_len, opt_bytes_view(attr)),
{
    match file_len {
        None => CacheState::Missing,
        Some(len) => match content_length_from_attribute(attr) {
            None => CacheState::Sizeless(len),
            Some(size) => if size == len {
                CacheState::Complete(size)
            } else {
                CacheState::Partial(len)
            },
        },
    }
}

/// What to do after one lookup of the size attribute.
#[derive(Debug, Clone, Copy, PartialEq, Eq, Structural)]
pub enum SizePoll {
    Found(u64),
    /// Pause, then look again.
    Retry,
    GiveUp,
}

/// Decides what follows the lookup numbered `attempt` (from zero), which
/// gave `found`.
pub fn next_size_poll(attempt: u32, found: Option<u64>) -> (r: SizePoll)
    requires
        attempt < SIZE_POLL_ATTEMPTS,
    ensures
        found matches Some(v) ==> r == SizePoll::Found(v),
        found is None && attempt + 1 < SIZE_POLL_ATTEMPTS ==> r == SizePoll::Retry,
        found is None && attempt + 1 >= SIZE_POLL_ATTEMPTS ==> r == SizePoll::GiveUp,
{
    match found {
        Some(v) => SizePoll::Found(v),
        None => if attempt + 1 < SIZE_POLL_ATTEMPTS {
            SizePoll::Retry
        } else {
            SizePoll::GiveUp
        },
    }
}

} // verus!
