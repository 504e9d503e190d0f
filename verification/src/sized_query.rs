//! Queries that answer through a buffer of the caller.
//!
//! The system writes as many entries as fit into the buffer it was offered
//! and reports a byte count. Offered no room at all, it reports the bytes it
//! would need: the size-then-fill convention. The functions here turn byte
//! counts into entry counts and cut a buffer down to the entries that the
//! system stands for, so that nothing it did not write is taken for a result.

use vstd::prelude::*;

verus! {

/// What the system answered to one query that was offered a buffer.
#[derive(Debug)]
pub struct QueryReply<T> {
    /// Whether the call reported success.
    pub ok: bool,
    /// The buffer that was offered, as the call left it. Its length is the
    /// capacity that was offered.
    pub buffer: Vec<T>,
    /// The byte count that the call reported.
    pub bytes: u32,
    /// The system's error code, where the call failed.
    pub code: u32,
}

/// A [`QueryReply`] with its buffer as a sequence.
pub struct QueryReplyView<T> {
    pub ok: bool,
    pub buffer: Seq<T>,
    pub bytes: u32,
    pub code: u32,
}

impl<T> View for QueryReply<T> {
    type V = QueryReplyView<T>;

    open spec fn view(&self) -> QueryReplyView<T> {
        QueryReplyView { ok: self.ok, buffer: self.buffer@, bytes: self.bytes, code: self.code }
    }
}

/// The number of whole entries of `width` bytes in `bytes` bytes.
pub open spec fn whole_entries(bytes: nat, width: nat) -> nat
    recommends
        width > 0,
{
    bytes / width
}

/// The number of entries of `buffer` that a reported byte count stands for:
/// the whole entries in `bytes`, and no more than the buffer holds.
pub open spec fn reported_len(capacity: nat, bytes: nat, width: nat) -> nat
    recommends
        width > 0,
{
    if whole_entries(bytes, width) <= capacity {
        whole_entries(bytes, width)
    } else {
        capacity
    }
}

/// The entries of `buffer` that a reported byte count stands for, in the
/// order in which the system wrote them.
pub open spec fn reported<T>(buffer: Seq<T>, bytes: nat, width: nat) -> Seq<T>
    recommends
        width > 0,
{
    buffer.take(reported_len(buffer.len(), bytes, width) as int)
}

/// Computes how many whole entries of `width` bytes a byte count holds.
pub fn entry_count(bytes: u32, width: u32) -> (count: u32)
    requires
        width > 0,
    ensures
        count == whole_entries(bytes as nat, width as nat),
{
    bytes / width
}

/// Computes the byte size of a buffer of `entries` entries of `width` bytes,
/// or `None` where that size passes what a query can be told.
pub fn byte_size(entries: u32, width: u32) -> (size: Option<u32>)
    ensures
        size is Some <==> entries * width <= u32::MAX,
        size matches Some(b) ==> b == entries * width,
{
    entries.checked_mul(width)
}

/// Cuts the buffer of a query down to the entries that the reported byte
/// count stands for. The entries keep their order; where the system reports
/// more than the buffer holds, the whole buffer is the result.
pub fn take_reported<T>(buffer: Vec<T>, bytes: u32, width: u32) -> (entries: Vec<T>)
    requires
        width > 0,
    ensures
        entries@ == reported(buffer@, bytes as nat, width as nat),
{
    let count: usize = entry_count(bytes, width) as usize;
    let mut entries = buffer;
    if count < entries.len() {
        entries.truncate(count);
    }
    entries
}

/// A query never yields more entries than the buffer it was offered has room
/// for, nor more than the bytes it reports stand for, and what it yields is
/// the front of that buffer.
pub proof fn lemma_reported_within_capacity<T>(buffer: Seq<T>, bytes: nat, width: nat)
    requires
        width > 0,
    ensures
        reported(buffer, bytes, width).len() <= buffer.len(),
        reported(buffer, bytes, width).len() <= whole_entries(bytes, width),
        reported(buffer, bytes, width).is_prefix_of(buffer),
{
}

/// Size, then fill: where a first query reports `probed` bytes, the second is
/// offered a buffer of as many whole entries as those bytes hold, and the
/// second reports no fewer bytes than the first, the result has exactly that
/// many entries: the whole buffer.
pub proof fn lemma_fill_yields_probed_count<T>(
    probed: nat,
    buffer: Seq<T>,
    filled: nat,
    width: nat,
)
    requires
        width > 0,
        buffer.len() == whole_entries(probed, width),
        whole_entries(filled, width) >= whole_entries(probed, width),
    ensures
        reported(buffer, filled, width) == buffer,
        reported(buffer, filled, width).len() == whole_entries(probed, width),
{
}

} // verus!
