//! Chunk codec: the windows a file is cut into, and the progress of a transfer.

use vstd::arithmetic::div_mod::{lemma_div_by_multiple, lemma_div_is_ordered};
use vstd::prelude::*;

verus! {

/// Number of bytes in every window but possibly the last: 1 MiB.
pub const CHUNK_SIZE: u64 = 1_048_576;

/// A contiguous byte range of a file, sent as the payload of one message.
#[derive(Clone, Copy, Debug, PartialEq, Eq, Structural)]
pub struct ChunkWindow {
    pub offset: u64,
    pub length: u64,
}

impl ChunkWindow {
    /// The position just past the last byte of the window.
    pub open spec fn end(self) -> int {
        self.offset + self.length
    }

    /// Whether the byte at `position` lies in the window.
    pub open spec fn covers(self, position: int) -> bool {
        self.offset <= position < self.end()
    }
}

/// How many windows a file of `total_size` bytes is cut into: the quotient
/// by `CHUNK_SIZE`, rounded up.
pub open spec fn window_count(total_size: int) -> int {
    if total_size % (CHUNK_SIZE as int) == 0 {
        total_size / (CHUNK_SIZE as int)
    } else {
        total_size / (CHUNK_SIZE as int) + 1
    }
}

/// The window with the given index of a file of `total_size` bytes. It starts
/// at `index * CHUNK_SIZE` and is full unless the file ends before.
pub open spec fn window_at(total_size: u64, index: int) -> ChunkWindow {
    let offset = index * CHUNK_SIZE;
    let rest = total_size - offset;
    ChunkWindow {
        offset: offset as u64,
        length: (if rest < CHUNK_SIZE { rest } else { CHUNK_SIZE as int }) as u64,
    }
}

/// All windows of a file of `total_size` bytes, in the order of the file.
pub open spec fn windows(total_size: u64) -> Seq<ChunkWindow> {
    Seq::new(window_count(total_size as int) as nat, |index: int| window_at(total_size, index))
}

/// Percentage of `total` that `done` bytes make up, rounded down and kept
/// within `u64`. Of an empty file no finite share exists: nothing done counts
/// as 0, anything done as the largest value.
pub open spec fn progress_of(done: int, total: int) -> int {
    if total == 0 {
        if done == 0 { 0 } else { u64::MAX as int }
    } else if done * 100 / total > u64::MAX {
        u64::MAX as int
    } else {
        done * 100 / total
    }
}

/// The number of windows of a file of `total_size` bytes.
pub fn chunk_count(total_size: u64) -> (count: u64)
    ensures
        count == window_count(total_size as int),
{
    let full: u64 = total_size / CHUNK_SIZE;
    if total_size % CHUNK_SIZE == 0 {
        full
    } else {
        full + 1
    }
}

/// The window with the given index, or `None` past the last window.
pub fn chunk_window(total_size: u64, index: u64) -> (window: Option<ChunkWindow>)
    ensures
        index < window_count(total_size as int) ==> window == Some(window_at(total_size, index as int)),
        index >= window_count(total_size as int) ==> window.is_none(),
{
    if index >= chunk_count(total_size) {
        return None;
    }
    let offset: u64 = index * CHUNK_SIZE;
    let rest: u64 = total_size - offset;
    let length: u64 = if rest < CHUNK_SIZE { rest } else { CHUNK_SIZE };
    Some(ChunkWindow { offset, length })
}

/// The windows of a file of `total_size` bytes, in the order of the file.
pub fn chunk_windows(total_size: u64) -> (list: Vec<ChunkWindow>)
    ensures
        list@ == windows(total_size),
{
    let count: u64 = chunk_count(total_size);
    let mut list: Vec<ChunkWindow> = Vec::new();
    let mut index: u64 = 0;
    while index < count
        invariant
            count == window_count(total_size as int),
            index <= count,
            list@.len() == index,
            forall|i: int| 0 <= i < index ==> list@[i] == window_at(total_size, i),
        decreases count - index,
    {
        let offset: u64 = index * CHUNK_SIZE;
        let rest: u64 = total_size - offset;
        let length: u64 = if rest < CHUNK_SIZE { rest } else { CHUNK_SIZE };
        list.push(ChunkWindow { offset, length });
        index = index + 1;
    }
    assert(list@ =~= windows(total_size));
    list
}

/// Progress after the window `(offset, length)` of a file of `total_size`
/// bytes has been consumed.
pub fn progress(offset: u64, length: u64, total_size: u64) -> (percent: u64)
    ensures
        percent == progress_of(offset + length, total_size as int),
{
    let done: u128 = offset as u128 + length as u128;
    if total_size == 0 {
        return if done == 0 { 0 } else { u64::MAX };
    }
    let share: u128 = done * 100 / (total_size as u128);
    if share > u64::MAX as u128 {
        u64::MAX
    } else {
        share as u64
    }
}

/// Whether a progress value means that the transfer is complete. Values above
/// 100 count too.
pub fn is_complete(percent: u64) -> (complete: bool)
    ensures
        complete == (percent >= 100),
{
    percent >= 100
}

/// The values of `progress_of` after each window of a file of `total_size`
/// bytes, in the order of the file.
pub open spec fn progress_sequence(total_size: u64) -> Seq<int> {
    Seq::new(
        window_count(total_size as int) as nat,
        |index: int| progress_of(window_at(total_size, index).end(), total_size as int),
    )
}

/// The bytes of `data` that the window holds.
pub open spec fn payload(data: Seq<u8>, window: ChunkWindow) -> Seq<u8> {
    data.subrange(window.offset as int, window.end())
}

/// The payloads of the first `count` windows of `data`, one after the other.
pub open spec fn reassembled(data: Seq<u8>, count: nat) -> Seq<u8>
    decreases count,
{
    if count == 0 {
        Seq::empty()
    } else {
        reassembled(data, (count - 1) as nat) + payload(
            data,
            window_at(data.len() as u64, count - 1),
        )
    }
}

/// The windows of a file cut it into consecutive, non-empty pieces: the first
/// starts at 0, each next one starts where the one before ends, the last ends
/// at the end of the file, and every byte lies in exactly one window. An empty
/// file has no window.
pub proof fn lemma_windows_partition(total_size: u64)
    ensures
        windows(total_size).len() == window_count(total_size as int),
        total_size == 0 ==> windows(total_size).len() == 0,
        forall|i: int|
            0 <= i < windows(total_size).len() ==> 0 < (#[trigger] windows(total_size)[i]).length
                <= CHUNK_SIZE,
        windows(total_size).len() > 0 ==> windows(total_size)[0].offset == 0,
        forall|i: int|
            0 <= i < windows(total_size).len() - 1 ==> (#[trigger] windows(total_size)[i]).end()
                == windows(total_size)[i + 1].offset,
        windows(total_size).len() > 0 ==> windows(total_size).last().end() == total_size,
        windows(total_size).len() > 0 ==> windows(total_size).last().length == total_size - (
        windows(total_size).len() - 1) * CHUNK_SIZE,
        forall|position: int, i: int|
            0 <= position < total_size && 0 <= i < windows(total_size).len() ==> (
            #[trigger] windows(total_size)[i].covers(position) <==> i == position / (
            CHUNK_SIZE as int)),
{
}

/// Along the windows of a non-empty file progress never decreases, stays
/// within 100 and is 100 after the last window.
pub proof fn lemma_progress_monotonic(total_size: u64)
    requires
        total_size > 0,
    ensures
        progress_sequence(total_size).len() == window_count(total_size as int) > 0,
        forall|i: int, j: int|
            0 <= i <= j < progress_sequence(total_size).len() ==> progress_sequence(total_size)[i]
                <= progress_sequence(total_size)[j],
        forall|i: int|
            0 <= i < progress_sequence(total_size).len() ==> 0 <= #[trigger] progress_sequence(
                total_size,
            )[i] <= 100,
        progress_sequence(total_size).last() == 100,
{
    let total = total_size as int;
    let count = window_count(total);
    assert(100 * total / total == 100) by {
        lemma_div_by_multiple(100, total);
    }
    assert forall|i: int| 0 <= i < count implies 0 <= #[trigger] progress_sequence(total_size)[i]
        <= 100 by {
        let done = window_at(total_size, i).end();
        assert(0 <= done <= total);
        lemma_div_is_ordered(done * 100, total * 100, total);
        lemma_div_is_ordered(0, done * 100, total);
    }
    assert forall|i: int, j: int| 0 <= i <= j < count implies progress_sequence(total_size)[i]
        <= progress_sequence(total_size)[j] by {
        let first = window_at(total_size, i).end();
        let second = window_at(total_size, j).end();
        assert(0 <= first <= second <= total);
        lemma_div_is_ordered(first * 100, second * 100, total);
        lemma_div_is_ordered(second * 100, total * 100, total);
    }
    assert(window_at(total_size, count - 1).end() == total);
}

/// The payloads of the first `count` windows make up the start of the file.
proof fn lemma_reassembled_prefix(data: Seq<u8>, count: nat)
    requires
        data.len() <= u64::MAX,
        count <= window_count(data.len() as int),
    ensures
        count < window_count(data.len() as int) ==> reassembled(data, count) == data.subrange(
            0,
            count * CHUNK_SIZE,
        ),
        count == window_count(data.len() as int) ==> reassembled(data, count) == data,
    decreases count,
{
    let total = data.len() as u64;
    if count == 0 {
        assert(data.subrange(0, 0) =~= Seq::<u8>::empty());
        if window_count(data.len() as int) == 0 {
            assert(data =~= Seq::<u8>::empty());
        }
    } else {
        lemma_reassembled_prefix(data, (count - 1) as nat);
        let window = window_at(total, count - 1);
        let before = data.subrange(0, (count - 1) * CHUNK_SIZE);
        assert(reassembled(data, (count - 1) as nat) == before);
        assert(window.offset == (count - 1) * CHUNK_SIZE);
        if count < window_count(data.len() as int) {
            assert(window.end() == count * CHUNK_SIZE);
            assert(before + payload(data, window) =~= data.subrange(0, count * CHUNK_SIZE));
        } else {
            assert(window.end() == data.len());
            assert(before + payload(data, window) =~= data);
        }
    }
}

/// Round trip: the payloads of all windows of a file, appended in the order
/// of the windows, are the file.
pub proof fn lemma_round_trip(data: Seq<u8>)
    requires
        data.len() <= u64::MAX,
    ensures
        reassembled(data, window_count(data.len() as int) as nat) == data,
{
    lemma_reassembled_prefix(data, window_count(data.len() as int) as nat);
}

} // verus!
