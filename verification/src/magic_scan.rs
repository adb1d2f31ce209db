//! The search for snapshots in a binary without symbols: occurrences of the
//! snapshot magic, the payload that follows one, and its cut into four.

use crate::bytes::{copy_range, read_u32_le, u32_le};
use crate::ios_snapshot_parser::{
    as_position, outcome, read_window_at, DartSnapshots, DartSnapshotsView, ExtractError,
};
use crate::macho::SegmentCommand64;
use crate::stream::{window, ReadSeek};
use vstd::prelude::*;
use vstd::slice::slice_subrange;

verus! {

/// Length of the run of zero bytes that ends a snapshot payload.
pub const ZERO_RUN: usize = 1024;

/// The most bytes taken as a payload that no zero run ends.
pub const MAX_SECTION: usize = 0x20_0000;

/// The distance from a payload's start within which a zero run is looked for.
pub const ZERO_RUN_SEARCH: usize = 0x80_0000;

/// Length of the header that the snapshot magic starts.
pub const SNAPSHOT_HEADER: usize = 16;

/// Whether the `ZERO_RUN` bytes of `buf` at `at` exist and are all zero.
pub open spec fn is_zero_window(buf: Seq<u8>, at: int) -> bool {
    &&& 0 <= at
    &&& at + ZERO_RUN <= buf.len()
    &&& forall|j: int| at <= j < at + ZERO_RUN ==> buf[j] == 0
}

/// The first zero window among those that start at `from`, `from +
/// ZERO_RUN`, `from + 2 * ZERO_RUN`, ... below `limit`.
pub open spec fn first_zero_window(buf: Seq<u8>, from: int, limit: int) -> Option<int>
    decreases (if from < limit {
        limit - from
    } else {
        0
    }),
{
    if from >= limit {
        None
    } else if is_zero_window(buf, from) {
        Some(from)
    } else {
        first_zero_window(buf, from + ZERO_RUN, limit)
    }
}

/// No zero window starts where fewer than `ZERO_RUN` bytes are left.
pub proof fn lemma_no_window_near_end(buf: Seq<u8>, from: int, limit: int)
    requires
        from + ZERO_RUN > buf.len(),
    ensures
        first_zero_window(buf, from, limit) is None,
    decreases (if from < limit {
        limit - from
    } else {
        0
    }),
{
    if from < limit {
        lemma_no_window_near_end(buf, from + ZERO_RUN, limit);
    }
}

/// A zero window that the search finds starts in `[from, limit)` and lies
/// inside `buf`.
pub proof fn lemma_first_zero_window_bounds(buf: Seq<u8>, from: int, limit: int)
    requires
        0 <= from,
    ensures
        first_zero_window(buf, from, limit) matches Some(at) ==> from <= at < limit
            && is_zero_window(buf, at),
    decreases (if from < limit {
        limit - from
    } else {
        0
    }),
{
    if from < limit && !is_zero_window(buf, from) {
        lemma_first_zero_window_bounds(buf, from + ZERO_RUN, limit);
    }
}

/// Whether the `ZERO_RUN` bytes of `buf` at `at` exist and are all zero.
pub fn zero_window_at(buf: &[u8], at: usize) -> (r: bool)
    ensures
        r == is_zero_window(buf@, at as int),
{
    let total: usize = buf.len();
    if at > total || total - at < ZERO_RUN {
        return false;
    }
    let mut j: usize = at;
    while j < at + ZERO_RUN
        invariant
            at <= j <= at + ZERO_RUN,
            at + ZERO_RUN <= total,
            total == buf@.len(),
            forall|k: int| at <= k < j ==> buf@[k] == 0,
        decreases at + ZERO_RUN - j,
    {
        if buf[j] != 0 {
            return false;
        }
        j = j + 1;
    }
    true
}

/// The first zero window among those that start at `from`, `from +
/// ZERO_RUN`, ... below `limit`.
pub fn find_zero_window(buf: &[u8], from: usize, limit: usize) -> (r: Option<usize>)
    ensures
        match r {
            Some(at) => first_zero_window(buf@, from as int, limit as int) == Some(at as int),
            None => first_zero_window(buf@, from as int, limit as int) is None,
        },
{
    let total: usize = buf.len();
    let mut at: usize = from;
    while at < limit
        invariant
            total == buf@.len(),
            first_zero_window(buf@, from as int, limit as int) == first_zero_window(
                buf@,
                at as int,
                limit as int,
            ),
        decreases (if at < limit {
            limit - at
        } else {
            0
        }),
    {
        if at > total || total - at < ZERO_RUN {
            proof {
                lemma_no_window_near_end(buf@, at as int, limit as int);
            }
            return None;
        }
        if zero_window_at(buf, at) {
            return Some(at);
        }
        at = at + ZERO_RUN;
    }
    None
}

/// Where the payload that starts at `data_start` in `buf` ends: at the first
/// zero window within `ZERO_RUN_SEARCH` bytes of its start, and `MAX_SECTION`
/// bytes after its start, or at the end of `buf`, where there is none.
pub open spec fn section_end(buf: Seq<u8>, data_start: int) -> int {
    let search_end = if data_start + ZERO_RUN_SEARCH <= buf.len() {
        data_start + ZERO_RUN_SEARCH
    } else {
        buf.len() as int
    };
    match first_zero_window(buf, data_start, search_end) {
        Some(at) => at,
        None => if data_start + MAX_SECTION <= buf.len() {
            data_start + MAX_SECTION
        } else {
            buf.len() as int
        },
    }
}

/// A payload ends between its start and the end of `buf`.
pub proof fn lemma_section_end_bounds(buf: Seq<u8>, data_start: int)
    requires
        0 <= data_start <= buf.len(),
    ensures
        data_start <= section_end(buf, data_start) <= buf.len(),
{
    let search_end = if data_start + ZERO_RUN_SEARCH <= buf.len() {
        data_start + ZERO_RUN_SEARCH
    } else {
        buf.len() as int
    };
    lemma_first_zero_window_bounds(buf, data_start, search_end);
}

/// The payload cut into four parts: three of a quarter of its length, rounded
/// down, and a fourth that takes the rest.
pub open spec fn split_quarters(payload: Seq<u8>) -> DartSnapshotsView {
    let quarter = payload.len() as int / 4;
    DartSnapshotsView {
        vm_data: payload.subrange(0, quarter),
        vm_instructions: payload.subrange(quarter, 2 * quarter),
        isolate_data: payload.subrange(2 * quarter, 3 * quarter),
        isolate_instructions: payload.subrange(3 * quarter, payload.len() as int),
    }
}

/// What the snapshot header at `magic_offset` in `buf` yields: the payload
/// that follows its sixteen bytes, cut into quarters, provided that the
/// header fits in `buf` and no quarter is empty.
pub open spec fn snapshots_at_magic_offset(buf: Seq<u8>, magic_offset: int) -> Result<
    DartSnapshotsView,
    ExtractError,
> {
    let data_start = magic_offset + SNAPSHOT_HEADER;
    if data_start > buf.len() {
        Err(ExtractError::TruncatedSnapshotHeader)
    } else if section_end(buf, data_start) - data_start < 4 {
        Err(ExtractError::EmptySnapshot)
    } else {
        Ok(split_quarters(buf.subrange(data_start, section_end(buf, data_start))))
    }
}

/// Where the payload that starts at `data_start` in `buf` ends.
pub fn find_section_end(buf: &[u8], data_start: usize) -> (end: usize)
    ensures
        end == section_end(buf@, data_start as int),
        end <= buf.len(),
        data_start <= buf.len() ==> data_start <= end,
{
    let total: usize = buf.len();
    if data_start > total {
        return total;
    }
    let search_end: usize = if total - data_start >= ZERO_RUN_SEARCH {
        data_start + ZERO_RUN_SEARCH
    } else {
        total
    };
    proof {
        lemma_first_zero_window_bounds(buf@, data_start as int, search_end as int);
    }
    match find_zero_window(buf, data_start, search_end) {
        Some(at) => at,
        None => if total - data_start >= MAX_SECTION {
            data_start + MAX_SECTION
        } else {
            total
        },
    }
}

/// Cuts the snapshots out of `buffer` at the snapshot header that starts at
/// `magic_offset`.
pub fn extract_snapshots_at_magic_offset(buffer: &[u8], magic_offset: usize) -> (res: Result<
    DartSnapshots,
    ExtractError,
>)
    ensures
        outcome(res) == snapshots_at_magic_offset(buffer@, magic_offset as int),
        res matches Ok(snapshots) ==> snapshots@.complete(),
{
    let total: usize = buffer.len();
    if magic_offset > total || total - magic_offset < SNAPSHOT_HEADER {
        return Err(ExtractError::TruncatedSnapshotHeader);
    }
    let data_start: usize = magic_offset + SNAPSHOT_HEADER;
    let end: usize = find_section_end(buffer, data_start);
    if end - data_start < 4 {
        return Err(ExtractError::EmptySnapshot);
    }
    let payload = slice_subrange(buffer, data_start, end);
    let quarter: usize = payload.len() / 4;
    Ok(
        DartSnapshots {
            vm_data: copy_range(payload, 0, quarter),
            vm_instructions: copy_range(payload, quarter, 2 * quarter),
            isolate_data: copy_range(payload, 2 * quarter, 3 * quarter),
            isolate_instructions: copy_range(payload, 3 * quarter, payload.len()),
        },
    )
}


/// The three fields that follow the snapshot magic.
#[derive(Clone, Copy, Debug, PartialEq, Eq, Structural)]
pub struct SnapshotHeader {
    pub version: u32,
    pub features: u32,
    pub flags: u32,
}

/// The header that the snapshot magic at `magic_offset` starts: the twelve
/// bytes after the magic as three fields, least significant byte first.
pub open spec fn snapshot_header(buf: Seq<u8>, magic_offset: int) -> Option<SnapshotHeader> {
    if 0 <= magic_offset && magic_offset + SNAPSHOT_HEADER <= buf.len() {
        Some(
            SnapshotHeader {
                version: u32_le(buf, magic_offset + 4),
                features: u32_le(buf, magic_offset + 8),
                flags: u32_le(buf, magic_offset + 12),
            },
        )
    } else {
        None
    }
}

/// Reads the header that the snapshot magic at `magic_offset` starts; `None`
/// where `buffer` ends before the header does.
pub fn read_snapshot_header(buffer: &[u8], magic_offset: usize) -> (header: Option<SnapshotHeader>)
    ensures
        header == snapshot_header(buffer@, magic_offset as int),
{
    let total: usize = buffer.len();
    if magic_offset > total || total - magic_offset < SNAPSHOT_HEADER {
        return None;
    }
    Some(
        SnapshotHeader {
            version: read_u32_le(buffer, magic_offset + 4),
            features: read_u32_le(buffer, magic_offset + 8),
            flags: read_u32_le(buffer, magic_offset + 12),
        },
    )
}

/// Whether the snapshot magic `F5 F5 DC DC` stands at `at` in `buf`.
pub open spec fn has_magic(buf: Seq<u8>, at: int) -> bool {
    &&& 0 <= at
    &&& at + 4 <= buf.len()
    &&& buf[at] == 0xf5
    &&& buf[at + 1] == 0xf5
    &&& buf[at + 2] == 0xdc
    &&& buf[at + 3] == 0xdc
}

/// Whether the occurrence of the snapshot magic at `at` yields snapshots.
pub open spec fn viable(buf: Seq<u8>, at: int) -> bool {
    has_magic(buf, at) && snapshots_at_magic_offset(buf, at) is Ok
}

/// What the first viable occurrence of the snapshot magic at or after
/// `from` yields.
pub open spec fn scan_magic(buf: Seq<u8>, from: int) -> Result<DartSnapshotsView, ExtractError>
    decreases buf.len() - from,
{
    if from + SNAPSHOT_HEADER > buf.len() {
        Err(ExtractError::MagicScanFailed)
    } else if viable(buf, from) {
        snapshots_at_magic_offset(buf, from)
    } else {
        scan_magic(buf, from + 1)
    }
}

/// Whether the snapshot magic stands at `at` in `buf`.
pub fn magic_at(buf: &[u8], at: usize) -> (r: bool)
    ensures
        r == has_magic(buf@, at as int),
{
    let total: usize = buf.len();
    if at > total || total - at < 4 {
        return false;
    }
    buf[at] == 0xf5 && buf[at + 1] == 0xf5 && buf[at + 2] == 0xdc && buf[at + 3] == 0xdc
}

/// Tries the occurrences of the snapshot magic in `buffer` in the order in
/// which they stand, and cuts the snapshots out at the first that yields
/// four that are not empty.
pub fn scan_for_snapshots(buffer: &[u8]) -> (res: Result<DartSnapshots, ExtractError>)
    ensures
        outcome(res) == scan_magic(buffer@, 0),
        res matches Ok(snapshots) ==> snapshots@.complete(),
{
    let total: usize = buffer.len();
    let mut at: usize = 0;
    while total - at >= SNAPSHOT_HEADER
        invariant
            at <= total,
            total == buffer@.len(),
            scan_magic(buffer@, 0) == scan_magic(buffer@, at as int),
        decreases total - at,
    {
        if magic_at(buffer, at) {
            match extract_snapshots_at_magic_offset(buffer, at) {
                Ok(snapshots) => {
                    return Ok(snapshots);
                },
                Err(_) => {},
            }
        }
        at = at + 1;
    }
    Err(ExtractError::MagicScanFailed)
}

/// `data` up to its first zero window among those that start at `ZERO_RUN`,
/// `2 * ZERO_RUN`, ...; all of `data` where there is none.
pub open spec fn cut_at_zero_run(data: Seq<u8>) -> Seq<u8> {
    match first_zero_window(data, ZERO_RUN as int, data.len() as int) {
        Some(at) => data.subrange(0, at),
        None => data,
    }
}

/// Cuts `data` at its first zero window among those that start at
/// `ZERO_RUN`, `2 * ZERO_RUN`, ...
pub fn trim_at_zero_run(data: Vec<u8>) -> (trimmed: Vec<u8>)
    ensures
        trimmed@ == cut_at_zero_run(data@),
        data@.len() > 0 ==> trimmed@.len() > 0,
{
    let mut data = data;
    let total: usize = data.len();
    proof {
        lemma_first_zero_window_bounds(data@, ZERO_RUN as int, total as int);
    }
    match find_zero_window(data.as_slice(), ZERO_RUN, total) {
        Some(at) => {
            data.truncate(at);
        },
        None => {},
    }
    data
}

/// The most bytes of `__TEXT` that are searched for the snapshot magic.
pub const TEXT_SCAN_LIMIT: u64 = 0x400_0000;

/// What the search for the snapshot magic yields, for an image that starts
/// at `file_start` and whose `__TEXT` segment is `text`: what the first
/// viable occurrence yields within the first `TEXT_SCAN_LIMIT` bytes of the
/// segment, as far as the file holds them.
pub open spec fn magic_extraction(file: Seq<u8>, file_start: int, text: SegmentCommand64) -> Result<
    DartSnapshotsView,
    ExtractError,
> {
    let at = file_start + text.fileoff;
    let size = if text.filesize < TEXT_SCAN_LIMIT {
        text.filesize
    } else {
        TEXT_SCAN_LIMIT
    };
    if as_position(at) is None {
        Err(ExtractError::OffsetOutOfRange)
    } else {
        scan_magic(window(file, at, size as int), 0)
    }
}

/// Extracts the snapshots by searching the `__TEXT` segment of an image that
/// starts at `start_pos` for the snapshot magic.
pub fn extract_via_magic<R: ReadSeek>(
    reader: &mut R,
    start_pos: u64,
    text: &SegmentCommand64,
) -> (res: Result<DartSnapshots, ExtractError>)
    ensures
        res matches Ok(snapshots) ==> snapshots@.complete(),
        old(reader).faithful() ==> {
            &&& final(reader).faithful()
            &&& final(reader).contents() == old(reader).contents()
            &&& outcome(res) == magic_extraction(old(reader).contents(), start_pos as int, *text)
        },
{
    if text.fileoff > u64::MAX - start_pos {
        return Err(ExtractError::OffsetOutOfRange);
    }
    let at: u64 = start_pos + text.fileoff;
    let scan_size: u64 = if text.filesize < TEXT_SCAN_LIMIT {
        text.filesize
    } else {
        TEXT_SCAN_LIMIT
    };
    let buffer = read_window_at(reader, at, scan_size)?;
    scan_for_snapshots(buffer.as_slice())
}


} // verus!
