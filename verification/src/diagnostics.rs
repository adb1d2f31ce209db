//! What a binary shows where no snapshot could be cut out of it: places of
//! known byte patterns, the bytes at prominent offsets, and the strings
//! that mention snapshots.  The functions compute; printing is the
//! caller's.

use crate::bytes::{copy_range, read_u32_be, read_u32_le, u32_be, u32_le};
use vstd::prelude::*;
use vstd::string::StringSliceAdditionalSpecFns;

verus! {

/// Whether `pattern` stands at `at` in `buf` and at least one byte follows
/// it.
pub open spec fn occurs_at(buf: Seq<u8>, pattern: Seq<u8>, at: int) -> bool {
    &&& 0 <= at
    &&& at + pattern.len() < buf.len()
    &&& buf.subrange(at, at + pattern.len()) == pattern
}

/// The places below `upto` at which `pattern` occurs in `buf`, in rising
/// order.
pub open spec fn occurrences(buf: Seq<u8>, pattern: Seq<u8>, upto: int) -> Seq<usize>
    decreases upto,
{
    if upto <= 0 {
        Seq::empty()
    } else if occurs_at(buf, pattern, upto - 1) {
        occurrences(buf, pattern, upto - 1).push((upto - 1) as usize)
    } else {
        occurrences(buf, pattern, upto - 1)
    }
}

/// The places that `occurrences` lists are exactly those at which the
/// pattern occurs, each once and in rising order.
pub proof fn lemma_occurrences(buf: Seq<u8>, pattern: Seq<u8>, upto: int)
    requires
        upto <= usize::MAX,
    ensures
        forall|k: int|
            0 <= k < occurrences(buf, pattern, upto).len() ==> (#[trigger] occurrences(
                buf,
                pattern,
                upto,
            )[k]) < upto && occurs_at(buf, pattern, occurrences(buf, pattern, upto)[k] as int),
        forall|k: int, l: int|
            0 <= k < l < occurrences(buf, pattern, upto).len() ==> (#[trigger] occurrences(
                buf,
                pattern,
                upto,
            )[k]) < (#[trigger] occurrences(buf, pattern, upto)[l]),
        forall|at: int|
            0 <= at < upto && occurs_at(buf, pattern, at) ==> occurrences(
                buf,
                pattern,
                upto,
            ).contains(at as usize),
    decreases upto,
{
    if upto > 0 {
        lemma_occurrences(buf, pattern, upto - 1);
        let before = occurrences(buf, pattern, upto - 1);
        let all = occurrences(buf, pattern, upto);
        if occurs_at(buf, pattern, upto - 1) {
            assert(all[before.len() as int] == (upto - 1) as usize);
            assert forall|at: int| 0 <= at < upto && occurs_at(buf, pattern, at) implies all.contains(
                at as usize,
            ) by {
                if at < upto - 1 {
                    let k = choose|k: int| 0 <= k < before.len() && before[k] == at as usize;
                    assert(all[k] == at as usize);
                } else {
                    assert(all[before.len() as int] == at as usize);
                }
            }
        }
    }
}

/// Whether `pattern` stands at `at` in `buf` and at least one byte follows
/// it.
pub fn pattern_at(buf: &[u8], pattern: &[u8], at: usize) -> (r: bool)
    ensures
        r == occurs_at(buf@, pattern@, at as int),
{
    let total: usize = buf.len();
    let width: usize = pattern.len();
    if at >= total || total - at <= width {
        return false;
    }
    let mut k: usize = 0;
    while k < width
        invariant
            k <= width,
            width == pattern@.len(),
            total == buf@.len(),
            at + width < total,
            forall|j: int| 0 <= j < k ==> buf@[at + j] == pattern@[j],
        decreases width - k,
    {
        if buf[at + k] != pattern[k] {
            assert(buf@.subrange(at as int, at + width)[k as int] != pattern@[k as int]);
            return false;
        }
        k = k + 1;
    }
    assert(buf@.subrange(at as int, at + width) =~= pattern@);
    true
}

/// The places at which `pattern` occurs in `buffer` with at least one byte
/// after it, in rising order.
pub fn find_pattern(buffer: &[u8], pattern: &[u8]) -> (places: Vec<usize>)
    ensures
        places@ == occurrences(buffer@, pattern@, buffer@.len() as int),
{
    let total: usize = buffer.len();
    let mut places: Vec<usize> = Vec::new();
    let mut at: usize = 0;
    while at < total
        invariant
            at <= total,
            total == buffer@.len(),
            places@ == occurrences(buffer@, pattern@, at as int),
        decreases total - at,
    {
        if pattern_at(buffer, pattern, at) {
            places.push(at);
        }
        at = at + 1;
    }
    places
}

/// The byte patterns that are looked for in a binary of which no snapshot
/// could be made.
#[derive(Clone, Copy, Debug, PartialEq, Eq, Structural)]
pub enum SearchPattern {
    /// `F5 F5 DC DC`, the snapshot magic.
    SnapshotMagic,
    /// `DC DC F5 F5`, the snapshot magic in reverse.
    ReversedMagic,
    /// `F6 F6 DC DC`.
    AlternativeMagic,
    /// Seven zero bytes and a one.
    HeaderPattern,
    /// The text `kDartVmSnapshotData`.
    VmDataName,
    /// The text `kDartVmSnapshotInstructions`.
    VmInstructionsName,
    /// The text `kDartIsolateSnapshotData`.
    IsolateDataName,
    /// The text `kDartIsolateSnapshotInstructions`.
    IsolateInstructionsName,
}

impl SearchPattern {
    /// The bytes of the pattern.
    pub open spec fn spec_bytes(self) -> Seq<u8> {
        match self {
            SearchPattern::SnapshotMagic => seq![0xf5u8, 0xf5u8, 0xdcu8, 0xdcu8],
            SearchPattern::ReversedMagic => seq![0xdcu8, 0xdcu8, 0xf5u8, 0xf5u8],
            SearchPattern::AlternativeMagic => seq![0xf6u8, 0xf6u8, 0xdcu8, 0xdcu8],
            SearchPattern::HeaderPattern => seq![0u8, 0u8, 0u8, 0u8, 0u8, 0u8, 0u8, 1u8],
            SearchPattern::VmDataName => "kDartVmSnapshotData".spec_bytes(),
            SearchPattern::VmInstructionsName => "kDartVmSnapshotInstructions".spec_bytes(),
            SearchPattern::IsolateDataName => "kDartIsolateSnapshotData".spec_bytes(),
            SearchPattern::IsolateInstructionsName => "kDartIsolateSnapshotInstructions".spec_bytes(),
        }
    }

    /// What the pattern is, in words.
    pub open spec fn spec_label(self) -> Seq<char> {
        match self {
            SearchPattern::SnapshotMagic => "Dart snapshot magic (f5f5dcdc)"@,
            SearchPattern::ReversedMagic => "Dart snapshot magic reversed"@,
            SearchPattern::AlternativeMagic => "Alternative snapshot magic"@,
            SearchPattern::HeaderPattern => "Possible header pattern"@,
            SearchPattern::VmDataName => "VM snapshot data string"@,
            SearchPattern::VmInstructionsName => "VM snapshot instructions string"@,
            SearchPattern::IsolateDataName => "Isolate snapshot data string"@,
            SearchPattern::IsolateInstructionsName => "Isolate snapshot instructions string"@,
        }
    }

    /// The patterns in the order in which they are looked for.
    pub open spec fn spec_all() -> Seq<SearchPattern> {
        seq![
            SearchPattern::SnapshotMagic,
            SearchPattern::ReversedMagic,
            SearchPattern::AlternativeMagic,
            SearchPattern::HeaderPattern,
            SearchPattern::VmDataName,
            SearchPattern::VmInstructionsName,
            SearchPattern::IsolateDataName,
            SearchPattern::IsolateInstructionsName,
        ]
    }

    /// The bytes of the pattern.
    pub fn bytes(&self) -> (bytes: Vec<u8>)
        ensures
            bytes@ == self.spec_bytes(),
    {
        let bytes = match self {
            SearchPattern::SnapshotMagic => vec![0xf5u8, 0xf5u8, 0xdcu8, 0xdcu8],
            SearchPattern::ReversedMagic => vec![0xdcu8, 0xdcu8, 0xf5u8, 0xf5u8],
            SearchPattern::AlternativeMagic => vec![0xf6u8, 0xf6u8, 0xdcu8, 0xdcu8],
            SearchPattern::HeaderPattern => vec![0u8, 0u8, 0u8, 0u8, 0u8, 0u8, 0u8, 1u8],
            SearchPattern::VmDataName => "kDartVmSnapshotData".as_bytes_vec(),
            SearchPattern::VmInstructionsName => "kDartVmSnapshotInstructions".as_bytes_vec(),
            SearchPattern::IsolateDataName => "kDartIsolateSnapshotData".as_bytes_vec(),
            SearchPattern::IsolateInstructionsName => "kDartIsolateSnapshotInstructions".as_bytes_vec(),
        };
        assert(bytes@ =~= self.spec_bytes());
        bytes
    }

    /// What the pattern is, in words.
    pub fn label(&self) -> (text: &'static str)
        ensures
            text@ == self.spec_label(),
    {
        match self {
            SearchPattern::SnapshotMagic => "Dart snapshot magic (f5f5dcdc)",
            SearchPattern::ReversedMagic => "Dart snapshot magic reversed",
            SearchPattern::AlternativeMagic => "Alternative snapshot magic",
            SearchPattern::HeaderPattern => "Possible header pattern",
            SearchPattern::VmDataName => "VM snapshot data string",
            SearchPattern::VmInstructionsName => "VM snapshot instructions string",
            SearchPattern::IsolateDataName => "Isolate snapshot data string",
            SearchPattern::IsolateInstructionsName => "Isolate snapshot instructions string",
        }
    }

    /// The patterns in the order in which they are looked for.
    pub fn all() -> (patterns: Vec<SearchPattern>)
        ensures
            patterns@ == SearchPattern::spec_all(),
    {
        let patterns = vec![
            SearchPattern::SnapshotMagic,
            SearchPattern::ReversedMagic,
            SearchPattern::AlternativeMagic,
            SearchPattern::HeaderPattern,
            SearchPattern::VmDataName,
            SearchPattern::VmInstructionsName,
            SearchPattern::IsolateDataName,
            SearchPattern::IsolateInstructionsName,
        ];
        assert(patterns@ =~= SearchPattern::spec_all());
        patterns
    }
}

/// Where a pattern was found.
#[derive(Clone, Debug, PartialEq, Eq)]
pub struct PatternPlaces {
    pub pattern: SearchPattern,
    /// The places in the buffer at which the pattern occurs, in rising order.
    pub places: Vec<usize>,
}

/// Looks for every pattern of `SearchPattern` in `buffer`: one entry for
/// each, in the order of `SearchPattern::all`, with the places at which it
/// occurs.
pub fn search_for_patterns(buffer: &[u8]) -> (found: Vec<PatternPlaces>)
    ensures
        found@.len() == SearchPattern::spec_all().len(),
        forall|k: int|
            0 <= k < found@.len() ==> {
                &&& (#[trigger] found@[k]).pattern == SearchPattern::spec_all()[k]
                &&& found@[k].places@ == occurrences(
                    buffer@,
                    SearchPattern::spec_all()[k].spec_bytes(),
                    buffer@.len() as int,
                )
            },
{
    let patterns = SearchPattern::all();
    let mut found: Vec<PatternPlaces> = Vec::new();
    let mut k: usize = 0;
    while k < patterns.len()
        invariant
            k <= patterns@.len(),
            patterns@ == SearchPattern::spec_all(),
            found@.len() == k,
            forall|j: int|
                0 <= j < k ==> {
                    &&& (#[trigger] found@[j]).pattern == SearchPattern::spec_all()[j]
                    &&& found@[j].places@ == occurrences(
                        buffer@,
                        SearchPattern::spec_all()[j].spec_bytes(),
                        buffer@.len() as int,
                    )
                },
        decreases patterns@.len() - k,
    {
        let pattern = patterns[k];
        let bytes = pattern.bytes();
        let places = find_pattern(buffer, bytes.as_slice());
        found.push(PatternPlaces { pattern, places });
        k = k + 1;
    }
    found
}


/// The number of prominent offsets.
pub const KEY_OFFSETS: usize = 13;

/// The most bytes shown of what lies at a prominent offset.
pub const KEY_BYTES: usize = 64;

/// The `k`-th prominent offset of a `__TEXT` segment.
pub open spec fn key_offset(k: int) -> usize {
    if k == 0 {
        0x0
    } else if k == 1 {
        0x4000
    } else if k == 2 {
        0x8000
    } else if k == 3 {
        0x1_0000
    } else if k == 4 {
        0x2_0000
    } else if k == 5 {
        0x4_0000
    } else if k == 6 {
        0x8_0000
    } else if k == 7 {
        0x10_0000
    } else if k == 8 {
        0x20_0000
    } else if k == 9 {
        0x40_0000
    } else if k == 10 {
        0x80_0000
    } else if k == 11 {
        0xc0_0000
    } else {
        0x100_0000
    }
}

/// What the `k`-th prominent offset is, in words.
pub open spec fn key_label(k: int) -> Seq<char> {
    if k == 0 {
        "Start of __TEXT"@
    } else if k == 1 {
        "Common __text section offset"@
    } else if k == 2 {
        "Alternative __text offset"@
    } else if k == 3 {
        "64KB boundary"@
    } else if k == 4 {
        "128KB boundary"@
    } else if k == 5 {
        "256KB boundary"@
    } else if k == 6 {
        "512KB boundary"@
    } else if k == 7 {
        "1MB boundary"@
    } else if k == 8 {
        "2MB boundary"@
    } else if k == 9 {
        "4MB boundary"@
    } else if k == 10 {
        "8MB boundary"@
    } else if k == 11 {
        "12MB boundary"@
    } else {
        "16MB boundary"@
    }
}

/// The `k`-th prominent offset and what it is, in words.
fn key_offset_at(k: usize) -> (key: (usize, &'static str))
    requires
        k < KEY_OFFSETS,
    ensures
        key.0 == key_offset(k as int),
        key.1@ == key_label(k as int),
{
    if k == 0 {
        (0x0, "Start of __TEXT")
    } else if k == 1 {
        (0x4000, "Common __text section offset")
    } else if k == 2 {
        (0x8000, "Alternative __text offset")
    } else if k == 3 {
        (0x1_0000, "64KB boundary")
    } else if k == 4 {
        (0x2_0000, "128KB boundary")
    } else if k == 5 {
        (0x4_0000, "256KB boundary")
    } else if k == 6 {
        (0x8_0000, "512KB boundary")
    } else if k == 7 {
        (0x10_0000, "1MB boundary")
    } else if k == 8 {
        (0x20_0000, "2MB boundary")
    } else if k == 9 {
        (0x40_0000, "4MB boundary")
    } else if k == 10 {
        (0x80_0000, "8MB boundary")
    } else if k == 11 {
        (0xc0_0000, "12MB boundary")
    } else {
        (0x100_0000, "16MB boundary")
    }
}

/// A 32-bit value that may be a magic: neither all zeros nor all ones.
pub open spec fn notable(value: u32) -> Option<u32> {
    if value != 0 && value != 0xffff_ffff {
        Some(value)
    } else {
        None
    }
}

/// What lies at a prominent offset of a buffer.
#[derive(Clone, Debug, PartialEq, Eq)]
pub struct KeyOffsetReport {
    /// The offset in the buffer.
    pub offset: usize,
    /// What the offset is, in words.
    pub label: &'static str,
    /// The bytes at the offset: `KEY_BYTES` of them, or as many as are left.
    pub bytes: Vec<u8>,
    /// The first four bytes read least significant first, where there are
    /// four and they are neither all zeros nor all ones.
    pub magic_le: Option<u32>,
    /// The first four bytes read most significant first, under the same
    /// conditions.
    pub magic_be: Option<u32>,
}

impl KeyOffsetReport {
    /// Whether the report says what lies at the `k`-th prominent offset of
    /// `buf`.
    pub open spec fn describes(self, buf: Seq<u8>, k: int) -> bool {
        let offset = key_offset(k) as int;
        let end = if offset + KEY_BYTES <= buf.len() {
            offset + KEY_BYTES
        } else {
            buf.len() as int
        };
        &&& self.offset == offset
        &&& self.label@ == key_label(k)
        &&& offset < buf.len()
        &&& self.bytes@ == buf.subrange(offset, end)
        &&& self.magic_le == if offset + 4 <= buf.len() {
            notable(u32_le(buf, offset))
        } else {
            None
        }
        &&& self.magic_be == if offset + 4 <= buf.len() {
            notable(u32_be(buf, offset))
        } else {
            None
        }
    }
}

/// The number of prominent offsets that lie inside a buffer of `len` bytes,
/// counted among the first `upto`.
pub open spec fn keys_inside(len: nat, upto: int) -> nat
    decreases upto,
{
    if upto <= 0 {
        0
    } else if key_offset(upto - 1) < len {
        1 + keys_inside(len, upto - 1)
    } else {
        keys_inside(len, upto - 1)
    }
}

/// The prominent offsets rise, so those inside a buffer are the first ones.
pub proof fn lemma_keys_inside(len: nat, upto: int)
    requires
        0 <= upto <= KEY_OFFSETS,
    ensures
        keys_inside(len, upto) <= upto,
        forall|k: int| 0 <= k < upto ==> (key_offset(k) < len <==> k < keys_inside(len, upto)),
    decreases upto,
{
    if upto > 0 {
        lemma_keys_inside(len, upto - 1);
        assert(forall|k: int|
            0 <= k < upto - 1 ==> (#[trigger] key_offset(k)) < key_offset(upto - 1));
    }
}

/// Reports what lies at each prominent offset inside `buffer`, in the order
/// of the offsets.
pub fn log_key_offsets(buffer: &[u8]) -> (reports: Vec<KeyOffsetReport>)
    ensures
        reports@.len() == keys_inside(buffer@.len(), KEY_OFFSETS as int),
        forall|k: int| 0 <= k < reports@.len() ==> (#[trigger] reports@[k]).describes(buffer@, k),
{
    let total: usize = buffer.len();
    let mut reports: Vec<KeyOffsetReport> = Vec::new();
    let mut k: usize = 0;
    proof {
        lemma_keys_inside(total as nat, KEY_OFFSETS as int);
    }
    while k < KEY_OFFSETS
        invariant
            k <= KEY_OFFSETS,
            total == buffer@.len(),
            reports@.len() == k,
            k <= keys_inside(total as nat, KEY_OFFSETS as int),
            keys_inside(total as nat, KEY_OFFSETS as int) <= KEY_OFFSETS,
            forall|j: int|
                0 <= j < KEY_OFFSETS ==> (key_offset(j) < total <==> j < keys_inside(
                    total as nat,
                    KEY_OFFSETS as int,
                )),
            forall|j: int| 0 <= j < k ==> (#[trigger] reports@[j]).describes(buffer@, j),
        ensures
            reports@.len() == keys_inside(total as nat, KEY_OFFSETS as int),
        decreases KEY_OFFSETS - k,
    {
        let (offset, label) = key_offset_at(k);
        if offset >= total {
            break ;
        }
        let end: usize = if total - offset >= KEY_BYTES {
            offset + KEY_BYTES
        } else {
            total
        };
        let bytes = copy_range(buffer, offset, end);
        let mut magic_le: Option<u32> = None;
        let mut magic_be: Option<u32> = None;
        if total - offset >= 4 {
            let le: u32 = read_u32_le(buffer, offset);
            if le != 0 && le != 0xffff_ffff {
                magic_le = Some(le);
            }
            let be: u32 = read_u32_be(buffer, offset);
            if be != 0 && be != 0xffff_ffff {
                magic_be = Some(be);
            }
        }
        reports.push(KeyOffsetReport { offset, label, bytes, magic_le, magic_be });
        k = k + 1;
    }
    reports
}

/// The number of bytes of `buf` in `[from, from + n)` that are not zero.
pub open spec fn count_nonzero(buf: Seq<u8>, from: int, n: nat) -> nat
    decreases n,
{
    if n == 0 {
        0
    } else {
        count_nonzero(buf, from, (n - 1) as nat) + if buf[from + n - 1] != 0 {
            1nat
        } else {
            0nat
        }
    }
}

/// Whether the sixteen bytes at `at` look like the start of a snapshot: more
/// than twelve of them are not zero, and the first is `F5`, `F6` or `DC`.
pub open spec fn dense_start(buf: Seq<u8>, at: int) -> bool {
    &&& count_nonzero(buf, at, 16) > 12
    &&& (buf[at] == 0xf5 || buf[at] == 0xf6 || buf[at] == 0xdc)
}

/// Whether the two bytes at `at` are not zero and stand again eight bytes
/// on, with more than thirty-two bytes left in `buf`.
pub open spec fn repeats(buf: Seq<u8>, at: int) -> bool {
    &&& at + 32 < buf.len()
    &&& buf[at] == buf[at + 8]
    &&& buf[at + 1] == buf[at + 9]
    &&& buf[at] != 0
    &&& buf[at + 1] != 0
}

/// The places below `upto` that may start a snapshot, in rising order: each
/// once where it is a dense start, and once more where it repeats.
pub open spec fn snapshot_patterns(buf: Seq<u8>, upto: int) -> Seq<usize>
    decreases upto,
{
    if upto <= 0 {
        Seq::empty()
    } else {
        let before = snapshot_patterns(buf, upto - 1);
        let at = (upto - 1) as usize;
        let first = if dense_start(buf, upto - 1) {
            before.push(at)
        } else {
            before
        };
        if repeats(buf, upto - 1) {
            first.push(at)
        } else {
            first
        }
    }
}

/// The number of the sixteen bytes at `at` that are not zero.
pub fn nonzero_of_sixteen(buf: &[u8], at: usize) -> (n: usize)
    requires
        at + 16 <= buf.len(),
    ensures
        n == count_nonzero(buf@, at as int, 16),
        n <= 16,
{
    let mut n: usize = 0;
    let mut k: usize = 0;
    while k < 16
        invariant
            k <= 16,
            at + 16 <= buf.len(),
            n == count_nonzero(buf@, at as int, k as nat),
            n <= k,
        decreases 16 - k,
    {
        if buf[at + k] != 0 {
            n = n + 1;
        }
        k = k + 1;
    }
    n
}

/// The places in `buffer`, sixteen bytes or more before its end, that may
/// start a snapshot.
pub fn find_snapshot_patterns(buffer: &[u8]) -> (places: Vec<usize>)
    ensures
        places@ == snapshot_patterns(
            buffer@,
            if buffer@.len() >= 16 {
                buffer@.len() - 16
            } else {
                0
            },
        ),
{
    let total: usize = buffer.len();
    let mut places: Vec<usize> = Vec::new();
    if total < 16 {
        return places;
    }
    let upto: usize = total - 16;
    let mut at: usize = 0;
    while at < upto
        invariant
            at <= upto,
            upto + 16 == total,
            total == buffer@.len(),
            places@ == snapshot_patterns(buffer@, at as int),
        decreases upto - at,
    {
        let first: u8 = buffer[at];
        if nonzero_of_sixteen(buffer, at) > 12 && (first == 0xf5 || first == 0xf6 || first
            == 0xdc) {
            places.push(at);
        }
        if total - at > 32 && first == buffer[at + 8] && buffer[at + 1] == buffer[at + 9] && first
            != 0 && buffer[at + 1] != 0 {
            places.push(at);
        }
        at = at + 1;
    }
    places
}


/// Whether `b` is a visible ASCII character or a space.
pub open spec fn printable(b: u8) -> bool {
    0x20 <= b <= 0x7e
}

/// `b` with an ASCII capital turned into its small letter.
pub open spec fn lower(b: u8) -> u8 {
    if 0x41 <= b <= 0x5a {
        (b + 0x20) as u8
    } else {
        b
    }
}

/// Whether the four bytes at `at` spell `snap`, in capitals or small
/// letters.
pub open spec fn snap_at(buf: Seq<u8>, at: int) -> bool {
    &&& lower(buf[at]) == 0x73
    &&& lower(buf[at + 1]) == 0x6e
    &&& lower(buf[at + 2]) == 0x61
    &&& lower(buf[at + 3]) == 0x70
}

/// Whether `snap` is spelled somewhere in `[start, end)`.
pub open spec fn mentions_snap(buf: Seq<u8>, start: int, end: int) -> bool {
    exists|k: int| start <= k && k + 4 <= end && #[trigger] snap_at(buf, k)
}

/// Whether `[start, end)` is a string of `buf` that mentions snapshots: a
/// run of four or more printable bytes that mentions `snap`, with no
/// printable byte before it and a byte that is not printable after it.
pub open spec fn is_snap_string(buf: Seq<u8>, start: int, end: int) -> bool {
    &&& 0 <= start < end < buf.len()
    &&& forall|j: int| start <= j < end ==> printable(#[trigger] buf[j])
    &&& !printable(buf[end])
    &&& (start == 0 || !printable(buf[start - 1]))
    &&& end - start >= 4
    &&& mentions_snap(buf, start, end)
}

/// A string of a buffer.
#[derive(Clone, Debug, PartialEq, Eq)]
pub struct SnapString {
    /// Where the string starts in the buffer.
    pub offset: usize,
    /// The bytes of the string.
    pub text: Vec<u8>,
}

impl SnapString {
    /// Whether this is a string of `buf` that mentions snapshots.
    pub open spec fn found_in(self, buf: Seq<u8>) -> bool {
        &&& is_snap_string(buf, self.offset as int, self.offset + self.text@.len())
        &&& self.text@ == buf.subrange(self.offset as int, self.offset + self.text@.len())
    }
}

/// Whether `b` is a visible ASCII character or a space.
pub fn is_printable(b: u8) -> (r: bool)
    ensures
        r == printable(b),
{
    0x20 <= b && b <= 0x7e
}

/// `b` with an ASCII capital turned into its small letter.
pub fn to_lower(b: u8) -> (r: u8)
    ensures
        r == lower(b),
{
    if 0x41 <= b && b <= 0x5a {
        b + 0x20
    } else {
        b
    }
}

/// Whether `snap` is spelled somewhere in `[start, end)`.
pub fn spells_snap(buf: &[u8], start: usize, end: usize) -> (r: bool)
    requires
        start <= end <= buf.len(),
    ensures
        r == mentions_snap(buf@, start as int, end as int),
{
    let mut k: usize = start;
    while end - k >= 4
        invariant
            start <= k <= end,
            end <= buf.len(),
            forall|j: int| start <= j < k ==> !snap_at(buf@, j),
        decreases end - k,
    {
        if to_lower(buf[k]) == 0x73 && to_lower(buf[k + 1]) == 0x6e && to_lower(buf[k + 2]) == 0x61
            && to_lower(buf[k + 3]) == 0x70 {
            assert(snap_at(buf@, k as int));
            return true;
        }
        k = k + 1;
    }
    false
}

/// The strings of `buffer` that mention snapshots, in the order in which
/// they stand: every one of them, and nothing else.
pub fn find_snap_strings(buffer: &[u8]) -> (strings: Vec<SnapString>)
    ensures
        forall|k: int| 0 <= k < strings@.len() ==> (#[trigger] strings@[k]).found_in(buffer@),
        forall|k: int, l: int|
            0 <= k < l < strings@.len() ==> (#[trigger] strings@[k]).offset < (
            #[trigger] strings@[l]).offset,
        forall|start: int, end: int| #[trigger]
            is_snap_string(buffer@, start, end) ==> exists|k: int|
                0 <= k < strings@.len() && (#[trigger] strings@[k]).offset == start,
{
    let total: usize = buffer.len();
    let mut strings: Vec<SnapString> = Vec::new();
    let mut at: usize = 0;
    while at < total
        invariant
            at <= total,
            total == buffer@.len(),
            at < total ==> (at == 0 || !printable(buffer@[at - 1])),
            forall|k: int|
                0 <= k < strings@.len() ==> (#[trigger] strings@[k]).found_in(buffer@)
                    && strings@[k].offset < at,
            forall|k: int, l: int|
                0 <= k < l < strings@.len() ==> (#[trigger] strings@[k]).offset < (
                #[trigger] strings@[l]).offset,
            forall|start: int, end: int|
                start < at && #[trigger] is_snap_string(buffer@, start, end) ==> exists|k: int|
                    0 <= k < strings@.len() && (#[trigger] strings@[k]).offset == start,
        decreases total - at,
    {
        if !is_printable(buffer[at]) {
            at = at + 1;
        } else {
            let start: usize = at;
            let mut end: usize = at;
            while end < total && is_printable(buffer[end])
                invariant
                    start <= end <= total,
                    total == buffer@.len(),
                    forall|j: int| start <= j < end ==> printable(#[trigger] buffer@[j]),
                decreases total - end,
            {
                end = end + 1;
            }
            let ghost before = strings@;
            let mut pushed: bool = false;
            if end < total && end - start >= 4 && spells_snap(buffer, start, end) {
                let text = copy_range(buffer, start, end);
                strings.push(SnapString { offset: start, text });
                pushed = true;
            }
            let next: usize = if end < total {
                end + 1
            } else {
                total
            };
            proof {
                assert forall|s: int, e: int|
                    s < next && #[trigger] is_snap_string(buffer@, s, e) implies exists|k: int|
                    0 <= k < strings@.len() && (#[trigger] strings@[k]).offset == s by {
                    if s < start {
                        let k = choose|k: int|
                            0 <= k < before.len() && (#[trigger] before[k]).offset == s;
                        assert(strings@[k] == before[k]);
                    } else if s == start {
                        if e < end {
                            assert(printable(buffer@[e]));
                        } else if e > end {
                            assert(printable(buffer@[end as int]));
                        }
                        assert(e == end);
                        assert(pushed);
                        assert(strings@[before.len() as int].offset == s);
                    } else if s <= end {
                        if s < end {
                            assert(printable(buffer@[s - 1]));
                        } else {
                            assert(printable(buffer@[s]));
                        }
                    }
                }
            }
            at = next;
        }
    }
    strings
}

} // verus!
