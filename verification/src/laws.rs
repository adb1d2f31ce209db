//! What holds of the extraction of every file.
//!
//! The proof functions of this module state laws over the spec functions
//! that the contracts of the executable functions use, so that each law
//! holds of every run on a faithful stream.

use crate::bytes::{lemma_swap_le_is_be, lemma_swapped_magics, swap_u32, u32_be, u32_le};
use crate::ios_snapshot_parser::{
    choose_method, extraction, lemma_section_end_bounds, macho_extraction, magic_extraction,
    scan_fat_archs, scan_magic, snapshots_at_magic_offset, symbol_data, symbol_extraction,
    symbol_file_offset, try_record_at, viable, walk, DartSnapshotsView, ExtractError,
    LoadCommands, SNAPSHOT_HEADER, TEXT_SCAN_LIMIT,
};
use crate::macho::{
    in_order, record_at, FatArch, FatHeader, MachHeader64, SegmentCommand64,
    CPU_TYPE_ARM64, FAT_CIGAM, FAT_MAGIC, MH_MAGIC, MH_MAGIC_64,
};
use crate::stream::{available, window};
use vstd::prelude::*;

verus! {

/// Whether `file` starts with the magic of a fat container, in either byte
/// order.
pub open spec fn is_fat(file: Seq<u8>) -> bool {
    available(file, 0, 4) && (u32_be(file, 0) == FAT_MAGIC || u32_be(file, 0) == FAT_CIGAM)
}

/// The fields of a fat container lie most significant byte first where the
/// container starts with `CA FE BA BE`, and least significant byte first
/// where it starts with `BE BA FE CA`: the header then reads as `FAT_CIGAM`
/// and its count is reversed before use, or reads as `FAT_MAGIC` and its
/// count is used as it stands.
pub proof fn lemma_fat_byte_order(file: Seq<u8>)
    requires
        available(file, 0, 8),
        is_fat(file),
    ensures
        u32_be(file, 0) == FAT_MAGIC ==> {
            &&& record_at::<FatHeader>(file, 0).magic == FAT_CIGAM
            &&& record_at::<FatHeader>(file, 0).spec_arch_count() == swap_u32(u32_le(file, 4))
            &&& record_at::<FatHeader>(file, 0).spec_arch_count() == u32_be(file, 4)
        },
        u32_be(file, 0) == FAT_CIGAM ==> {
            &&& record_at::<FatHeader>(file, 0).magic == FAT_MAGIC
            &&& record_at::<FatHeader>(file, 0).spec_arch_count() == u32_le(file, 4)
        },
{
    let head = file.subrange(0, 8);
    assert(head[0] == file[0] && head[1] == file[1] && head[2] == file[2] && head[3] == file[3]);
    assert(head[4] == file[4] && head[5] == file[5] && head[6] == file[6] && head[7] == file[7]);
    lemma_swap_le_is_be(file, 0);
    lemma_swap_le_is_be(file, 4);
    lemma_swapped_magics();
}

/// A file that starts with the magic of a 32-bit Mach-O image is rejected
/// as such, and not as a file of unknown kind.
pub proof fn lemma_32_bit_is_rejected(file: Seq<u8>)
    requires
        available(file, 0, 4),
        u32_le(file, 0) == MH_MAGIC,
    ensures
        extraction(file) == Err::<DartSnapshotsView, ExtractError>(ExtractError::Unsupported32Bit),
{
    lemma_swap_le_is_be(file, 0);
    lemma_swapped_magics();
}

/// A file that starts with the magic of a 64-bit Mach-O image yields what
/// the image at its start yields.
pub proof fn lemma_flat_image_is_anchored_at_zero(file: Seq<u8>)
    requires
        available(file, 0, 4),
        u32_le(file, 0) == MH_MAGIC_64,
    ensures
        extraction(file) == macho_extraction(file, 0),
{
    lemma_swap_le_is_be(file, 0);
    lemma_swapped_magics();
}

/// The CPU type of entry `index` of a fat container.
pub open spec fn fat_cputype(file: Seq<u8>, index: nat) -> u32 {
    in_order(
        record_at::<FatArch>(file, (8 + 20 * index) as int).cputype,
        record_at::<FatHeader>(file, 0).reversed(),
    )
}

/// The offset of the slice that entry `index` of a fat container points at.
pub open spec fn fat_offset(file: Seq<u8>, index: nat) -> u32 {
    in_order(
        record_at::<FatArch>(file, (8 + 20 * index) as int).offset,
        record_at::<FatHeader>(file, 0).reversed(),
    )
}

/// The number of entries that a fat container lists.
pub open spec fn fat_count(file: Seq<u8>) -> u32 {
    record_at::<FatHeader>(file, 0).spec_arch_count()
}

proof fn lemma_scan_reaches(file: Seq<u8>, from: nat, index: nat)
    requires
        from <= index < fat_count(file),
        available(file, 0, (8 + 20 * (index + 1)) as int),
        fat_cputype(file, index) == CPU_TYPE_ARM64,
        forall|j: nat| from <= j < index ==> fat_cputype(file, j) != CPU_TYPE_ARM64,
    ensures
        scan_fat_archs(
            file,
            record_at::<FatHeader>(file, 0).reversed(),
            fat_count(file),
            from,
        ) == macho_extraction(file, fat_offset(file, index) as int),
    decreases index - from,
{
    let reversed = record_at::<FatHeader>(file, 0).reversed();
    let entry = try_record_at::<FatArch>(file, (8 + 20 * from) as int);
    assert(available(file, (8 + 20 * from) as int, 20));
    assert(entry == Ok::<FatArch, ExtractError>(
        record_at::<FatArch>(file, (8 + 20 * from) as int),
    ));
    assert(in_order(entry->Ok_0.cputype, reversed) == fat_cputype(file, from));
    if from < index {
        lemma_scan_reaches(file, from + 1, index);
    }
}

proof fn lemma_scan_exhausts(file: Seq<u8>, from: nat)
    requires
        from <= fat_count(file),
        available(file, 0, (8 + 20 * fat_count(file)) as int),
        forall|j: nat| from <= j < fat_count(file) ==> fat_cputype(file, j) != CPU_TYPE_ARM64,
    ensures
        scan_fat_archs(
            file,
            record_at::<FatHeader>(file, 0).reversed(),
            fat_count(file),
            from,
        ) == Err::<DartSnapshotsView, ExtractError>(ExtractError::NoArm64Slice),
    decreases fat_count(file) - from,
{
    if from < fat_count(file) {
        let reversed = record_at::<FatHeader>(file, 0).reversed();
        let entry = try_record_at::<FatArch>(file, (8 + 20 * from) as int);
        assert(available(file, (8 + 20 * from) as int, 20));
        assert(entry == Ok::<FatArch, ExtractError>(
            record_at::<FatArch>(file, (8 + 20 * from) as int),
        ));
        assert(in_order(entry->Ok_0.cputype, reversed) == fat_cputype(file, from));
        lemma_scan_exhausts(file, from + 1);
    }
}

/// A fat container whose first arm64 entry points at offset `X` yields what
/// the image at `X` yields: the extraction is anchored there.
pub proof fn lemma_fat_dispatch(file: Seq<u8>, index: nat)
    requires
        is_fat(file),
        index < fat_count(file),
        available(file, 0, (8 + 20 * (index + 1)) as int),
        fat_cputype(file, index) == CPU_TYPE_ARM64,
        forall|j: nat| j < index ==> fat_cputype(file, j) != CPU_TYPE_ARM64,
    ensures
        extraction(file) == macho_extraction(file, fat_offset(file, index) as int),
{
    lemma_scan_reaches(file, 0, index);
}

/// A fat container that lists no arm64 entry yields `NoArm64Slice`.
pub proof fn lemma_fat_without_arm64(file: Seq<u8>)
    requires
        is_fat(file),
        available(file, 0, (8 + 20 * fat_count(file)) as int),
        forall|j: nat| j < fat_count(file) ==> fat_cputype(file, j) != CPU_TYPE_ARM64,
    ensures
        extraction(file) == Err::<DartSnapshotsView, ExtractError>(ExtractError::NoArm64Slice),
{
    lemma_scan_exhausts(file, 0);
}

/// The bytes of a symbol start at `S + (V - A) + F` in the file, where `V`
/// is the symbol's address, `A` and `F` are the address and the file offset
/// of `__TEXT`, and `S` is where the image starts.
pub proof fn lemma_symbol_data_starts_at_offset(
    file: Seq<u8>,
    file_start: int,
    text: SegmentCommand64,
    n_value: u64,
    next: u64,
)
    ensures
        symbol_file_offset(file_start, n_value, text) == file_start + (n_value - text.vmaddr)
            + text.fileoff,
        symbol_data(file, file_start, text, n_value, Some(next)) matches Ok(bytes) ==> bytes
            == window(
            file,
            file_start + (n_value - text.vmaddr) + text.fileoff,
            next - n_value,
        ),
{
}

/// Without a symbol table or without `__LINKEDIT`, an image with a `__TEXT`
/// segment yields what the search for the snapshot magic yields.
pub proof fn lemma_fallback_without_symbol_table(
    file: Seq<u8>,
    file_start: int,
    commands: LoadCommands,
)
    requires
        commands.text is Some,
        commands.symtab is None || commands.linkedit is None,
    ensures
        choose_method(file, file_start, commands) == magic_extraction(
            file,
            file_start,
            commands.text->0,
        ),
{
}

/// With a symbol table that names fewer than the four symbols, an image
/// yields what the search for the snapshot magic yields; with any other
/// outcome of the symbol table, that outcome.
pub proof fn lemma_fallback_on_incomplete_symbols(
    file: Seq<u8>,
    file_start: int,
    commands: LoadCommands,
)
    requires
        commands.text is Some,
        commands.symtab is Some,
        commands.linkedit is Some,
    ensures
        choose_method(file, file_start, commands) == match symbol_extraction(
            file,
            file_start,
            commands.symtab->0,
            commands.linkedit->0,
            commands.text->0,
        ) {
            Err(ExtractError::SymbolsIncomplete(_)) => magic_extraction(
                file,
                file_start,
                commands.text->0,
            ),
            other => other,
        },
{
}

proof fn lemma_scan_from(buf: Seq<u8>, from: int, at: int)
    requires
        0 <= from <= at,
        viable(buf, at),
        forall|j: int| from <= j < at ==> !viable(buf, j),
    ensures
        scan_magic(buf, from) == snapshots_at_magic_offset(buf, at),
    decreases at - from,
{
    if from < at {
        lemma_scan_from(buf, from + 1, at);
    }
}

/// The search for the snapshot magic yields what its first viable
/// occurrence yields.
pub proof fn lemma_scan_takes_first_viable(buf: Seq<u8>, at: int)
    requires
        0 <= at,
        viable(buf, at),
        forall|j: int| 0 <= j < at ==> !viable(buf, j),
    ensures
        scan_magic(buf, 0) == snapshots_at_magic_offset(buf, at),
        scan_magic(buf, 0) is Ok,
{
    lemma_scan_from(buf, 0, at);
}

proof fn lemma_scan_fails_from(buf: Seq<u8>, from: int)
    requires
        0 <= from,
        forall|j: int| from <= j ==> !viable(buf, j),
    ensures
        scan_magic(buf, from) == Err::<DartSnapshotsView, ExtractError>(
            ExtractError::MagicScanFailed,
        ),
    decreases buf.len() - from,
{
    if from + SNAPSHOT_HEADER <= buf.len() {
        lemma_scan_fails_from(buf, from + 1);
    }
}

/// The search for the snapshot magic fails exactly where no occurrence is
/// viable.
pub proof fn lemma_scan_fails_without_viable(buf: Seq<u8>)
    ensures
        (forall|j: int| 0 <= j ==> !viable(buf, j)) <==> scan_magic(buf, 0) is Err,
        scan_magic(buf, 0) matches Err(e) ==> e == ExtractError::MagicScanFailed,
{
    lemma_scan_outcome(buf, 0);
    if forall|j: int| 0 <= j ==> !viable(buf, j) {
        lemma_scan_fails_from(buf, 0);
    } else {
        let j = choose|j: int| 0 <= j && viable(buf, j);
        lemma_scan_succeeds_if_viable(buf, 0, j);
    }
}

proof fn lemma_scan_succeeds_if_viable(buf: Seq<u8>, from: int, at: int)
    requires
        0 <= from <= at,
        viable(buf, at),
    ensures
        scan_magic(buf, from) is Ok,
    decreases at - from,
{
    if from < at && !viable(buf, from) {
        lemma_scan_succeeds_if_viable(buf, from + 1, at);
    }
}

proof fn lemma_scan_outcome(buf: Seq<u8>, from: int)
    requires
        0 <= from,
    ensures
        match scan_magic(buf, from) {
            Ok(snapshots) => snapshots.complete() && exists|j: int| from <= j && viable(buf, j),
            Err(e) => e == ExtractError::MagicScanFailed,
        },
    decreases buf.len() - from,
{
    if from + SNAPSHOT_HEADER <= buf.len() {
        if viable(buf, from) {
            lemma_quarters_complete(buf, from);
        } else {
            lemma_scan_outcome(buf, from + 1);
        }
    }
}

/// Snapshots cut out at an occurrence of the snapshot magic are not empty.
pub proof fn lemma_quarters_complete(buf: Seq<u8>, magic_offset: int)
    requires
        0 <= magic_offset,
    ensures
        snapshots_at_magic_offset(buf, magic_offset) matches Ok(snapshots) ==> snapshots.complete(),
{
    let data_start = magic_offset + SNAPSHOT_HEADER;
    if data_start <= buf.len() {
        lemma_section_end_bounds(buf, data_start);
    }
}

proof fn lemma_fat_scan_complete(file: Seq<u8>, reversed: bool, count: u32, index: nat)
    ensures
        scan_fat_archs(file, reversed, count, index) matches Ok(snapshots) ==> snapshots.complete(),
    decreases count - index,
{
    if index < count {
        match try_record_at::<FatArch>(file, (8 + 20 * index) as int) {
            Ok(arch) => {
                if in_order(arch.cputype, reversed) == CPU_TYPE_ARM64 {
                    lemma_macho_complete(file, in_order(arch.offset, reversed) as int);
                } else {
                    lemma_fat_scan_complete(file, reversed, count, index + 1);
                }
            },
            Err(_) => {},
        }
    }
}

proof fn lemma_magic_complete(file: Seq<u8>, file_start: int, text: SegmentCommand64)
    ensures
        magic_extraction(file, file_start, text) matches Ok(snapshots) ==> snapshots.complete(),
{
    let size = if text.filesize < TEXT_SCAN_LIMIT {
        text.filesize
    } else {
        TEXT_SCAN_LIMIT
    };
    lemma_scan_outcome(window(file, file_start + text.fileoff, size as int), 0);
}

proof fn lemma_macho_complete(file: Seq<u8>, file_start: int)
    ensures
        macho_extraction(file, file_start) matches Ok(snapshots) ==> snapshots.complete(),
{
    if macho_extraction(file, file_start) is Ok {
        let header = record_at::<MachHeader64>(file, file_start);
        let commands = walk(
            file,
            LoadCommands::starting_at((file_start + 32) as u64),
            header.ncmds as nat,
        )->Ok_0;
        let text = commands.text->0;
        lemma_magic_complete(file, file_start, text);
    }
}

/// Snapshots that an extraction yields are not empty, none of the four.
pub proof fn lemma_snapshots_are_complete(file: Seq<u8>)
    ensures
        extraction(file) matches Ok(snapshots) ==> snapshots.complete(),
{
    if is_fat(file) {
        match try_record_at::<FatHeader>(file, 0) {
            Ok(header) => {
                lemma_fat_scan_complete(file, header.reversed(), header.spec_arch_count(), 0);
            },
            Err(_) => {},
        }
    } else {
        lemma_macho_complete(file, 0);
    }
}

/// An image without a `__TEXT` segment yields `MissingTextSegment`,
/// whatever else its load commands describe.
pub proof fn lemma_text_is_mandatory(file: Seq<u8>, file_start: int, commands: LoadCommands)
    requires
        commands.text is None,
    ensures
        choose_method(file, file_start, commands) == Err::<DartSnapshotsView, ExtractError>(
            ExtractError::MissingTextSegment,
        ),
{
}

} // verus!
