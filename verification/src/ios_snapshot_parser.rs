//! Extraction of the four Dart snapshots from an iOS application binary.
//!
//! The spec functions say, for a file given as its bytes, what the
//! extraction yields.  The executable functions read the file through a
//! stream and are proved to yield the same wherever the stream is faithful.

use crate::bytes::{read_u32_be, read_u32_le, u32_be, u32_le};
use crate::macho::{
    in_order, read_struct, record_at, restore_order, FatArch, FatHeader, MachHeader64, Record,
    CPU_TYPE_ARM64, FAT_CIGAM, FAT_MAGIC, MH_MAGIC, MH_MAGIC_64,
};
use crate::stream::{
    available, read_exact, read_up_to, seek_to, stream_position, window, ReadSeek, StreamError,
};
use crate::text::{decimal, hex8, push_decimal, push_hex8};
use vstd::prelude::*;
use vstd::string::StringExecFns;

pub use crate::load_commands::{
    cmdsize_sum, lemma_walk_advances_by_cmdsize, note_command, walk, walk_load_commands,
    LoadCommands, LINKEDIT_SEGMENT, TEXT_SEGMENT,
};
pub use crate::magic_scan::{
    cut_at_zero_run, extract_snapshots_at_magic_offset, extract_via_magic, find_section_end,
    find_zero_window, first_zero_window, has_magic, is_zero_window,
    lemma_first_zero_window_bounds, lemma_no_window_near_end, lemma_section_end_bounds, magic_at,
    magic_extraction, scan_for_snapshots, scan_magic, section_end, snapshots_at_magic_offset,
    split_quarters, trim_at_zero_run, viable, zero_window_at, MAX_SECTION, SNAPSHOT_HEADER,
    TEXT_SCAN_LIMIT, ZERO_RUN, ZERO_RUN_SEARCH,
};
pub use crate::symbols::{
    cut_at_symbols, extract_symbol_data, extract_symbol_data_estimated, extract_via_symbols,
    linkedit_table_offset, read_snapshots_of_symbols, scan_symbol_table, scan_symbols,
    snapshots_of_symbols, symbol_data, symbol_data_estimated, symbol_extraction,
    symbol_file_offset, symbol_offset, symbol_size, table_offset, SnapshotSymbols,
    DEFAULT_SYMBOL_SIZE, ESTIMATE_LIMIT, ISOLATE_DATA_SYMBOL, ISOLATE_INSTRUCTIONS_SYMBOL,
    VM_DATA_SYMBOL, VM_INSTRUCTIONS_SYMBOL,
};

verus! {

/// The four snapshots of a Dart application.
#[derive(Clone, Debug, PartialEq, Eq)]
pub struct DartSnapshots {
    pub vm_data: Vec<u8>,
    pub vm_instructions: Vec<u8>,
    pub isolate_data: Vec<u8>,
    pub isolate_instructions: Vec<u8>,
}

/// The four snapshots as byte sequences.
pub ghost struct DartSnapshotsView {
    pub vm_data: Seq<u8>,
    pub vm_instructions: Seq<u8>,
    pub isolate_data: Seq<u8>,
    pub isolate_instructions: Seq<u8>,
}

impl DartSnapshotsView {
    /// Whether each of the four snapshots holds at least one byte.
    pub open spec fn complete(self) -> bool {
        &&& self.vm_data.len() > 0
        &&& self.vm_instructions.len() > 0
        &&& self.isolate_data.len() > 0
        &&& self.isolate_instructions.len() > 0
    }
}

impl View for DartSnapshots {
    type V = DartSnapshotsView;

    open spec fn view(&self) -> DartSnapshotsView {
        DartSnapshotsView {
            vm_data: self.vm_data@,
            vm_instructions: self.vm_instructions@,
            isolate_data: self.isolate_data@,
            isolate_instructions: self.isolate_instructions@,
        }
    }
}

/// Why an extraction yielded no snapshots.
#[derive(Clone, Copy, Debug, PartialEq, Eq, Structural)]
pub enum ExtractError {
    /// The stream failed, or ended before a record did.
    Stream(StreamError),
    /// The file starts with neither a fat nor a Mach-O magic, or a slice of
    /// a fat container does not start with the 64-bit Mach-O magic.  The
    /// field is the magic that was found.
    BadMagic(u32),
    /// The file is a 32-bit Mach-O image.
    Unsupported32Bit,
    /// The fat container lists no arm64 slice.
    NoArm64Slice,
    /// No load command describes a `__TEXT` segment.
    MissingTextSegment,
    /// The symbol table names fewer than the four snapshot symbols.  The
    /// field is the number that it names.
    SymbolsIncomplete(u32),
    /// No occurrence of the snapshot magic in `__TEXT` yields four snapshots.
    MagicScanFailed,
    /// An offset or a size computed from the file's records is negative or
    /// larger than a file position can be.
    OffsetOutOfRange,
    /// A snapshot would hold no bytes.
    EmptySnapshot,
    /// Fewer than sixteen bytes follow the start of a snapshot header.
    TruncatedSnapshotHeader,
}

impl ExtractError {
    /// What `to_text` says of the error.
    pub open spec fn text(self) -> Seq<char> {
        match self {
            ExtractError::Stream(e) => e.text(),
            ExtractError::BadMagic(magic) => "Not a valid Mach-O file (magic: 0x"@ + hex8(magic)
                + ")"@,
            ExtractError::Unsupported32Bit => "32-bit iOS binaries are not supported"@,
            ExtractError::NoArm64Slice => "arm64 architecture not found in fat binary"@,
            ExtractError::MissingTextSegment => "__TEXT segment not found"@,
            ExtractError::SymbolsIncomplete(found) => "Only found "@ + decimal(found as nat)
                + " of 4 expected symbols"@,
            ExtractError::MagicScanFailed => "Failed to extract snapshots from any magic byte location"@,
            ExtractError::OffsetOutOfRange => "offset outside the range of file positions"@,
            ExtractError::EmptySnapshot => "snapshot without data"@,
            ExtractError::TruncatedSnapshotHeader => "Not enough data after magic bytes"@,
        }
    }

    /// The error in words.
    pub fn to_text(&self) -> (message: String)
        ensures
            message@ == self.text(),
    {
        match self {
            ExtractError::Stream(e) => e.to_text(),
            ExtractError::BadMagic(magic) => {
                let mut message = String::from_str("Not a valid Mach-O file (magic: 0x");
                push_hex8(&mut message, *magic);
                message.append(")");
                message
            },
            ExtractError::Unsupported32Bit => String::from_str(
                "32-bit iOS binaries are not supported",
            ),
            ExtractError::NoArm64Slice => String::from_str(
                "arm64 architecture not found in fat binary",
            ),
            ExtractError::MissingTextSegment => String::from_str("__TEXT segment not found"),
            ExtractError::SymbolsIncomplete(found) => {
                let mut message = String::from_str("Only found ");
                push_decimal(&mut message, *found as u64);
                message.append(" of 4 expected symbols");
                message
            },
            ExtractError::MagicScanFailed => String::from_str(
                "Failed to extract snapshots from any magic byte location",
            ),
            ExtractError::OffsetOutOfRange => String::from_str(
                "offset outside the range of file positions",
            ),
            ExtractError::EmptySnapshot => String::from_str("snapshot without data"),
            ExtractError::TruncatedSnapshotHeader => String::from_str(
                "Not enough data after magic bytes",
            ),
        }
    }
}

/// What an extraction yielded, with the snapshots as byte sequences.
pub open spec fn outcome(res: Result<DartSnapshots, ExtractError>) -> Result<
    DartSnapshotsView,
    ExtractError,
> {
    match res {
        Ok(snapshots) => Ok(snapshots@),
        Err(e) => Err(e),
    }
}

/// The record of type `T` at `at` in `file`, where `file` holds all of it.
pub open spec fn try_record_at<T: Record>(file: Seq<u8>, at: int) -> Result<T, ExtractError> {
    if available(file, at, T::encoded_len() as int) {
        Ok(record_at::<T>(file, at))
    } else {
        Err(ExtractError::Stream(StreamError::UnexpectedEof))
    }
}

/// Reads the record of type `T` that lies at `at`.
pub fn read_record_at<T: Record, R: ReadSeek>(reader: &mut R, at: u64) -> (res: Result<
    T,
    ExtractError,
>)
    ensures
        old(reader).faithful() ==> {
            &&& final(reader).faithful()
            &&& final(reader).contents() == old(reader).contents()
            &&& res == try_record_at::<T>(old(reader).contents(), at as int)
            &&& res is Ok ==> final(reader).position() == at + T::encoded_len()
        },
{
    match seek_to(reader, at) {
        Ok(()) => {},
        Err(e) => {
            return Err(ExtractError::Stream(e));
        },
    }
    match read_struct::<T, R>(reader) {
        Ok(record) => Ok(record),
        Err(e) => Err(ExtractError::Stream(e)),
    }
}

/// Reads the record of type `T` that lies at the cursor.
pub fn read_next_record<T: Record, R: ReadSeek>(reader: &mut R) -> (res: Result<T, ExtractError>)
    ensures
        old(reader).faithful() ==> {
            &&& final(reader).faithful()
            &&& final(reader).contents() == old(reader).contents()
            &&& res == try_record_at::<T>(old(reader).contents(), old(reader).position() as int)
            &&& res is Ok ==> final(reader).position() == old(reader).position()
                + T::encoded_len()
        },
{
    match read_struct::<T, R>(reader) {
        Ok(record) => Ok(record),
        Err(e) => Err(ExtractError::Stream(e)),
    }
}

/// Reads the `n` bytes that lie at `at`, or as many as the source has there.
pub fn read_window_at<R: ReadSeek>(reader: &mut R, at: u64, n: u64) -> (res: Result<
    Vec<u8>,
    ExtractError,
>)
    ensures
        res matches Ok(bytes) ==> bytes@.len() <= n,
        old(reader).faithful() ==> {
            &&& final(reader).faithful()
            &&& final(reader).contents() == old(reader).contents()
            &&& res matches Ok(bytes)
            &&& bytes@ == window(old(reader).contents(), at as int, n as int)
        },
{
    match seek_to(reader, at) {
        Ok(()) => {},
        Err(e) => {
            return Err(ExtractError::Stream(e));
        },
    }
    match read_up_to(reader, n) {
        Ok(bytes) => Ok(bytes),
        Err(e) => Err(ExtractError::Stream(e)),
    }
}

/// What `res` holds, with the bytes as a sequence.
pub open spec fn bytes_outcome(res: Result<Vec<u8>, ExtractError>) -> Result<
    Seq<u8>,
    ExtractError,
> {
    match res {
        Ok(bytes) => Ok(bytes@),
        Err(e) => Err(e),
    }
}

/// `value`, where a file position can hold it.
pub open spec fn as_position(value: int) -> Option<u64> {
    if 0 <= value <= u64::MAX {
        Some(value as u64)
    } else {
        None
    }
}

/// What the commands of an image that starts at `file_start` yield: what the
/// symbol table yields where there is one with a `__LINKEDIT` segment and it
/// names all four symbols, and what the search for the snapshot magic yields
/// where there is none or it names fewer.  Without a `__TEXT` segment there
/// is nothing to extract.
pub open spec fn choose_method(file: Seq<u8>, file_start: int, commands: LoadCommands) -> Result<
    DartSnapshotsView,
    ExtractError,
> {
    match commands.text {
        None => Err(ExtractError::MissingTextSegment),
        Some(text) => match (commands.symtab, commands.linkedit) {
            (Some(symtab), Some(linkedit)) => match symbol_extraction(
                file,
                file_start,
                symtab,
                linkedit,
                text,
            ) {
                Err(ExtractError::SymbolsIncomplete(_)) => magic_extraction(file, file_start, text),
                other => other,
            },
            _ => magic_extraction(file, file_start, text),
        },
    }
}

/// What the 64-bit Mach-O image that starts at `file_start` yields.
pub open spec fn macho_extraction(file: Seq<u8>, file_start: int) -> Result<
    DartSnapshotsView,
    ExtractError,
> {
    match try_record_at::<MachHeader64>(file, file_start) {
        Err(e) => Err(e),
        Ok(header) => if header.magic != MH_MAGIC_64 {
            Err(ExtractError::BadMagic(header.magic))
        } else if file_start + 32 > u64::MAX {
            Err(ExtractError::OffsetOutOfRange)
        } else {
            match walk(
                file,
                LoadCommands::starting_at((file_start + 32) as u64),
                header.ncmds as nat,
            ) {
                Err(e) => Err(e),
                Ok(commands) => choose_method(file, file_start, commands),
            }
        },
    }
}

/// What the entries `index`, `index + 1`, ... below `count` of a fat
/// container yield: what the image yields that the first arm64 entry points
/// at.
pub open spec fn scan_fat_archs(file: Seq<u8>, reversed: bool, count: u32, index: nat) -> Result<
    DartSnapshotsView,
    ExtractError,
>
    decreases count - index,
{
    if index >= count {
        Err(ExtractError::NoArm64Slice)
    } else {
        match try_record_at::<FatArch>(file, (8 + 20 * index) as int) {
            Err(e) => Err(e),
            Ok(arch) => if in_order(arch.cputype, reversed) == CPU_TYPE_ARM64 {
                macho_extraction(file, in_order(arch.offset, reversed) as int)
            } else {
                scan_fat_archs(file, reversed, count, index + 1)
            },
        }
    }
}

/// What a fat container yields.
pub open spec fn fat_extraction(file: Seq<u8>) -> Result<DartSnapshotsView, ExtractError> {
    match try_record_at::<FatHeader>(file, 0) {
        Err(e) => Err(e),
        Ok(header) => scan_fat_archs(file, header.reversed(), header.spec_arch_count(), 0),
    }
}

/// What the file yields.  Its first four bytes, read most significant first,
/// tell a fat container; read least significant first, a Mach-O image.
pub open spec fn extraction(file: Seq<u8>) -> Result<DartSnapshotsView, ExtractError> {
    if !available(file, 0, 4) {
        Err(ExtractError::Stream(StreamError::UnexpectedEof))
    } else if u32_be(file, 0) == FAT_MAGIC || u32_be(file, 0) == FAT_CIGAM {
        fat_extraction(file)
    } else if u32_le(file, 0) == MH_MAGIC_64 {
        macho_extraction(file, 0)
    } else if u32_le(file, 0) == MH_MAGIC {
        Err(ExtractError::Unsupported32Bit)
    } else {
        Err(ExtractError::BadMagic(u32_le(file, 0)))
    }
}

/// Extracts the snapshots by the method that `commands` allows.
pub fn extract_by_commands<R: ReadSeek>(
    reader: &mut R,
    start_pos: u64,
    commands: &LoadCommands,
) -> (res: Result<DartSnapshots, ExtractError>)
    ensures
        res matches Ok(snapshots) ==> snapshots@.complete(),
        old(reader).faithful() ==> {
            &&& final(reader).faithful()
            &&& final(reader).contents() == old(reader).contents()
            &&& outcome(res) == choose_method(old(reader).contents(), start_pos as int, *commands)
        },
{
    let text = match commands.text {
        Some(text) => text,
        None => {
            return Err(ExtractError::MissingTextSegment);
        },
    };
    match (commands.symtab, commands.linkedit) {
        (Some(symtab), Some(linkedit)) => {
            match extract_via_symbols(reader, start_pos, &symtab, &linkedit, &text) {
                Err(ExtractError::SymbolsIncomplete(_)) => {},
                other => {
                    return other;
                },
            }
        },
        _ => {},
    }
    extract_via_magic(reader, start_pos, &text)
}

/// Extracts the snapshots from the 64-bit Mach-O image that starts at the
/// cursor.
pub fn extract_from_macho64<R: ReadSeek>(reader: &mut R) -> (res: Result<
    DartSnapshots,
    ExtractError,
>)
    ensures
        res matches Ok(snapshots) ==> snapshots@.complete(),
        old(reader).faithful() ==> {
            &&& final(reader).faithful()
            &&& final(reader).contents() == old(reader).contents()
            &&& outcome(res) == macho_extraction(
                old(reader).contents(),
                old(reader).position() as int,
            )
        },
{
    let start_pos: u64 = match stream_position(reader) {
        Ok(at) => at,
        Err(e) => {
            return Err(ExtractError::Stream(e));
        },
    };
    let header = read_next_record::<MachHeader64, R>(reader)?;
    if header.magic != MH_MAGIC_64 {
        return Err(ExtractError::BadMagic(header.magic));
    }
    if start_pos > u64::MAX - 32 {
        return Err(ExtractError::OffsetOutOfRange);
    }
    let commands = walk_load_commands(reader, start_pos + 32, header.ncmds)?;
    extract_by_commands(reader, start_pos, &commands)
}

/// Extracts the snapshots from the arm64 slice of a fat container.
pub fn extract_from_fat_binary<R: ReadSeek>(reader: &mut R) -> (res: Result<
    DartSnapshots,
    ExtractError,
>)
    ensures
        res matches Ok(snapshots) ==> snapshots@.complete(),
        old(reader).faithful() ==> {
            &&& final(reader).faithful()
            &&& final(reader).contents() == old(reader).contents()
            &&& outcome(res) == fat_extraction(old(reader).contents())
        },
{
    let ghost vouched = reader.faithful();
    let ghost file = reader.contents();
    let header = read_record_at::<FatHeader, R>(reader, 0)?;
    let reversed: bool = header.magic == FAT_CIGAM;
    let count: u32 = header.arch_count();
    let mut index: u32 = 0;
    while index < count
        invariant
            index <= count,
            vouched == old(reader).faithful(),
            file == old(reader).contents(),
            vouched ==> {
                &&& reader.faithful()
                &&& reader.contents() == file
                &&& fat_extraction(file) == scan_fat_archs(file, reversed, count, index as nat)
            },
        decreases count - index,
    {
        let arch = read_record_at::<FatArch, R>(reader, 8 + index as u64 * 20)?;
        if restore_order(arch.cputype, reversed) == CPU_TYPE_ARM64 {
            let offset: u32 = restore_order(arch.offset, reversed);
            match seek_to(reader, offset as u64) {
                Ok(()) => {},
                Err(e) => {
                    return Err(ExtractError::Stream(e));
                },
            }
            return extract_from_macho64(reader);
        }
        index = index + 1;
    }
    Err(ExtractError::NoArm64Slice)
}

/// Extracts the four Dart snapshots from an iOS application binary.
///
/// Of a faithful stream the result is `extraction` of its bytes, wherever
/// its cursor stood.  Of any stream, snapshots that are returned are not
/// empty.
pub fn extract_snapshots_from_app<R: ReadSeek>(reader: &mut R) -> (res: Result<
    DartSnapshots,
    ExtractError,
>)
    ensures
        res matches Ok(snapshots) ==> snapshots@.complete(),
        old(reader).faithful() ==> {
            &&& final(reader).faithful()
            &&& final(reader).contents() == old(reader).contents()
            &&& outcome(res) == extraction(old(reader).contents())
        },
{
    match seek_to(reader, 0) {
        Ok(()) => {},
        Err(e) => {
            return Err(ExtractError::Stream(e));
        },
    }
    let magic_bytes = match read_exact(reader, 4) {
        Ok(bytes) => bytes,
        Err(e) => {
            return Err(ExtractError::Stream(e));
        },
    };
    let fat_magic: u32 = read_u32_be(magic_bytes.as_slice(), 0);
    if fat_magic == FAT_MAGIC || fat_magic == FAT_CIGAM {
        return extract_from_fat_binary(reader);
    }
    let magic: u32 = read_u32_le(magic_bytes.as_slice(), 0);
    if magic == MH_MAGIC_64 {
        match seek_to(reader, 0) {
            Ok(()) => {},
            Err(e) => {
                return Err(ExtractError::Stream(e));
            },
        }
        extract_from_macho64(reader)
    } else if magic == MH_MAGIC {
        Err(ExtractError::Unsupported32Bit)
    } else {
        Err(ExtractError::BadMagic(magic))
    }
}



} // verus!
