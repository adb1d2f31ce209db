//! Extraction by the symbol table: the four snapshot symbols, where they
//! lie in the file, and the bytes between them.

use crate::bytes::{bytes_equal, c_string, get_string_from_table};
use crate::ios_snapshot_parser::{
    as_position, bytes_outcome, outcome, read_next_record, read_window_at, try_record_at,
    DartSnapshots, DartSnapshotsView, ExtractError,
};
use crate::macho::{Nlist64, SegmentCommand64, SymtabCommand};
use crate::magic_scan::{cut_at_zero_run, trim_at_zero_run};
use crate::stream::{available, read_exact, seek_to, window, ReadSeek, StreamError};
use vstd::prelude::*;
use vstd::string::StringSliceAdditionalSpecFns;

verus! {

/// Name of the symbol at which the VM snapshot's data starts.
pub const VM_DATA_SYMBOL: &'static str = "_kDartVmSnapshotData";

/// Name of the symbol at which the VM snapshot's instructions start.
pub const VM_INSTRUCTIONS_SYMBOL: &'static str = "_kDartVmSnapshotInstructions";

/// Name of the symbol at which the isolate snapshot's data starts.
pub const ISOLATE_DATA_SYMBOL: &'static str = "_kDartIsolateSnapshotData";

/// Name of the symbol at which the isolate snapshot's instructions start.
pub const ISOLATE_INSTRUCTIONS_SYMBOL: &'static str = "_kDartIsolateSnapshotInstructions";

/// The snapshot symbols that a symbol table names.
#[derive(Clone, Copy, Debug, PartialEq, Eq)]
pub struct SnapshotSymbols {
    pub vm_data: Option<Nlist64>,
    pub vm_instructions: Option<Nlist64>,
    pub isolate_data: Option<Nlist64>,
    pub isolate_instructions: Option<Nlist64>,
}

impl SnapshotSymbols {
    /// No symbol found yet.
    pub open spec fn spec_new() -> SnapshotSymbols {
        SnapshotSymbols {
            vm_data: None,
            vm_instructions: None,
            isolate_data: None,
            isolate_instructions: None,
        }
    }

    /// The number of the four symbols that were found.
    pub open spec fn spec_count(self) -> nat {
        (if self.vm_data is Some {
            1nat
        } else {
            0nat
        }) + (if self.vm_instructions is Some {
            1nat
        } else {
            0nat
        }) + (if self.isolate_data is Some {
            1nat
        } else {
            0nat
        }) + (if self.isolate_instructions is Some {
            1nat
        } else {
            0nat
        })
    }

    /// The symbols after `symbol` has been looked at: where its name, the
    /// zero-terminated string at `n_strx` in `strtab`, is one of the four,
    /// `symbol` takes that place, whatever stood there before.  A symbol
    /// whose `n_strx` is zero or lies outside `strtab` changes nothing.
    pub open spec fn with_symbol(self, strtab: Seq<u8>, symbol: Nlist64) -> SnapshotSymbols {
        let name = c_string(strtab, symbol.n_strx as int);
        if symbol.n_strx == 0 || symbol.n_strx >= strtab.len() {
            self
        } else if name == VM_DATA_SYMBOL.spec_bytes() {
            SnapshotSymbols { vm_data: Some(symbol), ..self }
        } else if name == VM_INSTRUCTIONS_SYMBOL.spec_bytes() {
            SnapshotSymbols { vm_instructions: Some(symbol), ..self }
        } else if name == ISOLATE_DATA_SYMBOL.spec_bytes() {
            SnapshotSymbols { isolate_data: Some(symbol), ..self }
        } else if name == ISOLATE_INSTRUCTIONS_SYMBOL.spec_bytes() {
            SnapshotSymbols { isolate_instructions: Some(symbol), ..self }
        } else {
            self
        }
    }

    /// No symbol found yet.
    pub fn new() -> (symbols: SnapshotSymbols)
        ensures
            symbols == SnapshotSymbols::spec_new(),
    {
        SnapshotSymbols {
            vm_data: None,
            vm_instructions: None,
            isolate_data: None,
            isolate_instructions: None,
        }
    }

    /// The number of the four symbols that were found.
    pub fn count(&self) -> (n: u32)
        ensures
            n == self.spec_count(),
            n <= 4,
    {
        let mut n: u32 = 0;
        if self.vm_data.is_some() {
            n = n + 1;
        }
        if self.vm_instructions.is_some() {
            n = n + 1;
        }
        if self.isolate_data.is_some() {
            n = n + 1;
        }
        if self.isolate_instructions.is_some() {
            n = n + 1;
        }
        n
    }

    /// Looks at one entry of the symbol table.
    pub fn record(&mut self, strtab: &[u8], symbol: &Nlist64)
        ensures
            *final(self) == old(self).with_symbol(strtab@, *symbol),
    {
        let at: usize = symbol.n_strx as usize;
        if symbol.n_strx == 0 || at >= strtab.len() {
            return ;
        }
        let name = get_string_from_table(strtab, at);
        if bytes_equal(name, VM_DATA_SYMBOL.as_bytes()) {
            self.vm_data = Some(*symbol);
        } else if bytes_equal(name, VM_INSTRUCTIONS_SYMBOL.as_bytes()) {
            self.vm_instructions = Some(*symbol);
        } else if bytes_equal(name, ISOLATE_DATA_SYMBOL.as_bytes()) {
            self.isolate_data = Some(*symbol);
        } else if bytes_equal(name, ISOLATE_INSTRUCTIONS_SYMBOL.as_bytes()) {
            self.isolate_instructions = Some(*symbol);
        }
    }
}


/// Where a table of `__LINKEDIT` lies in the file: `table_off` taken from
/// the segment's start in memory and added to the segment's start in the
/// file, for an image that starts at `file_start`.
pub open spec fn linkedit_table_offset(
    file_start: int,
    linkedit: SegmentCommand64,
    table_off: u32,
) -> int {
    file_start + linkedit.fileoff + (table_off - linkedit.vmaddr)
}

/// Where the symbol at virtual address `n_value` lies in the file, for an
/// image that starts at `file_start` and whose `__TEXT` segment is `text`.
pub open spec fn symbol_file_offset(file_start: int, n_value: u64, text: SegmentCommand64) -> int {
    file_start + (n_value - text.vmaddr) + text.fileoff
}

/// Where a table of `__LINKEDIT` lies in the file; `None` where that is no
/// file position.
pub fn table_offset(file_start: u64, linkedit: &SegmentCommand64, table_off: u32) -> (at: Option<
    u64,
>)
    ensures
        at == as_position(linkedit_table_offset(file_start as int, *linkedit, table_off)),
{
    let up: u128 = file_start as u128 + linkedit.fileoff as u128 + table_off as u128;
    let down: u128 = linkedit.vmaddr as u128;
    if up < down || up - down > u64::MAX as u128 {
        None
    } else {
        Some((up - down) as u64)
    }
}

/// Where the symbol at virtual address `n_value` lies in the file; `None`
/// where that is no file position.
pub fn symbol_offset(file_start: u64, n_value: u64, text: &SegmentCommand64) -> (at: Option<u64>)
    ensures
        at == as_position(symbol_file_offset(file_start as int, n_value, *text)),
        at matches Some(offset) ==> offset == file_start + (n_value - text.vmaddr) + text.fileoff,
{
    let up: u128 = file_start as u128 + n_value as u128 + text.fileoff as u128;
    let down: u128 = text.vmaddr as u128;
    if up < down || up - down > u64::MAX as u128 {
        None
    } else {
        Some((up - down) as u64)
    }
}

/// The number of bytes read for a symbol whose successor is not known.
pub const DEFAULT_SYMBOL_SIZE: u64 = 0x10_0000;

/// The most bytes read for the last of the four symbols.
pub const ESTIMATE_LIMIT: u64 = 0x80_0000;

/// The number of bytes that belong to a symbol: the distance to the address
/// of the one that follows it.
pub open spec fn symbol_size(n_value: u64, next_addr: Option<u64>) -> int {
    match next_addr {
        Some(next) => next - n_value,
        None => DEFAULT_SYMBOL_SIZE as int,
    }
}

/// The bytes of the symbol at `n_value`: those from its place in the file up
/// to the place of the symbol that follows it, as far as the file reaches.
pub open spec fn symbol_data(
    file: Seq<u8>,
    file_start: int,
    text: SegmentCommand64,
    n_value: u64,
    next_addr: Option<u64>,
) -> Result<Seq<u8>, ExtractError> {
    let at = symbol_file_offset(file_start, n_value, text);
    let size = symbol_size(n_value, next_addr);
    if as_position(at) is None || as_position(size) is None {
        Err(ExtractError::OffsetOutOfRange)
    } else {
        Ok(window(file, at, size))
    }
}

/// The bytes of the symbol at `n_value` where no symbol is known to follow
/// it: up to `ESTIMATE_LIMIT` bytes from its place in the file, cut at the
/// first zero window.
pub open spec fn symbol_data_estimated(
    file: Seq<u8>,
    file_start: int,
    text: SegmentCommand64,
    n_value: u64,
) -> Result<Seq<u8>, ExtractError> {
    let at = symbol_file_offset(file_start, n_value, text);
    if as_position(at) is None {
        Err(ExtractError::OffsetOutOfRange)
    } else {
        Ok(cut_at_zero_run(window(file, at, ESTIMATE_LIMIT as int)))
    }
}

/// Reads the bytes of `symbol`, which end where the symbol at `next_addr`
/// starts.
pub fn extract_symbol_data<R: ReadSeek>(
    reader: &mut R,
    symbol: &Nlist64,
    next_addr: &Option<u64>,
    text: &SegmentCommand64,
    file_start: u64,
) -> (res: Result<Vec<u8>, ExtractError>)
    ensures
        old(reader).faithful() ==> {
            &&& final(reader).faithful()
            &&& final(reader).contents() == old(reader).contents()
            &&& bytes_outcome(res) == symbol_data(
                old(reader).contents(),
                file_start as int,
                *text,
                symbol.n_value,
                *next_addr,
            )
        },
{
    let at: u64 = match symbol_offset(file_start, symbol.n_value, text) {
        Some(at) => at,
        None => {
            return Err(ExtractError::OffsetOutOfRange);
        },
    };
    let size: u64 = match next_addr {
        Some(next) => {
            if *next < symbol.n_value {
                return Err(ExtractError::OffsetOutOfRange);
            }
            *next - symbol.n_value
        },
        None => DEFAULT_SYMBOL_SIZE,
    };
    read_window_at(reader, at, size)
}

/// Reads the bytes of `symbol`, the last of the four, whose end no symbol
/// marks.
pub fn extract_symbol_data_estimated<R: ReadSeek>(
    reader: &mut R,
    symbol: &Nlist64,
    text: &SegmentCommand64,
    file_start: u64,
) -> (res: Result<Vec<u8>, ExtractError>)
    ensures
        old(reader).faithful() ==> {
            &&& final(reader).faithful()
            &&& final(reader).contents() == old(reader).contents()
            &&& bytes_outcome(res) == symbol_data_estimated(
                old(reader).contents(),
                file_start as int,
                *text,
                symbol.n_value,
            )
        },
{
    let at: u64 = match symbol_offset(file_start, symbol.n_value, text) {
        Some(at) => at,
        None => {
            return Err(ExtractError::OffsetOutOfRange);
        },
    };
    let data = read_window_at(reader, at, ESTIMATE_LIMIT)?;
    Ok(trim_at_zero_run(data))
}


/// The snapshot symbols that the entries `done`, `done + 1`, ... below
/// `nsyms` of the symbol table at `sym_off` add to `found`.  The scan fails
/// where the file ends before an entry does.
pub open spec fn scan_symbols(
    file: Seq<u8>,
    sym_off: int,
    strtab: Seq<u8>,
    nsyms: nat,
    done: nat,
    found: SnapshotSymbols,
) -> Result<SnapshotSymbols, ExtractError>
    decreases nsyms - done,
{
    if done >= nsyms {
        Ok(found)
    } else {
        match try_record_at::<Nlist64>(file, sym_off + 16 * done) {
            Err(e) => Err(e),
            Ok(symbol) => scan_symbols(
                file,
                sym_off,
                strtab,
                nsyms,
                done + 1,
                found.with_symbol(strtab, symbol),
            ),
        }
    }
}

/// The four snapshots cut out at the addresses of `found`, each ending where
/// the next starts, the last by estimate.  All four symbols must have been
/// found, and none of the snapshots may be empty.
pub open spec fn snapshots_of_symbols(
    file: Seq<u8>,
    file_start: int,
    text: SegmentCommand64,
    found: SnapshotSymbols,
) -> Result<DartSnapshotsView, ExtractError> {
    if found.spec_count() != 4 {
        Err(ExtractError::SymbolsIncomplete(found.spec_count() as u32))
    } else {
        cut_at_symbols(file, file_start, text, found)
    }
}

/// The four snapshots cut out at the addresses of `found`, where all four
/// symbols have been found.
pub open spec fn cut_at_symbols(
    file: Seq<u8>,
    file_start: int,
    text: SegmentCommand64,
    found: SnapshotSymbols,
) -> Result<DartSnapshotsView, ExtractError> {
    let vm_data = found.vm_data->0.n_value;
    let vm_instructions = found.vm_instructions->0.n_value;
    let isolate_data = found.isolate_data->0.n_value;
    let isolate_instructions = found.isolate_instructions->0.n_value;
    match symbol_data(file, file_start, text, vm_data, Some(vm_instructions)) {
        Err(e) => Err(e),
        Ok(first) => match symbol_data(
            file,
            file_start,
            text,
            vm_instructions,
            Some(isolate_data),
        ) {
            Err(e) => Err(e),
            Ok(second) => match symbol_data(
                file,
                file_start,
                text,
                isolate_data,
                Some(isolate_instructions),
            ) {
                Err(e) => Err(e),
                Ok(third) => match symbol_data_estimated(
                    file,
                    file_start,
                    text,
                    isolate_instructions,
                ) {
                    Err(e) => Err(e),
                    Ok(fourth) => {
                        let snapshots = DartSnapshotsView {
                            vm_data: first,
                            vm_instructions: second,
                            isolate_data: third,
                            isolate_instructions: fourth,
                        };
                        if snapshots.complete() {
                            Ok(snapshots)
                        } else {
                            Err(ExtractError::EmptySnapshot)
                        }
                    },
                },
            },
        },
    }
}

/// What the symbol table yields, for an image that starts at `file_start`:
/// the four snapshots, where the table names all four symbols.
pub open spec fn symbol_extraction(
    file: Seq<u8>,
    file_start: int,
    symtab: SymtabCommand,
    linkedit: SegmentCommand64,
    text: SegmentCommand64,
) -> Result<DartSnapshotsView, ExtractError> {
    let sym_off = linkedit_table_offset(file_start, linkedit, symtab.symoff);
    let str_off = linkedit_table_offset(file_start, linkedit, symtab.stroff);
    if as_position(sym_off) is None || as_position(str_off) is None {
        Err(ExtractError::OffsetOutOfRange)
    } else if !available(file, str_off, symtab.strsize as int) {
        Err(ExtractError::Stream(StreamError::UnexpectedEof))
    } else {
        match scan_symbols(
            file,
            sym_off,
            window(file, str_off, symtab.strsize as int),
            symtab.nsyms as nat,
            0,
            SnapshotSymbols::spec_new(),
        ) {
            Err(e) => Err(e),
            Ok(found) => snapshots_of_symbols(file, file_start, text, found),
        }
    }
}

/// Looks at the `nsyms` entries of the symbol table at `sym_off`, in order.
pub fn scan_symbol_table<R: ReadSeek>(
    reader: &mut R,
    sym_off: u64,
    strtab: &[u8],
    nsyms: u32,
) -> (res: Result<SnapshotSymbols, ExtractError>)
    ensures
        old(reader).faithful() ==> {
            &&& final(reader).faithful()
            &&& final(reader).contents() == old(reader).contents()
            &&& res == scan_symbols(
                old(reader).contents(),
                sym_off as int,
                strtab@,
                nsyms as nat,
                0,
                SnapshotSymbols::spec_new(),
            )
        },
{
    let ghost vouched = reader.faithful();
    let ghost file = reader.contents();
    match seek_to(reader, sym_off) {
        Ok(()) => {},
        Err(e) => {
            return Err(ExtractError::Stream(e));
        },
    }
    let mut found = SnapshotSymbols::new();
    let mut done: u32 = 0;
    while done < nsyms
        invariant
            done <= nsyms,
            vouched == old(reader).faithful(),
            file == old(reader).contents(),
            vouched ==> {
                &&& reader.faithful()
                &&& reader.contents() == file
                &&& reader.position() == sym_off + 16 * done
                &&& scan_symbols(
                    file,
                    sym_off as int,
                    strtab@,
                    nsyms as nat,
                    0,
                    SnapshotSymbols::spec_new(),
                ) == scan_symbols(file, sym_off as int, strtab@, nsyms as nat, done as nat, found)
            },
        decreases nsyms - done,
    {
        let symbol = read_next_record::<Nlist64, R>(reader)?;
        found.record(strtab, &symbol);
        done = done + 1;
    }
    Ok(found)
}

/// Reads the four snapshots at the addresses of `found`.
pub fn read_snapshots_of_symbols<R: ReadSeek>(
    reader: &mut R,
    file_start: u64,
    text: &SegmentCommand64,
    found: &SnapshotSymbols,
) -> (res: Result<DartSnapshots, ExtractError>)
    ensures
        res matches Ok(snapshots) ==> snapshots@.complete(),
        old(reader).faithful() ==> {
            &&& final(reader).faithful()
            &&& final(reader).contents() == old(reader).contents()
            &&& outcome(res) == snapshots_of_symbols(
                old(reader).contents(),
                file_start as int,
                *text,
                *found,
            )
        },
{
    let count = found.count();
    let (vm_data, vm_instructions, isolate_data, isolate_instructions) = match (
        found.vm_data,
        found.vm_instructions,
        found.isolate_data,
        found.isolate_instructions,
    ) {
        (Some(a), Some(b), Some(c), Some(d)) => (a, b, c, d),
        _ => {
            return Err(ExtractError::SymbolsIncomplete(count));
        },
    };
    let first = extract_symbol_data(
        reader,
        &vm_data,
        &Some(vm_instructions.n_value),
        text,
        file_start,
    )?;
    let second = extract_symbol_data(
        reader,
        &vm_instructions,
        &Some(isolate_data.n_value),
        text,
        file_start,
    )?;
    let third = extract_symbol_data(
        reader,
        &isolate_data,
        &Some(isolate_instructions.n_value),
        text,
        file_start,
    )?;
    let fourth = extract_symbol_data_estimated(reader, &isolate_instructions, text, file_start)?;
    if first.len() == 0 || second.len() == 0 || third.len() == 0 || fourth.len() == 0 {
        return Err(ExtractError::EmptySnapshot);
    }
    Ok(
        DartSnapshots {
            vm_data: first,
            vm_instructions: second,
            isolate_data: third,
            isolate_instructions: fourth,
        },
    )
}

/// Extracts the snapshots by the symbol table `symtab` of an image that
/// starts at `start_pos`.
pub fn extract_via_symbols<R: ReadSeek>(
    reader: &mut R,
    start_pos: u64,
    symtab: &SymtabCommand,
    linkedit: &SegmentCommand64,
    text: &SegmentCommand64,
) -> (res: Result<DartSnapshots, ExtractError>)
    ensures
        res matches Ok(snapshots) ==> snapshots@.complete(),
        old(reader).faithful() ==> {
            &&& final(reader).faithful()
            &&& final(reader).contents() == old(reader).contents()
            &&& outcome(res) == symbol_extraction(
                old(reader).contents(),
                start_pos as int,
                *symtab,
                *linkedit,
                *text,
            )
        },
{
    let symtab_offset: u64 = match table_offset(start_pos, linkedit, symtab.symoff) {
        Some(at) => at,
        None => {
            return Err(ExtractError::OffsetOutOfRange);
        },
    };
    let strtab_offset: u64 = match table_offset(start_pos, linkedit, symtab.stroff) {
        Some(at) => at,
        None => {
            return Err(ExtractError::OffsetOutOfRange);
        },
    };
    match seek_to(reader, strtab_offset) {
        Ok(()) => {},
        Err(e) => {
            return Err(ExtractError::Stream(e));
        },
    }
    let strtab = match read_exact(reader, symtab.strsize as usize) {
        Ok(bytes) => bytes,
        Err(e) => {
            return Err(ExtractError::Stream(e));
        },
    };
    let found = scan_symbol_table(reader, symtab_offset, strtab.as_slice(), symtab.nsyms)?;
    read_snapshots_of_symbols(reader, start_pos, text, &found)
}

} // verus!
