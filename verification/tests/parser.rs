use library_network::ios_snapshot_parser::{
    extract_from_fat_binary, extract_from_macho64, extract_snapshots_at_magic_offset,
    extract_snapshots_from_app, extract_symbol_data, extract_symbol_data_estimated,
    extract_via_magic, extract_via_symbols, find_section_end, find_zero_window, magic_at,
    scan_for_snapshots, scan_symbol_table, symbol_offset, table_offset, trim_at_zero_run,
    walk_load_commands, zero_window_at, DartSnapshots, ExtractError, SnapshotSymbols,
};
use library_network::load_commands::read_sections;
use library_network::macho::{
    read_struct, FatArch, FatHeader, LoadCommand, MachHeader64, Nlist64, Record, Section64,
    SegmentCommand64, SymtabCommand,
};
use library_network::magic_scan::{read_snapshot_header, SnapshotHeader};
use library_network::{
    CFileProvider, ExternalFileProvider, FileCallbacks, MemoryStream, ReadSeek, SeekFrom,
    StreamError,
};
use std::cell::RefCell;
use std::rc::Rc;

const VM_DATA: &str = "_kDartVmSnapshotData";
const VM_INSTRUCTIONS: &str = "_kDartVmSnapshotInstructions";
const ISOLATE_DATA: &str = "_kDartIsolateSnapshotData";
const ISOLATE_INSTRUCTIONS: &str = "_kDartIsolateSnapshotInstructions";

fn put_u32(out: &mut Vec<u8>, value: u32) {
    out.extend_from_slice(&value.to_le_bytes());
}

fn put_u64(out: &mut Vec<u8>, value: u64) {
    out.extend_from_slice(&value.to_le_bytes());
}

fn mach_header(ncmds: u32, sizeofcmds: u32) -> Vec<u8> {
    let mut out = Vec::new();
    put_u32(&mut out, 0xfeedfacf);
    put_u32(&mut out, 0x0100000c);
    put_u32(&mut out, 0);
    put_u32(&mut out, 2);
    put_u32(&mut out, ncmds);
    put_u32(&mut out, sizeofcmds);
    put_u32(&mut out, 0);
    put_u32(&mut out, 0);
    out
}

fn segment(name: &str, vmaddr: u64, fileoff: u64, filesize: u64) -> Vec<u8> {
    let mut out = Vec::new();
    put_u32(&mut out, 0x19);
    put_u32(&mut out, 72);
    let mut segname = [0u8; 16];
    segname[..name.len()].copy_from_slice(name.as_bytes());
    out.extend_from_slice(&segname);
    put_u64(&mut out, vmaddr);
    put_u64(&mut out, filesize);
    put_u64(&mut out, fileoff);
    put_u64(&mut out, filesize);
    put_u32(&mut out, 7);
    put_u32(&mut out, 5);
    put_u32(&mut out, 0);
    put_u32(&mut out, 0);
    out
}

fn symtab(symoff: u32, nsyms: u32, stroff: u32, strsize: u32) -> Vec<u8> {
    let mut out = Vec::new();
    put_u32(&mut out, 0x02);
    put_u32(&mut out, 24);
    put_u32(&mut out, symoff);
    put_u32(&mut out, nsyms);
    put_u32(&mut out, stroff);
    put_u32(&mut out, strsize);
    out
}

fn other_command(cmd: u32, cmdsize: u32) -> Vec<u8> {
    let mut out = Vec::new();
    put_u32(&mut out, cmd);
    put_u32(&mut out, cmdsize);
    out.resize(cmdsize as usize, 0xee);
    out
}

fn nlist(n_strx: u32, n_value: u64) -> Vec<u8> {
    let mut out = Vec::new();
    put_u32(&mut out, n_strx);
    out.push(0x0f);
    out.push(1);
    out.extend_from_slice(&0u16.to_le_bytes());
    put_u64(&mut out, n_value);
    out
}

fn place(image: &mut Vec<u8>, at: usize, bytes: &[u8]) {
    if image.len() < at + bytes.len() {
        image.resize(at + bytes.len(), 0);
    }
    image[at..at + bytes.len()].copy_from_slice(bytes);
}

fn pattern(at: usize) -> u8 {
    (at % 251) as u8 + 1
}

// A 64-bit image with `__TEXT` at virtual address 0x1000 and file offset 0,
// `__LINKEDIT` at file offset 0x4000, and the symbols that `names` lists with
// their addresses.  The bytes from 0x100 up to 0x2800 are not zero, those
// from 0x2800 up to 0x4000 are.
fn symbolic_image(names: &[(&str, u64)]) -> Vec<u8> {
    let mut strtab: Vec<u8> = vec![0];
    let mut symbols: Vec<u8> = Vec::new();
    symbols.extend_from_slice(&nlist(0, 0x9999));
    for (name, value) in names {
        symbols.extend_from_slice(&nlist(strtab.len() as u32, *value));
        strtab.extend_from_slice(name.as_bytes());
        strtab.push(0);
    }
    let nsyms = names.len() as u32 + 1;
    let stroff = symbols.len() as u32;
    let mut image = mach_header(4, 72 + 72 + 16 + 24);
    image.extend_from_slice(&segment("__TEXT", 0x1000, 0, 0x4000));
    image.extend_from_slice(&other_command(0x32, 16));
    image.extend_from_slice(&segment("__LINKEDIT", 0, 0x4000, 0x1000));
    image.extend_from_slice(&symtab(0, nsyms, stroff, strtab.len() as u32));
    assert!(image.len() <= 0x100);
    image.resize(0x4000, 0);
    for at in 0x100..0x2800 {
        image[at] = pattern(at);
    }
    image.extend_from_slice(&symbols);
    image.extend_from_slice(&strtab);
    image
}

fn four_symbols() -> Vec<(&'static str, u64)> {
    vec![
        (VM_DATA, 0x1100),
        (VM_INSTRUCTIONS, 0x1300),
        (ISOLATE_DATA, 0x2000),
        (ISOLATE_INSTRUCTIONS, 0x3000),
    ]
}

// A stripped 64-bit image whose `__TEXT` holds the snapshot magic at 0x2000,
// followed by `payload` bytes that are not zero and then by zeros.
fn stripped_image(payload: usize, zeros: usize) -> Vec<u8> {
    let total = 0x2000 + 16 + payload + zeros;
    let mut image = mach_header(1, 72);
    image.extend_from_slice(&segment("__TEXT", 0x1_0000_0000, 0, total as u64));
    image.resize(0x2000, 0);
    image.extend_from_slice(&[0xf5, 0xf5, 0xdc, 0xdc]);
    put_u32(&mut image, 0x11);
    put_u32(&mut image, 0x22);
    put_u32(&mut image, 0x33);
    for at in 0..payload {
        image.push(pattern(at));
    }
    image.resize(total, 0);
    image
}

fn fat_arch_be(cputype: u32, offset: u32, size: u32) -> Vec<u8> {
    let mut out = Vec::new();
    out.extend_from_slice(&cputype.to_be_bytes());
    out.extend_from_slice(&0u32.to_be_bytes());
    out.extend_from_slice(&offset.to_be_bytes());
    out.extend_from_slice(&size.to_be_bytes());
    out.extend_from_slice(&14u32.to_be_bytes());
    out
}

fn fat_arch_le(cputype: u32, offset: u32, size: u32) -> Vec<u8> {
    let mut out = Vec::new();
    put_u32(&mut out, cputype);
    put_u32(&mut out, 0);
    put_u32(&mut out, offset);
    put_u32(&mut out, size);
    put_u32(&mut out, 14);
    out
}

fn extract(image: Vec<u8>) -> Result<DartSnapshots, ExtractError> {
    let mut stream = MemoryStream::new(image);
    extract_snapshots_from_app(&mut stream)
}

fn expected_symbolic(image: &[u8], base: usize) -> DartSnapshots {
    DartSnapshots {
        vm_data: image[base + 0x100..base + 0x300].to_vec(),
        vm_instructions: image[base + 0x300..base + 0x1000].to_vec(),
        isolate_data: image[base + 0x1000..base + 0x2000].to_vec(),
        isolate_instructions: image[base + 0x2000..base + 0x2800].to_vec(),
    }
}

#[test]
fn flat_symbolic_binary_yields_the_four_symbol_ranges() {
    let image = symbolic_image(&four_symbols());
    let snapshots = extract(image.clone()).unwrap();
    assert_eq!(snapshots.vm_data.len(), 0x200);
    assert_eq!(snapshots.vm_instructions.len(), 0xd00);
    assert_eq!(snapshots.isolate_data.len(), 0x1000);
    assert_eq!(snapshots.isolate_instructions.len(), 0x800);
    assert_eq!(snapshots, expected_symbolic(&image, 0));
}

#[test]
fn symbols_are_found_in_any_order() {
    let mut names = four_symbols();
    names.reverse();
    names.insert(2, ("_main", 0x1010));
    let image = symbolic_image(&names);
    assert_eq!(extract(image.clone()).unwrap(), expected_symbolic(&image, 0));
}

#[test]
fn later_symbol_of_the_same_name_wins() {
    let mut names = vec![(VM_DATA, 0x1200)];
    names.extend(four_symbols());
    let image = symbolic_image(&names);
    assert_eq!(extract(image.clone()).unwrap(), expected_symbolic(&image, 0));
}

#[test]
fn fat_big_endian_binary_anchors_at_the_arm64_slice() {
    let slice = symbolic_image(&four_symbols());
    let mut image = vec![0xca, 0xfe, 0xba, 0xbe, 0x00, 0x00, 0x00, 0x02];
    image.extend_from_slice(&fat_arch_be(0x01000007, 0x1000, 0x100));
    image.extend_from_slice(&fat_arch_be(0x0100000c, 0x4000, slice.len() as u32));
    place(&mut image, 0x1000, &mach_header(0, 0));
    place(&mut image, 0x4000, &slice);
    let snapshots = extract(image.clone()).unwrap();
    assert_eq!(snapshots, expected_symbolic(&image, 0x4000));
    assert_eq!(snapshots.vm_data, slice[0x100..0x300].to_vec());
}

#[test]
fn fat_little_endian_binary_is_read_without_swapping() {
    let slice = symbolic_image(&four_symbols());
    let mut image = vec![0xbe, 0xba, 0xfe, 0xca, 0x01, 0x00, 0x00, 0x00];
    image.extend_from_slice(&fat_arch_le(0x0100000c, 0x800, slice.len() as u32));
    place(&mut image, 0x800, &slice);
    assert_eq!(extract(image.clone()).unwrap(), expected_symbolic(&image, 0x800));
}

#[test]
fn fat_binary_takes_the_first_arm64_slice() {
    let slice = symbolic_image(&four_symbols());
    let mut image = vec![0xca, 0xfe, 0xba, 0xbe, 0x00, 0x00, 0x00, 0x02];
    image.extend_from_slice(&fat_arch_be(0x0100000c, 0x1000, 0x100));
    image.extend_from_slice(&fat_arch_be(0x0100000c, 0x4000, slice.len() as u32));
    place(&mut image, 0x4000, &slice);
    place(&mut image, 0x1000, &[0xaa; 32]);
    assert_eq!(extract(image), Err(ExtractError::BadMagic(0xaaaaaaaa)));
}

#[test]
fn fat_binary_without_arm64_fails() {
    let mut image = vec![0xca, 0xfe, 0xba, 0xbe, 0x00, 0x00, 0x00, 0x01];
    image.extend_from_slice(&fat_arch_be(0x01000007, 0x1000, 0x100));
    place(&mut image, 0x1000, &symbolic_image(&four_symbols()));
    assert_eq!(extract(image), Err(ExtractError::NoArm64Slice));
    assert_eq!(
        ExtractError::NoArm64Slice.to_text(),
        "arm64 architecture not found in fat binary"
    );
}

#[test]
fn fat_binary_without_entries_fails() {
    let image = vec![0xca, 0xfe, 0xba, 0xbe, 0x00, 0x00, 0x00, 0x00];
    assert_eq!(extract(image), Err(ExtractError::NoArm64Slice));
}

#[test]
fn fat_binary_with_a_missing_entry_fails() {
    let mut image = vec![0xca, 0xfe, 0xba, 0xbe, 0x00, 0x00, 0x00, 0x02];
    image.extend_from_slice(&fat_arch_be(0x01000007, 0x1000, 0x100));
    assert_eq!(extract(image), Err(ExtractError::Stream(StreamError::UnexpectedEof)));
    let image = vec![0xca, 0xfe, 0xba, 0xbe, 0x00];
    assert_eq!(extract(image), Err(ExtractError::Stream(StreamError::UnexpectedEof)));
}

#[test]
fn thirty_two_bit_binary_is_rejected() {
    let mut image = vec![0xce, 0xfa, 0xed, 0xfe];
    image.resize(0x1000, 0);
    assert_eq!(extract(image), Err(ExtractError::Unsupported32Bit));
    assert_eq!(extract(vec![0xce, 0xfa, 0xed, 0xfe]), Err(ExtractError::Unsupported32Bit));
    assert_eq!(
        ExtractError::Unsupported32Bit.to_text(),
        "32-bit iOS binaries are not supported"
    );
}

#[test]
fn thirty_two_bit_binary_is_not_read_further() {
    let calls = Rc::new(RefCell::new(Vec::new()));
    let mut image = vec![0xce, 0xfa, 0xed, 0xfe];
    image.resize(0x100, 0);
    let provider = CFileProvider::new(HostFile::new(image, calls.clone()));
    let mut stream = provider.open().unwrap();
    assert_eq!(extract_snapshots_from_app(&mut stream), Err(ExtractError::Unsupported32Bit));
    stream.close();
    let reads: usize = calls.borrow().iter().filter(|call| call.starts_with("read")).count();
    assert_eq!(reads, 1);
}

#[test]
fn unknown_magic_is_rejected() {
    assert_eq!(extract(vec![1, 2, 3, 4, 5]), Err(ExtractError::BadMagic(0x04030201)));
    assert_eq!(
        ExtractError::BadMagic(0x04030201).to_text(),
        "Not a valid Mach-O file (magic: 0x04030201)"
    );
    assert_eq!(
        ExtractError::BadMagic(0xdeadbeef).to_text(),
        "Not a valid Mach-O file (magic: 0xdeadbeef)"
    );
}

#[test]
fn short_file_is_rejected() {
    assert_eq!(extract(vec![]), Err(ExtractError::Stream(StreamError::UnexpectedEof)));
    assert_eq!(
        extract(vec![0xcf, 0xfa, 0xed]),
        Err(ExtractError::Stream(StreamError::UnexpectedEof))
    );
    assert_eq!(
        extract(vec![0xcf, 0xfa, 0xed, 0xfe, 0, 0]),
        Err(ExtractError::Stream(StreamError::UnexpectedEof))
    );
}

#[test]
fn missing_text_segment_fails() {
    let mut image = mach_header(1, 72);
    image.extend_from_slice(&segment("__DATA", 0x1000, 0, 0x100));
    assert_eq!(extract(image), Err(ExtractError::MissingTextSegment));
    assert_eq!(extract(mach_header(0, 0)), Err(ExtractError::MissingTextSegment));
    assert_eq!(ExtractError::MissingTextSegment.to_text(), "__TEXT segment not found");
}

#[test]
fn truncated_load_commands_fail() {
    let mut image = mach_header(2, 144);
    image.extend_from_slice(&segment("__TEXT", 0x1000, 0, 0x100));
    assert_eq!(extract(image.clone()), Err(ExtractError::Stream(StreamError::UnexpectedEof)));
    image.extend_from_slice(&[0x19, 0, 0, 0, 72, 0, 0, 0, 1, 2, 3]);
    assert_eq!(extract(image), Err(ExtractError::Stream(StreamError::UnexpectedEof)));
}

#[test]
fn stripped_binary_falls_back_to_the_magic_scan() {
    let image = stripped_image(0x1c0000, 1024);
    let snapshots = extract(image.clone()).unwrap();
    assert_eq!(snapshots.vm_data.len(), 0x70000);
    assert_eq!(snapshots.vm_instructions.len(), 0x70000);
    assert_eq!(snapshots.isolate_data.len(), 0x70000);
    assert_eq!(snapshots.isolate_instructions.len(), 0x70000);
    let start = 0x2000 + 16;
    assert_eq!(snapshots.vm_data, image[start..start + 0x70000].to_vec());
    assert_eq!(snapshots.isolate_instructions, image[start + 0x150000..start + 0x1c0000].to_vec());
}

#[test]
fn missing_symbols_fall_back_to_the_magic_scan() {
    let mut names = four_symbols();
    names.remove(1);
    let mut image = symbolic_image(&names);
    place(&mut image, 0x200, &[0xf5, 0xf5, 0xdc, 0xdc]);
    let snapshots = extract(image.clone()).unwrap();
    let start = 0x200 + 16;
    let end = start + 10 * 1024;
    assert!((end..end + 1024).all(|at| image[at] == 0));
    assert!((end - 1024..end).any(|at| image[at] != 0));
    let quarter = (end - start) / 4;
    assert_eq!(snapshots.vm_data, image[start..start + quarter].to_vec());
    assert_eq!(snapshots.vm_instructions, image[start + quarter..start + 2 * quarter].to_vec());
    assert_eq!(snapshots.isolate_data, image[start + 2 * quarter..start + 3 * quarter].to_vec());
    assert_eq!(snapshots.isolate_instructions, image[start + 3 * quarter..end].to_vec());
}

#[test]
fn missing_symbols_without_magic_fail() {
    let mut names = four_symbols();
    names.pop();
    let image = symbolic_image(&names);
    assert_eq!(extract(image), Err(ExtractError::MagicScanFailed));
}

#[test]
fn symbol_scan_reports_how_many_were_found() {
    let mut names = four_symbols();
    names.pop();
    let image = symbolic_image(&names);
    let mut stream = MemoryStream::new(image);
    let commands = {
        stream.seek(SeekFrom::Start(0)).unwrap();
        let header: MachHeader64 = read_struct(&mut stream).unwrap();
        walk_load_commands(&mut stream, 32, header.ncmds).unwrap()
    };
    let result = extract_via_symbols(
        &mut stream,
        0,
        &commands.symtab.unwrap(),
        &commands.linkedit.unwrap(),
        &commands.text.unwrap(),
    );
    assert_eq!(result, Err(ExtractError::SymbolsIncomplete(3)));
    assert_eq!(
        ExtractError::SymbolsIncomplete(3).to_text(),
        "Only found 3 of 4 expected symbols"
    );
}

#[test]
fn truncated_symbol_table_is_an_error_and_no_fallback() {
    let mut image = symbolic_image(&four_symbols());
    place(&mut image, 0x200, &[0xf5, 0xf5, 0xdc, 0xdc]);
    let at = 32 + 72 + 16 + 72 + 12;
    image[at..at + 4].copy_from_slice(&4000u32.to_le_bytes());
    assert_eq!(extract(image), Err(ExtractError::Stream(StreamError::UnexpectedEof)));
}

#[test]
fn symbol_below_the_text_segment_is_out_of_range() {
    let mut names = four_symbols();
    names[0].1 = 0x800;
    let mut image = symbolic_image(&names);
    let text_fileoff = 32 + 8 + 16 + 16;
    image[text_fileoff..text_fileoff + 8].copy_from_slice(&0x100u64.to_le_bytes());
    assert_eq!(extract(image), Err(ExtractError::OffsetOutOfRange));
}

#[test]
fn symbols_out_of_order_are_out_of_range() {
    let mut names = four_symbols();
    names[1].1 = 0x1050;
    let image = symbolic_image(&names);
    assert_eq!(extract(image), Err(ExtractError::OffsetOutOfRange));
}

#[test]
fn empty_symbol_range_is_rejected() {
    let mut names = four_symbols();
    names[1].1 = 0x1100;
    let image = symbolic_image(&names);
    assert_eq!(extract(image), Err(ExtractError::EmptySnapshot));
}

#[test]
fn symbol_table_before_linkedit_is_out_of_range() {
    let mut image = symbolic_image(&four_symbols());
    let linkedit_vmaddr = 32 + 72 + 16 + 8 + 16;
    image[linkedit_vmaddr..linkedit_vmaddr + 8].copy_from_slice(&0x1_0000_0000u64.to_le_bytes());
    assert_eq!(extract(image), Err(ExtractError::OffsetOutOfRange));
}

#[test]
fn walk_advances_by_the_sum_of_the_command_sizes() {
    let mut image = mach_header(5, 0);
    image.extend_from_slice(&other_command(0x32, 16));
    image.extend_from_slice(&segment("__TEXT", 0x1000, 0, 0x4000));
    image.extend_from_slice(&other_command(0x1b, 24));
    image.extend_from_slice(&symtab(8, 2, 40, 10));
    image.extend_from_slice(&other_command(0x26, 8));
    let mut stream = MemoryStream::new(image);
    let commands = walk_load_commands(&mut stream, 32, 5).unwrap();
    assert_eq!(commands.end, 32 + 16 + 72 + 24 + 24 + 8);
    assert_eq!(commands.text.unwrap().vmaddr, 0x1000);
    assert_eq!(commands.symtab.unwrap().stroff, 40);
    assert!(commands.linkedit.is_none());
    let first_three = walk_load_commands(&mut stream, 32, 3).unwrap();
    assert_eq!(first_three.end, 32 + 16 + 72 + 24);
    assert!(first_three.symtab.is_none());
    let none = walk_load_commands(&mut stream, 32, 0).unwrap();
    assert_eq!(none.end, 32);
}

#[test]
fn walk_follows_cmdsize_and_not_the_record_length() {
    let mut image = mach_header(2, 0);
    let mut text = segment("__TEXT", 0x1000, 0, 0x4000);
    text[4..8].copy_from_slice(&100u32.to_le_bytes());
    image.extend_from_slice(&text);
    image.resize(32 + 100, 0xab);
    image.extend_from_slice(&segment("__LINKEDIT", 0x9000, 0x50, 0x20));
    let mut stream = MemoryStream::new(image);
    let commands = walk_load_commands(&mut stream, 32, 2).unwrap();
    assert_eq!(commands.end, 32 + 100 + 72);
    assert_eq!(commands.linkedit.unwrap().fileoff, 0x50);
}

#[test]
fn walk_keeps_the_last_segment_of_a_name() {
    let mut image = mach_header(2, 0);
    image.extend_from_slice(&segment("__TEXT", 0x1000, 0, 0x4000));
    image.extend_from_slice(&segment("__TEXT", 0x2000, 0, 0x4000));
    let mut stream = MemoryStream::new(image);
    let commands = walk_load_commands(&mut stream, 32, 2).unwrap();
    assert_eq!(commands.text.unwrap().vmaddr, 0x2000);
}

#[test]
fn walk_rejects_an_offset_past_the_last_position() {
    let mut image = vec![0u8; 16];
    image.extend_from_slice(&other_command(0x32, 8));
    image[20..24].copy_from_slice(&0xffff_ffffu32.to_le_bytes());
    let mut stream = Shifted { inner: MemoryStream::new(image), shift: u64::MAX - 100 - 16 };
    assert_eq!(
        walk_load_commands(&mut stream, u64::MAX - 100, 1),
        Err(ExtractError::OffsetOutOfRange)
    );
    stream.inner.seek(SeekFrom::Start(20)).unwrap();
    let mut stream = Shifted { inner: stream.inner, shift: u64::MAX - 100 - 16 };
    assert_eq!(walk_load_commands(&mut stream, u64::MAX - 100, 0).unwrap().end, u64::MAX - 100);
}

// A stream whose positions start at `shift`.
struct Shifted {
    inner: MemoryStream,
    shift: u64,
}

impl ReadSeek for Shifted {
    fn read(&mut self, len: usize) -> Result<Vec<u8>, StreamError> {
        self.inner.read(len)
    }

    fn seek(&mut self, pos: SeekFrom) -> Result<u64, StreamError> {
        let at = match pos {
            SeekFrom::Start(n) => self.inner.seek(SeekFrom::Start(n - self.shift))?,
            other => self.inner.seek(other)?,
        };
        Ok(at + self.shift)
    }
}

#[test]
fn segment_names_end_at_the_first_zero() {
    let mut image = mach_header(2, 0);
    let mut text = segment("__TEXT", 0x1000, 0, 0x4000);
    text[8 + 7..8 + 16].copy_from_slice(b"\xff\xfejunk!!!");
    image.extend_from_slice(&text);
    image.extend_from_slice(&segment("__TEXT_EXEC", 0x2000, 0, 0x4000));
    let mut stream = MemoryStream::new(image);
    let commands = walk_load_commands(&mut stream, 32, 2).unwrap();
    assert_eq!(commands.text.unwrap().vmaddr, 0x1000);
}

#[test]
fn symbol_offset_is_anchor_plus_address_minus_vmaddr_plus_fileoff() {
    let text = SegmentCommand64::from_bytes(&segment("__TEXT", 0x1000, 0x200, 0x4000)).unwrap();
    assert_eq!(symbol_offset(0x4000, 0x1100, &text), Some(0x4000 + (0x1100 - 0x1000) + 0x200));
    assert_eq!(symbol_offset(0, 0x1000, &text), Some(0x200));
    assert_eq!(symbol_offset(0, 0xf00, &text), Some(0x100));
    assert_eq!(symbol_offset(0, 0xdff, &text), None);
    assert_eq!(symbol_offset(u64::MAX, 0x1000, &text), None);
    assert_eq!(symbol_offset(u64::MAX - 0x200, 0x1000, &text), Some(u64::MAX));
}

#[test]
fn table_offset_is_anchor_plus_fileoff_plus_offset_minus_vmaddr() {
    let linkedit =
        SegmentCommand64::from_bytes(&segment("__LINKEDIT", 0x100, 0x8000, 0x1000)).unwrap();
    assert_eq!(table_offset(0x4000, &linkedit, 0x300), Some(0x4000 + 0x8000 + 0x300 - 0x100));
    assert_eq!(table_offset(0, &linkedit, 0), Some(0x7f00));
    let far =
        SegmentCommand64::from_bytes(&segment("__LINKEDIT", 0x1_0000_0000, 0x8000, 0x1000)).unwrap();
    assert_eq!(table_offset(0, &far, 0x300), None);
}

#[test]
fn symbol_data_is_read_up_to_the_next_symbol() {
    let image = symbolic_image(&four_symbols());
    let text = SegmentCommand64::from_bytes(&image[32..104]).unwrap();
    let symbol = Nlist64::from_bytes(&nlist(1, 0x1100)).unwrap();
    let mut stream = MemoryStream::new(image.clone());
    assert_eq!(
        extract_symbol_data(&mut stream, &symbol, &Some(0x1110), &text, 0),
        Ok(image[0x100..0x110].to_vec())
    );
    assert_eq!(
        extract_symbol_data(&mut stream, &symbol, &Some(0x1100), &text, 0),
        Ok(Vec::new())
    );
    assert_eq!(
        extract_symbol_data(&mut stream, &symbol, &Some(0x10ff), &text, 0),
        Err(ExtractError::OffsetOutOfRange)
    );
    assert_eq!(
        extract_symbol_data(&mut stream, &symbol, &None, &text, 0),
        Ok(image[0x100..].to_vec())
    );
    let mut big = image.clone();
    big.resize(0x20_0000, 7);
    let mut stream = MemoryStream::new(big.clone());
    assert_eq!(
        extract_symbol_data(&mut stream, &symbol, &None, &text, 0),
        Ok(big[0x100..0x100 + 0x10_0000].to_vec())
    );
}

#[test]
fn last_symbol_is_cut_at_the_first_zero_run() {
    let image = symbolic_image(&four_symbols());
    let text = SegmentCommand64::from_bytes(&image[32..104]).unwrap();
    let symbol = Nlist64::from_bytes(&nlist(1, 0x3000)).unwrap();
    let mut stream = MemoryStream::new(image.clone());
    assert_eq!(
        extract_symbol_data_estimated(&mut stream, &symbol, &text, 0),
        Ok(image[0x2000..0x2800].to_vec())
    );
}

#[test]
fn last_symbol_without_zero_run_takes_the_whole_read() {
    let mut image = symbolic_image(&four_symbols());
    image.resize(0x2000 + 0x90_0000, 0);
    for at in 0x2000..image.len() {
        image[at] = pattern(at);
    }
    let text = SegmentCommand64::from_bytes(&image[32..104]).unwrap();
    let symbol = Nlist64::from_bytes(&nlist(1, 0x3000)).unwrap();
    let mut stream = MemoryStream::new(image.clone());
    let data = extract_symbol_data_estimated(&mut stream, &symbol, &text, 0).unwrap();
    assert_eq!(data.len(), 8 * 1024 * 1024);
    assert_eq!(data, image[0x2000..0x2000 + 0x80_0000].to_vec());
}

#[test]
fn zero_run_trimming_starts_at_the_second_window() {
    let mut data = vec![0u8; 4096];
    assert_eq!(trim_at_zero_run(data.clone()).len(), 1024);
    data[1024] = 1;
    assert_eq!(trim_at_zero_run(data.clone()).len(), 2048);
    data[2048 + 1023] = 1;
    assert_eq!(trim_at_zero_run(data.clone()).len(), 3072);
    data[4095] = 1;
    assert_eq!(trim_at_zero_run(data.clone()), data);
    assert_eq!(trim_at_zero_run(vec![0u8; 2047]).len(), 2047);
    assert_eq!(trim_at_zero_run(vec![0u8; 2048]).len(), 1024);
    assert_eq!(trim_at_zero_run(vec![0u8; 10]).len(), 10);
    assert_eq!(trim_at_zero_run(Vec::new()), Vec::<u8>::new());
}

#[test]
fn zero_windows_are_found_on_the_stride() {
    let mut buf = vec![1u8; 8192];
    for at in 3000..5000 {
        buf[at] = 0;
    }
    assert!(zero_window_at(&buf, 3000));
    assert!(zero_window_at(&buf, 3976));
    assert!(!zero_window_at(&buf, 3977));
    assert!(!zero_window_at(&buf, 2999));
    assert!(!zero_window_at(&buf, 8000));
    assert!(!zero_window_at(&buf, usize::MAX));
    assert_eq!(find_zero_window(&buf, 0, 8192), Some(3072));
    assert_eq!(find_zero_window(&buf, 1000, 8192), Some(3048));
    assert_eq!(find_zero_window(&buf, 1000, 3048), None);
    assert_eq!(find_zero_window(&buf, 4000, 8192), None);
    assert_eq!(find_zero_window(&buf, 952, 8192), Some(3000));
    assert_eq!(find_zero_window(&buf, 0, 3072), None);
    assert_eq!(find_zero_window(&buf, 0, 3073), Some(3072));
    assert_eq!(find_zero_window(&buf, 3072, 3072), None);
    assert_eq!(find_zero_window(&buf, 9000, usize::MAX), None);
}

#[test]
fn section_ends_at_the_zero_window_or_the_cap() {
    let mut buf = vec![1u8; 0x30_0000];
    assert_eq!(find_section_end(&buf, 16), 16 + 0x20_0000);
    assert_eq!(find_section_end(&buf, 0x20_0000), 0x30_0000);
    assert_eq!(find_section_end(&buf, 0x30_0000), 0x30_0000);
    for at in 16 + 2048..16 + 3072 {
        buf[at] = 0;
    }
    assert_eq!(find_section_end(&buf, 16), 16 + 2048);
    assert_eq!(find_section_end(&buf, 17), 17 + 0x20_0000);
    for at in 16..16 + 1024 {
        buf[at] = 0;
    }
    assert_eq!(find_section_end(&buf, 16), 16);
}

#[test]
fn section_search_reaches_past_the_cap() {
    let mut buf = vec![1u8; 0x90_0000];
    for at in 0x70_0000..0x70_0400 {
        buf[at] = 0;
    }
    assert_eq!(find_section_end(&buf, 0), 0x70_0000);
    assert_eq!(find_section_end(&buf, 1024), 0x70_0000);
    let mut buf = vec![1u8; 0x90_0000];
    for at in 0x80_0000..0x80_0400 {
        buf[at] = 0;
    }
    assert_eq!(find_section_end(&buf, 0), 0x20_0000);
}

#[test]
fn snapshots_at_magic_offset_are_four_quarters() {
    let mut buf = vec![0xf5, 0xf5, 0xdc, 0xdc, 1, 0, 0, 0, 2, 0, 0, 0, 3, 0, 0, 0];
    buf.extend((1..=10u8).collect::<Vec<u8>>());
    let snapshots = extract_snapshots_at_magic_offset(&buf, 0).unwrap();
    assert_eq!(snapshots.vm_data, vec![1, 2]);
    assert_eq!(snapshots.vm_instructions, vec![3, 4]);
    assert_eq!(snapshots.isolate_data, vec![5, 6]);
    assert_eq!(snapshots.isolate_instructions, vec![7, 8, 9, 10]);
}

#[test]
fn snapshots_at_magic_offset_need_a_header_and_four_bytes() {
    let buf = vec![9u8; 19];
    assert_eq!(
        extract_snapshots_at_magic_offset(&buf, 4),
        Err(ExtractError::TruncatedSnapshotHeader)
    );
    assert_eq!(
        extract_snapshots_at_magic_offset(&buf, usize::MAX),
        Err(ExtractError::TruncatedSnapshotHeader)
    );
    assert_eq!(extract_snapshots_at_magic_offset(&buf, 3), Err(ExtractError::EmptySnapshot));
    assert_eq!(extract_snapshots_at_magic_offset(&buf, 0), Err(ExtractError::EmptySnapshot));
    let buf = vec![9u8; 20];
    let snapshots = extract_snapshots_at_magic_offset(&buf, 0).unwrap();
    assert_eq!(snapshots.vm_data, vec![9]);
    assert_eq!(snapshots.isolate_instructions, vec![9]);
    assert_eq!(
        ExtractError::TruncatedSnapshotHeader.to_text(),
        "Not enough data after magic bytes"
    );
}

#[test]
fn payload_that_starts_with_a_zero_run_is_empty() {
    let mut buf = vec![0xf5, 0xf5, 0xdc, 0xdc];
    buf.resize(16 + 1024, 0);
    buf.resize(16 + 4096, 3);
    assert_eq!(extract_snapshots_at_magic_offset(&buf, 0), Err(ExtractError::EmptySnapshot));
}

#[test]
fn scan_takes_the_first_viable_magic() {
    let mut buf = vec![7u8; 64];
    assert_eq!(scan_for_snapshots(&buf), Err(ExtractError::MagicScanFailed));
    buf[50..54].copy_from_slice(&[0xf5, 0xf5, 0xdc, 0xdc]);
    assert!(magic_at(&buf, 50));
    assert!(!magic_at(&buf, 49));
    assert!(!magic_at(&buf, 62));
    assert_eq!(scan_for_snapshots(&buf), Err(ExtractError::MagicScanFailed));
    buf[10..14].copy_from_slice(&[0xf5, 0xf5, 0xdc, 0xdc]);
    let snapshots = scan_for_snapshots(&buf).unwrap();
    assert_eq!(snapshots, extract_snapshots_at_magic_offset(&buf, 10).unwrap());
    assert_eq!(snapshots.vm_data.len(), 9);
    assert_eq!(snapshots.isolate_instructions.len(), 11);
    buf[2..6].copy_from_slice(&[0xf5, 0xf5, 0xdc, 0xdc]);
    assert_eq!(
        scan_for_snapshots(&buf).unwrap(),
        extract_snapshots_at_magic_offset(&buf, 2).unwrap()
    );
}

#[test]
fn scan_passes_over_a_magic_without_payload() {
    let mut buf = vec![0xf5, 0xf5, 0xdc, 0xdc];
    buf.resize(16 + 1024, 0);
    buf.extend_from_slice(&[0xf5, 0xf5, 0xdc, 0xdc]);
    buf.resize(buf.len() + 12 + 40, 5);
    let second = 16 + 1024;
    assert_eq!(
        scan_for_snapshots(&buf).unwrap(),
        extract_snapshots_at_magic_offset(&buf, second).unwrap()
    );
}

#[test]
fn magic_scan_reads_no_more_than_the_segment() {
    let mut image = stripped_image(4096, 2048);
    let filesize = 32 + 8 + 16 + 24;
    image[filesize..filesize + 8].copy_from_slice(&0x2000u64.to_le_bytes());
    assert_eq!(extract(image.clone()), Err(ExtractError::MagicScanFailed));
    image[filesize..filesize + 8].copy_from_slice(&(0x2000u64 + 16 + 8).to_le_bytes());
    let snapshots = extract(image.clone()).unwrap();
    assert_eq!(snapshots.vm_data.len(), 2);
    assert_eq!(snapshots.isolate_instructions.len(), 2);
}

#[test]
fn magic_scan_starts_at_the_segment_in_the_slice() {
    let mut slice = mach_header(1, 72);
    slice.extend_from_slice(&segment("__TEXT", 0, 0x400, 0x3000));
    place(&mut slice, 0x400 + 0x20, &[0xf5, 0xf5, 0xdc, 0xdc]);
    let start = 0x400 + 0x20 + 16;
    let filler: Vec<u8> = (0..2048).map(pattern).collect();
    place(&mut slice, start, &filler);
    slice.resize(0x400 + 0x3000, 0);
    let text = SegmentCommand64::from_bytes(&slice[32..104]).unwrap();
    let mut image = vec![0x55u8; 0x1000];
    image.extend_from_slice(&slice);
    let mut stream = MemoryStream::new(image);
    let snapshots = extract_via_magic(&mut stream, 0x1000, &text).unwrap();
    assert_eq!(snapshots.vm_data, slice[start..start + 512].to_vec());
    assert_eq!(snapshots.isolate_instructions, slice[start + 1536..start + 2048].to_vec());
    let mut far = text;
    far.fileoff = u64::MAX;
    assert_eq!(extract_via_magic(&mut stream, 1, &far), Err(ExtractError::OffsetOutOfRange));
}

#[test]
fn macho_is_anchored_at_the_cursor() {
    let slice = symbolic_image(&four_symbols());
    let mut image = vec![0x55u8; 0x300];
    image.extend_from_slice(&slice);
    let mut stream = MemoryStream::new(image.clone());
    stream.seek(SeekFrom::Start(0x300)).unwrap();
    assert_eq!(extract_from_macho64(&mut stream).unwrap(), expected_symbolic(&image, 0x300));
    stream.seek(SeekFrom::Start(0x2ff)).unwrap();
    assert!(matches!(extract_from_macho64(&mut stream), Err(ExtractError::BadMagic(_))));
}

#[test]
fn fat_extraction_ignores_the_cursor() {
    let slice = symbolic_image(&four_symbols());
    let mut image = vec![0xca, 0xfe, 0xba, 0xbe, 0x00, 0x00, 0x00, 0x01];
    image.extend_from_slice(&fat_arch_be(0x0100000c, 0x100, slice.len() as u32));
    place(&mut image, 0x100, &slice);
    let mut stream = MemoryStream::new(image.clone());
    stream.seek(SeekFrom::End(0)).unwrap();
    assert_eq!(extract_from_fat_binary(&mut stream).unwrap(), expected_symbolic(&image, 0x100));
    stream.seek(SeekFrom::Start(77)).unwrap();
    assert_eq!(extract_snapshots_from_app(&mut stream).unwrap(), expected_symbolic(&image, 0x100));
}

#[test]
fn symbol_scan_skips_names_outside_the_table() {
    let strtab = b"\0_kDartVmSnapshotData\0_kDartVmSnapshotDataX\0_kDartIsolateSnapshotData";
    let mut table = Vec::new();
    table.extend_from_slice(&nlist(0, 1));
    table.extend_from_slice(&nlist(1, 2));
    table.extend_from_slice(&nlist(22, 3));
    table.extend_from_slice(&nlist(strtab.len() as u32, 4));
    table.extend_from_slice(&nlist(44, 5));
    table.extend_from_slice(&nlist(2, 6));
    let mut stream = MemoryStream::new(table);
    let found = scan_symbol_table(&mut stream, 0, strtab, 6).unwrap();
    assert_eq!(found.count(), 2);
    assert_eq!(found.vm_data.unwrap().n_value, 2);
    assert_eq!(found.isolate_data.unwrap().n_value, 5);
    assert!(found.vm_instructions.is_none());
    assert!(found.isolate_instructions.is_none());
    assert_eq!(
        scan_symbol_table(&mut stream, 0, strtab, 7),
        Err(ExtractError::Stream(StreamError::UnexpectedEof))
    );
    assert_eq!(scan_symbol_table(&mut stream, 0, strtab, 0), Ok(SnapshotSymbols::new()));
}

#[test]
fn records_decode_little_endian_fields() {
    let header = MachHeader64::from_bytes(&mach_header(3, 0x1234)).unwrap();
    assert_eq!(header.magic, 0xfeedfacf);
    assert_eq!(header.cputype, 0x0100000c);
    assert_eq!(header.filetype, 2);
    assert_eq!(header.ncmds, 3);
    assert_eq!(header.sizeofcmds, 0x1234);
    let mut negative = mach_header(0, 0);
    negative[4..8].copy_from_slice(&(-2i32).to_le_bytes());
    negative[8..12].copy_from_slice(&i32::MIN.to_le_bytes());
    let header = MachHeader64::from_bytes(&negative).unwrap();
    assert_eq!(header.cputype, -2);
    assert_eq!(header.cpusubtype, i32::MIN);
    assert!(MachHeader64::from_bytes(&negative[..31]).is_none());

    let seg = SegmentCommand64::from_bytes(&segment("__TEXT", 0x1_0000_0000, 0x4000, 0x8000)).unwrap();
    assert_eq!(seg.cmd, 0x19);
    assert_eq!(seg.cmdsize, 72);
    assert_eq!(&seg.segname[..7], b"__TEXT\0");
    assert_eq!(seg.vmaddr, 0x1_0000_0000);
    assert_eq!(seg.vmsize, 0x8000);
    assert_eq!(seg.fileoff, 0x4000);
    assert_eq!(seg.filesize, 0x8000);
    assert_eq!(seg.maxprot, 7);
    assert_eq!(seg.initprot, 5);
    assert!(SegmentCommand64::from_bytes(&[0u8; 73]).is_none());

    let lc = LoadCommand::from_bytes(&[0x19, 0, 0, 0, 0x48, 0x01, 0, 0]).unwrap();
    assert_eq!(lc, LoadCommand { cmd: 0x19, cmdsize: 0x148 });
    let st = SymtabCommand::from_bytes(&symtab(1, 2, 3, 4)).unwrap();
    assert_eq!((st.symoff, st.nsyms, st.stroff, st.strsize), (1, 2, 3, 4));
    let mut raw = nlist(0x01020304, 0x1122334455667788);
    raw[6..8].copy_from_slice(&0xbeefu16.to_le_bytes());
    let sym = Nlist64::from_bytes(&raw).unwrap();
    assert_eq!(sym.n_strx, 0x01020304);
    assert_eq!(sym.n_type, 0x0f);
    assert_eq!(sym.n_sect, 1);
    assert_eq!(sym.n_desc, 0xbeef);
    assert_eq!(sym.n_value, 0x1122334455667788);
    assert_eq!(MachHeader64::size(), 32);
    assert_eq!(LoadCommand::size(), 8);
    assert_eq!(SegmentCommand64::size(), 72);
    assert_eq!(SymtabCommand::size(), 24);
    assert_eq!(Nlist64::size(), 16);
    assert_eq!(FatHeader::size(), 8);
    assert_eq!(FatArch::size(), 20);
}

#[test]
fn fat_header_swaps_the_count_for_the_reversed_magic() {
    let header = FatHeader::from_bytes(&[0xca, 0xfe, 0xba, 0xbe, 0, 0, 0, 2]).unwrap();
    assert_eq!(header.magic, 0xbebafeca);
    assert_eq!(header.nfat_arch, 0x02000000);
    assert_eq!(header.arch_count(), 2);
    let header = FatHeader::from_bytes(&[0xbe, 0xba, 0xfe, 0xca, 2, 0, 0, 0]).unwrap();
    assert_eq!(header.magic, 0xcafebabe);
    assert_eq!(header.arch_count(), 2);
    let header = FatHeader { magic: 0xbebafeca, nfat_arch: 0x12345678 };
    assert_eq!(header.arch_count(), 0x78563412);
    let header = FatHeader { magic: 0xcafebabe, nfat_arch: 0x12345678 };
    assert_eq!(header.arch_count(), 0x12345678);
    let arch = FatArch::from_bytes(&fat_arch_be(0x0100000c, 0x4000, 0x99)).unwrap();
    assert_eq!(arch.cputype, 0x0c000001);
    assert_eq!(library_network::macho::restore_order(arch.cputype, true), 0x0100000c);
    assert_eq!(library_network::macho::restore_order(arch.offset, true), 0x4000);
    assert_eq!(library_network::macho::restore_order(arch.offset, false), 0x00400000);
}

// A host file in memory behind the four entry points.  Positions that the
// host reports are shifted by `shift`.
#[derive(Clone)]
struct HostFile {
    data: Rc<Vec<u8>>,
    pos: Rc<RefCell<u64>>,
    shift: Rc<RefCell<u64>>,
    short_reads: Rc<RefCell<usize>>,
    calls: Rc<RefCell<Vec<String>>>,
}

impl HostFile {
    fn new(data: Vec<u8>, calls: Rc<RefCell<Vec<String>>>) -> HostFile {
        HostFile {
            data: Rc::new(data),
            pos: Rc::new(RefCell::new(0)),
            shift: Rc::new(RefCell::new(0)),
            short_reads: Rc::new(RefCell::new(usize::MAX)),
            calls,
        }
    }
}

impl FileCallbacks for HostFile {
    fn open(&self) -> usize {
        self.calls.borrow_mut().push("open".to_string());
        1
    }

    fn read(&self, _handle: usize, len: usize) -> Vec<u8> {
        self.calls.borrow_mut().push(format!("read {}", len));
        let mut pos = self.pos.borrow_mut();
        let start = (*pos).min(self.data.len() as u64) as usize;
        let n = len.min(self.data.len() - start).min(*self.short_reads.borrow());
        *pos += n as u64;
        self.data[start..start + n].to_vec()
    }

    fn seek(&self, _handle: usize, offset: i64, whence: i32) -> i64 {
        self.calls.borrow_mut().push(format!("seek {} {}", offset, whence));
        let shift = *self.shift.borrow() as i128;
        let mut pos = self.pos.borrow_mut();
        let target = match whence {
            0 => offset as u64 as i128 - shift,
            1 => *pos as i128 + offset as i128,
            _ => self.data.len() as i128 + offset as i128,
        };
        if target < 0 {
            return -22;
        }
        *pos = target as u64;
        (target + shift) as i64
    }

    fn close(&self, _handle: usize) {
        self.calls.borrow_mut().push("close".to_string());
    }
}

#[test]
fn host_file_yields_the_same_snapshots() {
    let image = symbolic_image(&four_symbols());
    let calls = Rc::new(RefCell::new(Vec::new()));
    let provider = CFileProvider::new(HostFile::new(image.clone(), calls.clone()));
    let mut stream = provider.open().unwrap();
    assert_eq!(extract_snapshots_from_app(&mut stream).unwrap(), expected_symbolic(&image, 0));
    stream.close();
    assert_eq!(calls.borrow().first().unwrap(), "open");
    assert_eq!(calls.borrow().last().unwrap(), "close");
    assert_eq!(calls.borrow().iter().filter(|call| *call == "close").count(), 1);
}

#[test]
fn short_reads_are_asked_again() {
    let image = stripped_image(4096, 2048);
    let host = HostFile::new(image.clone(), Rc::new(RefCell::new(Vec::new())));
    host.short_reads.replace(7);
    assert_eq!(*host.shift.borrow(), 0);
    let provider = CFileProvider::new(host);
    let mut stream = provider.open().unwrap();
    let snapshots = extract_snapshots_from_app(&mut stream).unwrap();
    stream.close();
    assert_eq!(snapshots, extract(image).unwrap());
    assert_eq!(snapshots.vm_data.len(), 1024);
}

#[test]
fn seek_failure_of_the_host_surfaces() {
    #[derive(Clone)]
    struct Refusing;
    impl FileCallbacks for Refusing {
        fn open(&self) -> usize {
            9
        }
        fn read(&self, _handle: usize, _len: usize) -> Vec<u8> {
            Vec::new()
        }
        fn seek(&self, _handle: usize, _offset: i64, _whence: i32) -> i64 {
            -1
        }
        fn close(&self, _handle: usize) {}
    }
    let provider = CFileProvider::new(Refusing);
    let mut stream = provider.open().unwrap();
    let error = extract_snapshots_from_app(&mut stream).unwrap_err();
    stream.close();
    assert_eq!(error, ExtractError::Stream(StreamError::SeekFailed(-1)));
    assert!(error.to_text().contains("CFile seek failed with error code: -1"));
}

#[test]
fn snapshots_from_any_stream_are_not_empty() {
    struct Noise {
        state: u32,
    }
    impl ReadSeek for Noise {
        fn read(&mut self, len: usize) -> Result<Vec<u8>, StreamError> {
            let mut out = Vec::new();
            for _ in 0..len.min(4096) {
                self.state = self.state.wrapping_mul(1664525).wrapping_add(1013904223);
                out.push(if self.state >> 28 < 3 { 0 } else { (self.state >> 24) as u8 });
            }
            Ok(out)
        }
        fn seek(&mut self, _pos: SeekFrom) -> Result<u64, StreamError> {
            Ok(0)
        }
    }
    struct Scripted {
        image: MemoryStream,
        noise: Noise,
        reads: usize,
    }
    impl ReadSeek for Scripted {
        fn read(&mut self, len: usize) -> Result<Vec<u8>, StreamError> {
            self.reads += 1;
            if self.reads % 5 == 0 {
                self.noise.read(len)
            } else {
                self.image.read(len)
            }
        }
        fn seek(&mut self, pos: SeekFrom) -> Result<u64, StreamError> {
            self.image.seek(pos)
        }
    }
    for seed in 0..40u32 {
        let mut stream = Scripted {
            image: MemoryStream::new(symbolic_image(&four_symbols())),
            noise: Noise { state: seed },
            reads: seed as usize,
        };
        if let Ok(snapshots) = extract_snapshots_from_app(&mut stream) {
            assert!(!snapshots.vm_data.is_empty());
            assert!(!snapshots.vm_instructions.is_empty());
            assert!(!snapshots.isolate_data.is_empty());
            assert!(!snapshots.isolate_instructions.is_empty());
        }
    }
}

fn section(sectname: &str, segname: &str, addr: u64, size: u64, offset: u32) -> Vec<u8> {
    let mut out = Vec::new();
    let mut name = [0u8; 16];
    name[..sectname.len()].copy_from_slice(sectname.as_bytes());
    out.extend_from_slice(&name);
    let mut name = [0u8; 16];
    name[..segname.len()].copy_from_slice(segname.as_bytes());
    out.extend_from_slice(&name);
    put_u64(&mut out, addr);
    put_u64(&mut out, size);
    put_u32(&mut out, offset);
    for field in [4u32, 5, 6, 7, 8, 9, 10] {
        put_u32(&mut out, field);
    }
    out
}

#[test]
fn sections_follow_their_segment_command() {
    let mut image = vec![0x77u8; 40];
    let mut text = segment("__TEXT", 0x1000, 0, 0x4000);
    text[64..68].copy_from_slice(&2u32.to_le_bytes());
    image.extend_from_slice(&text);
    image.extend_from_slice(&section("__text", "__TEXT", 0x1100, 0x200, 0x100));
    image.extend_from_slice(&section("__const", "__TEXT", 0x1300, 0x80, 0x300));
    let mut stream = MemoryStream::new(image.clone());
    let sections = read_sections(&mut stream, 40, 2).unwrap();
    assert_eq!(sections.len(), 2);
    assert_eq!(&sections[0].sectname[..7], b"__text\0");
    assert_eq!(&sections[0].segname[..7], b"__TEXT\0");
    assert_eq!(sections[0].addr, 0x1100);
    assert_eq!(sections[0].size, 0x200);
    assert_eq!(sections[0].offset, 0x100);
    assert_eq!(sections[0].align, 4);
    assert_eq!(sections[0].reserved3, 10);
    assert_eq!(&sections[1].sectname[..8], b"__const\0");
    assert_eq!(sections[1].offset, 0x300);
    assert_eq!(Some(sections[1]), Section64::from_bytes(&image[40 + 72 + 80..]));
    assert_eq!(read_sections(&mut stream, 40, 0), Ok(vec![]));
    assert_eq!(read_sections(&mut stream, 40, 1).unwrap().len(), 1);
    assert_eq!(
        read_sections(&mut stream, 40, 3),
        Err(ExtractError::Stream(StreamError::UnexpectedEof))
    );
    assert_eq!(read_sections(&mut stream, u64::MAX - 71, 1), Err(ExtractError::OffsetOutOfRange));
    assert_eq!(read_sections(&mut stream, u64::MAX, 0), Ok(vec![]));
    assert_eq!(Section64::size(), 80);
}

#[test]
fn snapshot_header_holds_three_little_endian_fields() {
    let buf = [
        9, 9, 0xf5, 0xf5, 0xdc, 0xdc, 0x01, 0x02, 0x03, 0x04, 0x11, 0, 0, 0, 0, 0, 0, 0x80, 7,
    ];
    assert_eq!(
        read_snapshot_header(&buf, 2),
        Some(SnapshotHeader { version: 0x04030201, features: 0x11, flags: 0x80000000 })
    );
    assert_eq!(read_snapshot_header(&buf, 3).unwrap().version, 0x11040302);
    assert_eq!(read_snapshot_header(&buf, 4), None);
    assert_eq!(read_snapshot_header(&buf, usize::MAX), None);
    assert_eq!(read_snapshot_header(&buf[..17], 2), None);
}
