//! The records of the Mach-O and fat-binary formats that the extraction reads.
//!
//! Every record is a fixed run of bytes.  The Mach-O records hold their
//! fields least significant byte first; the records of a fat container are
//! read the same way and their fields reversed where the container's magic
//! shows that they lie the other way round.

use crate::bytes::{
    c_string, read_u16_le, read_u32_le, read_u64_le, signed_u32, swap_bytes, swap_u32, to_signed,
    u16_le, u32_le, u64_le,
};
use crate::stream::{available, read_exact, ReadSeek, StreamError};
use vstd::prelude::*;

verus! {

/// Magic of a 64-bit Mach-O image.
pub const MH_MAGIC_64: u32 = 0xfeedfacf;

/// Magic of a 32-bit Mach-O image.
pub const MH_MAGIC: u32 = 0xfeedface;

/// Magic of a fat container whose fields read in the order they are decoded.
pub const FAT_MAGIC: u32 = 0xcafebabe;

/// Magic of a fat container whose fields read in reverse byte order.
pub const FAT_CIGAM: u32 = 0xbebafeca;

/// Load command that describes a 64-bit segment.
pub const LC_SEGMENT_64: u32 = 0x19;

/// Load command that describes the symbol table.
pub const LC_SYMTAB: u32 = 0x02;

/// CPU type of an arm64 slice.
pub const CPU_TYPE_ARM64: u32 = 0x0100000c;

/// A record with a fixed layout in a file.
pub trait Record: Sized {
    /// The number of bytes that the record takes.
    spec fn encoded_len() -> nat;

    /// The record that `bytes` hold, where there are `encoded_len()` of them.
    spec fn decode(bytes: Seq<u8>) -> Self;

    /// The number of bytes that the record takes.
    fn size() -> (n: usize)
        ensures
            n == Self::encoded_len(),
            n > 0,
    ;

    /// The record that `bytes` hold; `None` unless there are exactly
    /// `size()` of them.
    fn from_bytes(bytes: &[u8]) -> (record: Option<Self>)
        ensures
            record == if bytes@.len() == Self::encoded_len() {
                Some(Self::decode(bytes@))
            } else {
                None::<Self>
            },
    ;
}

/// The record of type `T` that lies at `at` in `file`.
pub open spec fn record_at<T: Record>(file: Seq<u8>, at: int) -> T {
    T::decode(file.subrange(at, at + T::encoded_len()))
}

/// Header of a 64-bit Mach-O image.
#[derive(Clone, Copy, Debug, PartialEq, Eq, Structural)]
pub struct MachHeader64 {
    pub magic: u32,
    pub cputype: i32,
    pub cpusubtype: i32,
    pub filetype: u32,
    pub ncmds: u32,
    pub sizeofcmds: u32,
    pub flags: u32,
    pub reserved: u32,
}

impl Record for MachHeader64 {
    open spec fn encoded_len() -> nat {
        32
    }

    open spec fn decode(bytes: Seq<u8>) -> MachHeader64 {
        MachHeader64 {
            magic: u32_le(bytes, 0),
            cputype: signed_u32(u32_le(bytes, 4)),
            cpusubtype: signed_u32(u32_le(bytes, 8)),
            filetype: u32_le(bytes, 12),
            ncmds: u32_le(bytes, 16),
            sizeofcmds: u32_le(bytes, 20),
            flags: u32_le(bytes, 24),
            reserved: u32_le(bytes, 28),
        }
    }

    fn size() -> (n: usize) {
        32
    }

    fn from_bytes(bytes: &[u8]) -> (record: Option<MachHeader64>) {
        if bytes.len() != 32 {
            return None;
        }
        Some(
            MachHeader64 {
                magic: read_u32_le(bytes, 0),
                cputype: to_signed(read_u32_le(bytes, 4)),
                cpusubtype: to_signed(read_u32_le(bytes, 8)),
                filetype: read_u32_le(bytes, 12),
                ncmds: read_u32_le(bytes, 16),
                sizeofcmds: read_u32_le(bytes, 20),
                flags: read_u32_le(bytes, 24),
                reserved: read_u32_le(bytes, 28),
            },
        )
    }
}

/// The two fields that every load command starts with.  `cmdsize` counts
/// these eight bytes too, and is the distance to the next command.
#[derive(Clone, Copy, Debug, PartialEq, Eq, Structural)]
pub struct LoadCommand {
    pub cmd: u32,
    pub cmdsize: u32,
}

impl Record for LoadCommand {
    open spec fn encoded_len() -> nat {
        8
    }

    open spec fn decode(bytes: Seq<u8>) -> LoadCommand {
        LoadCommand { cmd: u32_le(bytes, 0), cmdsize: u32_le(bytes, 4) }
    }

    fn size() -> (n: usize) {
        8
    }

    fn from_bytes(bytes: &[u8]) -> (record: Option<LoadCommand>) {
        if bytes.len() != 8 {
            return None;
        }
        Some(LoadCommand { cmd: read_u32_le(bytes, 0), cmdsize: read_u32_le(bytes, 4) })
    }
}

/// Load command of a 64-bit segment.
#[derive(Clone, Copy, Debug, PartialEq, Eq)]
pub struct SegmentCommand64 {
    pub cmd: u32,
    pub cmdsize: u32,
    pub segname: [u8; 16],
    pub vmaddr: u64,
    pub vmsize: u64,
    pub fileoff: u64,
    pub filesize: u64,
    pub maxprot: i32,
    pub initprot: i32,
    pub nsects: u32,
    pub flags: u32,
}

impl SegmentCommand64 {
    /// The segment's name: the bytes of `segname` before its first zero byte.
    pub open spec fn name(self) -> Seq<u8> {
        c_string(self.segname@, 0)
    }
}

impl Record for SegmentCommand64 {
    open spec fn encoded_len() -> nat {
        72
    }

    open spec fn decode(bytes: Seq<u8>) -> SegmentCommand64 {
        SegmentCommand64 {
            cmd: u32_le(bytes, 0),
            cmdsize: u32_le(bytes, 4),
            segname: name_field(bytes, 8),
            vmaddr: u64_le(bytes, 24),
            vmsize: u64_le(bytes, 32),
            fileoff: u64_le(bytes, 40),
            filesize: u64_le(bytes, 48),
            maxprot: signed_u32(u32_le(bytes, 56)),
            initprot: signed_u32(u32_le(bytes, 60)),
            nsects: u32_le(bytes, 64),
            flags: u32_le(bytes, 68),
        }
    }

    fn size() -> (n: usize) {
        72
    }

    fn from_bytes(bytes: &[u8]) -> (record: Option<SegmentCommand64>) {
        if bytes.len() != 72 {
            return None;
        }
        Some(
            SegmentCommand64 {
                cmd: read_u32_le(bytes, 0),
                cmdsize: read_u32_le(bytes, 4),
                segname: read_name_field(bytes, 8),
                vmaddr: read_u64_le(bytes, 24),
                vmsize: read_u64_le(bytes, 32),
                fileoff: read_u64_le(bytes, 40),
                filesize: read_u64_le(bytes, 48),
                maxprot: to_signed(read_u32_le(bytes, 56)),
                initprot: to_signed(read_u32_le(bytes, 60)),
                nsects: read_u32_le(bytes, 64),
                flags: read_u32_le(bytes, 68),
            },
        )
    }
}

/// A section of a segment, as it follows the segment's load command.
#[derive(Clone, Copy, Debug, PartialEq, Eq)]
pub struct Section64 {
    pub sectname: [u8; 16],
    pub segname: [u8; 16],
    pub addr: u64,
    pub size: u64,
    pub offset: u32,
    pub align: u32,
    pub reloff: u32,
    pub nreloc: u32,
    pub flags: u32,
    pub reserved1: u32,
    pub reserved2: u32,
    pub reserved3: u32,
}

impl Section64 {
    /// The section's name: the bytes of `sectname` before its first zero
    /// byte.
    pub open spec fn name(self) -> Seq<u8> {
        c_string(self.sectname@, 0)
    }
}

/// The sixteen bytes of a name field that starts at `at`.
pub open spec fn name_field(bytes: Seq<u8>, at: int) -> [u8; 16] {
    [
        bytes[at],
        bytes[at + 1],
        bytes[at + 2],
        bytes[at + 3],
        bytes[at + 4],
        bytes[at + 5],
        bytes[at + 6],
        bytes[at + 7],
        bytes[at + 8],
        bytes[at + 9],
        bytes[at + 10],
        bytes[at + 11],
        bytes[at + 12],
        bytes[at + 13],
        bytes[at + 14],
        bytes[at + 15],
    ]
}

/// The sixteen bytes of a name field that starts at `at`.
pub fn read_name_field(bytes: &[u8], at: usize) -> (name: [u8; 16])
    requires
        at + 16 <= bytes.len(),
    ensures
        name == name_field(bytes@, at as int),
{
    [
        bytes[at],
        bytes[at + 1],
        bytes[at + 2],
        bytes[at + 3],
        bytes[at + 4],
        bytes[at + 5],
        bytes[at + 6],
        bytes[at + 7],
        bytes[at + 8],
        bytes[at + 9],
        bytes[at + 10],
        bytes[at + 11],
        bytes[at + 12],
        bytes[at + 13],
        bytes[at + 14],
        bytes[at + 15],
    ]
}

impl Record for Section64 {
    open spec fn encoded_len() -> nat {
        80
    }

    open spec fn decode(bytes: Seq<u8>) -> Section64 {
        Section64 {
            sectname: name_field(bytes, 0),
            segname: name_field(bytes, 16),
            addr: u64_le(bytes, 32),
            size: u64_le(bytes, 40),
            offset: u32_le(bytes, 48),
            align: u32_le(bytes, 52),
            reloff: u32_le(bytes, 56),
            nreloc: u32_le(bytes, 60),
            flags: u32_le(bytes, 64),
            reserved1: u32_le(bytes, 68),
            reserved2: u32_le(bytes, 72),
            reserved3: u32_le(bytes, 76),
        }
    }

    fn size() -> (n: usize) {
        80
    }

    fn from_bytes(bytes: &[u8]) -> (record: Option<Section64>) {
        if bytes.len() != 80 {
            return None;
        }
        Some(
            Section64 {
                sectname: read_name_field(bytes, 0),
                segname: read_name_field(bytes, 16),
                addr: read_u64_le(bytes, 32),
                size: read_u64_le(bytes, 40),
                offset: read_u32_le(bytes, 48),
                align: read_u32_le(bytes, 52),
                reloff: read_u32_le(bytes, 56),
                nreloc: read_u32_le(bytes, 60),
                flags: read_u32_le(bytes, 64),
                reserved1: read_u32_le(bytes, 68),
                reserved2: read_u32_le(bytes, 72),
                reserved3: read_u32_le(bytes, 76),
            },
        )
    }
}

/// Load command of the symbol table.
#[derive(Clone, Copy, Debug, PartialEq, Eq, Structural)]
pub struct SymtabCommand {
    pub cmd: u32,
    pub cmdsize: u32,
    pub symoff: u32,
    pub nsyms: u32,
    pub stroff: u32,
    pub strsize: u32,
}

impl Record for SymtabCommand {
    open spec fn encoded_len() -> nat {
        24
    }

    open spec fn decode(bytes: Seq<u8>) -> SymtabCommand {
        SymtabCommand {
            cmd: u32_le(bytes, 0),
            cmdsize: u32_le(bytes, 4),
            symoff: u32_le(bytes, 8),
            nsyms: u32_le(bytes, 12),
            stroff: u32_le(bytes, 16),
            strsize: u32_le(bytes, 20),
        }
    }

    fn size() -> (n: usize) {
        24
    }

    fn from_bytes(bytes: &[u8]) -> (record: Option<SymtabCommand>) {
        if bytes.len() != 24 {
            return None;
        }
        Some(
            SymtabCommand {
                cmd: read_u32_le(bytes, 0),
                cmdsize: read_u32_le(bytes, 4),
                symoff: read_u32_le(bytes, 8),
                nsyms: read_u32_le(bytes, 12),
                stroff: read_u32_le(bytes, 16),
                strsize: read_u32_le(bytes, 20),
            },
        )
    }
}

/// An entry of the symbol table.
#[derive(Clone, Copy, Debug, PartialEq, Eq, Structural)]
pub struct Nlist64 {
    /// Offset of the symbol's name in the string table.
    pub n_strx: u32,
    pub n_type: u8,
    pub n_sect: u8,
    pub n_desc: u16,
    /// The symbol's virtual address.
    pub n_value: u64,
}

impl Record for Nlist64 {
    open spec fn encoded_len() -> nat {
        16
    }

    open spec fn decode(bytes: Seq<u8>) -> Nlist64 {
        Nlist64 {
            n_strx: u32_le(bytes, 0),
            n_type: bytes[4],
            n_sect: bytes[5],
            n_desc: u16_le(bytes, 6),
            n_value: u64_le(bytes, 8),
        }
    }

    fn size() -> (n: usize) {
        16
    }

    fn from_bytes(bytes: &[u8]) -> (record: Option<Nlist64>) {
        if bytes.len() != 16 {
            return None;
        }
        Some(
            Nlist64 {
                n_strx: read_u32_le(bytes, 0),
                n_type: bytes[4],
                n_sect: bytes[5],
                n_desc: read_u16_le(bytes, 6),
                n_value: read_u64_le(bytes, 8),
            },
        )
    }
}

/// Header of a fat container, as its eight bytes read least significant
/// byte first.
#[derive(Clone, Copy, Debug, PartialEq, Eq, Structural)]
pub struct FatHeader {
    pub magic: u32,
    pub nfat_arch: u32,
}

impl FatHeader {
    /// Whether the container's fields lie in reverse byte order.
    pub open spec fn reversed(self) -> bool {
        self.magic == FAT_CIGAM
    }

    /// The number of architecture entries that follow the header.
    pub open spec fn spec_arch_count(self) -> u32 {
        in_order(self.nfat_arch, self.reversed())
    }

    /// The number of architecture entries that follow the header:
    /// `nfat_arch` with its bytes reversed where the magic is `FAT_CIGAM`,
    /// and as it stands otherwise.
    pub fn arch_count(&self) -> (n: u32)
        ensures
            n == self.spec_arch_count(),
            self.magic == FAT_CIGAM ==> n == swap_u32(self.nfat_arch),
            self.magic != FAT_CIGAM ==> n == self.nfat_arch,
    {
        restore_order(self.nfat_arch, self.magic == FAT_CIGAM)
    }
}

impl Record for FatHeader {
    open spec fn encoded_len() -> nat {
        8
    }

    open spec fn decode(bytes: Seq<u8>) -> FatHeader {
        FatHeader { magic: u32_le(bytes, 0), nfat_arch: u32_le(bytes, 4) }
    }

    fn size() -> (n: usize) {
        8
    }

    fn from_bytes(bytes: &[u8]) -> (record: Option<FatHeader>) {
        if bytes.len() != 8 {
            return None;
        }
        Some(FatHeader { magic: read_u32_le(bytes, 0), nfat_arch: read_u32_le(bytes, 4) })
    }
}

/// An architecture entry of a fat container, as its twenty bytes read least
/// significant byte first.
#[derive(Clone, Copy, Debug, PartialEq, Eq, Structural)]
pub struct FatArch {
    pub cputype: u32,
    pub cpusubtype: u32,
    pub offset: u32,
    pub size: u32,
    pub align: u32,
}

impl Record for FatArch {
    open spec fn encoded_len() -> nat {
        20
    }

    open spec fn decode(bytes: Seq<u8>) -> FatArch {
        FatArch {
            cputype: u32_le(bytes, 0),
            cpusubtype: u32_le(bytes, 4),
            offset: u32_le(bytes, 8),
            size: u32_le(bytes, 12),
            align: u32_le(bytes, 16),
        }
    }

    fn size() -> (n: usize) {
        20
    }

    fn from_bytes(bytes: &[u8]) -> (record: Option<FatArch>) {
        if bytes.len() != 20 {
            return None;
        }
        Some(
            FatArch {
                cputype: read_u32_le(bytes, 0),
                cpusubtype: read_u32_le(bytes, 4),
                offset: read_u32_le(bytes, 8),
                size: read_u32_le(bytes, 12),
                align: read_u32_le(bytes, 16),
            },
        )
    }
}

/// A field of a fat container in the order in which it is meant.
pub open spec fn in_order(field: u32, reversed: bool) -> u32 {
    if reversed {
        swap_u32(field)
    } else {
        field
    }
}

/// A field of a fat container in the order in which it is meant.
pub fn restore_order(field: u32, reversed: bool) -> (value: u32)
    ensures
        value == in_order(field, reversed),
{
    if reversed {
        swap_bytes(field)
    } else {
        field
    }
}

/// Reads the record of type `T` that lies at the cursor.
pub fn read_struct<T: Record, R: ReadSeek>(reader: &mut R) -> (res: Result<T, StreamError>)
    ensures
        old(reader).faithful() ==> {
            &&& final(reader).faithful()
            &&& final(reader).contents() == old(reader).contents()
            &&& if available(
                old(reader).contents(),
                old(reader).position() as int,
                T::encoded_len() as int,
            ) {
                &&& res == Ok::<T, StreamError>(
                    record_at::<T>(old(reader).contents(), old(reader).position() as int),
                )
                &&& final(reader).position() == old(reader).position() + T::encoded_len()
            } else {
                res == Err::<T, StreamError>(StreamError::UnexpectedEof)
            }
        },
{
    let bytes = read_exact(reader, T::size())?;
    match T::from_bytes(bytes.as_slice()) {
        Some(record) => Ok(record),
        None => Err(StreamError::UnexpectedEof),
    }
}

} // verus!
