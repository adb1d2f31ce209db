//! The walk over the load commands of a Mach-O image.

use crate::bytes::{bytes_equal, get_string_from_table};
use crate::ios_snapshot_parser::{
    read_next_record, read_record_at, try_record_at, ExtractError,
};
use crate::macho::{
    record_at, LoadCommand, Section64, SegmentCommand64, SymtabCommand, LC_SEGMENT_64, LC_SYMTAB,
};
use crate::stream::{available, seek_to, ReadSeek, StreamError};
use vstd::prelude::*;
use vstd::string::StringSliceAdditionalSpecFns;

verus! {

/// Name of the segment that holds the code and the snapshots.
pub const TEXT_SEGMENT: &'static str = "__TEXT";

/// Name of the segment that holds the symbol and string tables.
pub const LINKEDIT_SEGMENT: &'static str = "__LINKEDIT";

/// What a walk over the load commands of an image has found, and where it
/// stands.
#[derive(Clone, Copy, Debug, PartialEq, Eq)]
pub struct LoadCommands {
    /// The last `__TEXT` segment command met.
    pub text: Option<SegmentCommand64>,
    /// The last `__LINKEDIT` segment command met.
    pub linkedit: Option<SegmentCommand64>,
    /// The last symbol-table command met.
    pub symtab: Option<SymtabCommand>,
    /// Where the next command starts.
    pub end: u64,
}

impl LoadCommands {
    /// A walk that has met no command yet and stands at `first`.
    pub open spec fn starting_at(first: u64) -> LoadCommands {
        LoadCommands { text: None, linkedit: None, symtab: None, end: first }
    }

    /// The walk after the command at `self.end`.  A segment command whose
    /// name is `__TEXT` or `__LINKEDIT` and a symbol-table command are kept;
    /// every command moves the walk on by its `cmdsize`.  The step fails
    /// where the file ends before the command does, and where the next
    /// command would start past what a file position can hold.
    pub open spec fn step(self, file: Seq<u8>) -> Result<LoadCommands, ExtractError> {
        let at = self.end as int;
        let command = record_at::<LoadCommand>(file, at);
        let end = (at + command.cmdsize) as u64;
        if !available(file, at, 8) {
            Err(ExtractError::Stream(StreamError::UnexpectedEof))
        } else if command.cmd == LC_SEGMENT_64 {
            let segment = record_at::<SegmentCommand64>(file, at);
            if !available(file, at, 72) {
                Err(ExtractError::Stream(StreamError::UnexpectedEof))
            } else if at + command.cmdsize > u64::MAX {
                Err(ExtractError::OffsetOutOfRange)
            } else if segment.name() == TEXT_SEGMENT.spec_bytes() {
                Ok(LoadCommands { text: Some(segment), end, ..self })
            } else if segment.name() == LINKEDIT_SEGMENT.spec_bytes() {
                Ok(LoadCommands { linkedit: Some(segment), end, ..self })
            } else {
                Ok(LoadCommands { end, ..self })
            }
        } else if command.cmd == LC_SYMTAB {
            if !available(file, at, 24) {
                Err(ExtractError::Stream(StreamError::UnexpectedEof))
            } else if at + command.cmdsize > u64::MAX {
                Err(ExtractError::OffsetOutOfRange)
            } else {
                Ok(LoadCommands { symtab: Some(record_at::<SymtabCommand>(file, at)), end, ..self })
            }
        } else if at + command.cmdsize > u64::MAX {
            Err(ExtractError::OffsetOutOfRange)
        } else {
            Ok(LoadCommands { end, ..self })
        }
    }

    /// A walk that has met no command yet and stands at `first`.
    pub fn new(first: u64) -> (commands: LoadCommands)
        ensures
            commands == LoadCommands::starting_at(first),
    {
        LoadCommands { text: None, linkedit: None, symtab: None, end: first }
    }
}

/// The walk `commands` after `left` more commands.
pub open spec fn walk(file: Seq<u8>, commands: LoadCommands, left: nat) -> Result<
    LoadCommands,
    ExtractError,
>
    decreases left,
{
    if left == 0 {
        Ok(commands)
    } else {
        match commands.step(file) {
            Err(e) => Err(e),
            Ok(next) => walk(file, next, (left - 1) as nat),
        }
    }
}

/// Reads the command at which the walk `commands` stands, and moves the
/// walk on.
pub fn note_command<R: ReadSeek>(reader: &mut R, commands: LoadCommands) -> (res: Result<
    LoadCommands,
    ExtractError,
>)
    ensures
        old(reader).faithful() ==> {
            &&& final(reader).faithful()
            &&& final(reader).contents() == old(reader).contents()
            &&& res == commands.step(old(reader).contents())
        },
{
    let at: u64 = commands.end;
    let command = read_record_at::<LoadCommand, R>(reader, at)?;
    let mut next = commands;
    if command.cmd == LC_SEGMENT_64 {
        let segment = read_record_at::<SegmentCommand64, R>(reader, at)?;
        let name = get_string_from_table(segment.segname.as_slice(), 0);
        if bytes_equal(name, TEXT_SEGMENT.as_bytes()) {
            next.text = Some(segment);
        } else if bytes_equal(name, LINKEDIT_SEGMENT.as_bytes()) {
            next.linkedit = Some(segment);
        }
    } else if command.cmd == LC_SYMTAB {
        let symtab = read_record_at::<SymtabCommand, R>(reader, at)?;
        next.symtab = Some(symtab);
    }
    if command.cmdsize as u64 > u64::MAX - at {
        return Err(ExtractError::OffsetOutOfRange);
    }
    next.end = at + command.cmdsize as u64;
    Ok(next)
}

/// Walks the `ncmds` load commands that start at `first`.  The walk ends
/// `cmdsize_sum` past `first`: each command moves it on by its `cmdsize`,
/// whatever the command is.
pub fn walk_load_commands<R: ReadSeek>(reader: &mut R, first: u64, ncmds: u32) -> (res: Result<
    LoadCommands,
    ExtractError,
>)
    ensures
        old(reader).faithful() ==> {
            &&& final(reader).faithful()
            &&& final(reader).contents() == old(reader).contents()
            &&& res == walk(old(reader).contents(), LoadCommands::starting_at(first), ncmds as nat)
            &&& res matches Ok(done) ==> done.end == first + cmdsize_sum(
                old(reader).contents(),
                first as int,
                ncmds as nat,
            )
        },
{
    proof {
        lemma_walk_advances_by_cmdsize(
            reader.contents(),
            LoadCommands::starting_at(first),
            ncmds as nat,
        );
    }
    let ghost vouched = reader.faithful();
    let ghost file = reader.contents();
    let mut commands = LoadCommands::new(first);
    let mut done: u32 = 0;
    while done < ncmds
        invariant
            done <= ncmds,
            vouched == old(reader).faithful(),
            file == old(reader).contents(),
            vouched ==> {
                &&& reader.faithful()
                &&& reader.contents() == file
                &&& walk(file, LoadCommands::starting_at(first), ncmds as nat) == walk(
                    file,
                    commands,
                    (ncmds - done) as nat,
                )
            },
        decreases ncmds - done,
    {
        commands = note_command(reader, commands)?;
        done = done + 1;
    }
    Ok(commands)
}

/// The `count` sections that lie one after the other from `first` on.  The
/// list fails where the file ends before a section does.
pub open spec fn section_list(file: Seq<u8>, first: int, count: nat) -> Result<
    Seq<Section64>,
    ExtractError,
>
    decreases count,
{
    if count == 0 {
        Ok(Seq::empty())
    } else {
        match section_list(file, first, (count - 1) as nat) {
            Err(e) => Err(e),
            Ok(before) => match try_record_at::<Section64>(file, first + 80 * (count - 1)) {
                Err(e) => Err(e),
                Ok(section) => Ok(before.push(section)),
            },
        }
    }
}

/// The first `count` sections that follow the segment command at `at`.
pub open spec fn sections_after(file: Seq<u8>, at: int, count: nat) -> Result<
    Seq<Section64>,
    ExtractError,
> {
    if count > 0 && at + 72 > u64::MAX {
        Err(ExtractError::OffsetOutOfRange)
    } else {
        section_list(file, at + 72, count)
    }
}

/// Reads the `nsects` sections that follow the segment command at
/// `command_offset`.
pub fn read_sections<R: ReadSeek>(reader: &mut R, command_offset: u64, nsects: u32) -> (res: Result<
    Vec<Section64>,
    ExtractError,
>)
    ensures
        old(reader).faithful() ==> {
            &&& final(reader).faithful()
            &&& final(reader).contents() == old(reader).contents()
            &&& match res {
                Ok(sections) => sections_after(
                    old(reader).contents(),
                    command_offset as int,
                    nsects as nat,
                ) == Ok::<Seq<Section64>, ExtractError>(sections@),
                Err(e) => sections_after(
                    old(reader).contents(),
                    command_offset as int,
                    nsects as nat,
                ) == Err::<Seq<Section64>, ExtractError>(e),
            }
        },
{
    let ghost vouched = reader.faithful();
    let ghost file = reader.contents();
    let mut sections: Vec<Section64> = Vec::new();
    if nsects == 0 {
        return Ok(sections);
    }
    if command_offset > u64::MAX - 72 {
        return Err(ExtractError::OffsetOutOfRange);
    }
    match seek_to(reader, command_offset + 72) {
        Ok(()) => {},
        Err(e) => {
            return Err(ExtractError::Stream(e));
        },
    }
    let mut done: u32 = 0;
    while done < nsects
        invariant
            done <= nsects,
            vouched == old(reader).faithful(),
            file == old(reader).contents(),
            vouched ==> {
                &&& reader.faithful()
                &&& reader.contents() == file
                &&& reader.position() == command_offset + 72 + 80 * done
                &&& section_list(file, command_offset + 72, done as nat) == Ok::<
                    Seq<Section64>,
                    ExtractError,
                >(sections@)
            },
        decreases nsects - done,
    {
        match read_next_record::<Section64, R>(reader) {
            Ok(section) => {
                sections.push(section);
            },
            Err(e) => {
                proof {
                    if vouched {
                        lemma_sections_fail_on(
                            file,
                            command_offset + 72,
                            (done + 1) as nat,
                            nsects as nat,
                        );
                    }
                }
                return Err(e);
            },
        }
        done = done + 1;
    }
    Ok(sections)
}

/// A list of sections that fails at some length fails at every greater
/// length, in the same way.
pub proof fn lemma_sections_fail_on(file: Seq<u8>, first: int, short: nat, long: nat)
    requires
        short <= long,
        section_list(file, first, short) is Err,
    ensures
        section_list(file, first, long) == section_list(file, first, short),
    decreases long,
{
    if short < long {
        lemma_sections_fail_on(file, first, short, (long - 1) as nat);
    }
}

/// The sum of the `cmdsize` fields of the `count` load commands of which
/// the first stands at `first` and each next one where the one before it
/// ends.
pub open spec fn cmdsize_sum(file: Seq<u8>, first: int, count: nat) -> int
    decreases count,
{
    if count == 0 {
        0
    } else {
        let size = record_at::<LoadCommand>(file, first).cmdsize;
        size + cmdsize_sum(file, first + size, (count - 1) as nat)
    }
}

/// A walk over `count` load commands moves on by exactly the sum of their
/// `cmdsize` fields, whatever the commands are.
pub proof fn lemma_walk_advances_by_cmdsize(file: Seq<u8>, commands: LoadCommands, count: nat)
    ensures
        walk(file, commands, count) matches Ok(done) ==> done.end == commands.end + cmdsize_sum(
            file,
            commands.end as int,
            count,
        ),
    decreases count,
{
    if count > 0 {
        match commands.step(file) {
            Ok(next) => {
                assert(next.end == commands.end + record_at::<LoadCommand>(
                    file,
                    commands.end as int,
                ).cmdsize);
                lemma_walk_advances_by_cmdsize(file, next, (count - 1) as nat);
            },
            Err(_) => {},
        }
    }
}

} // verus!
