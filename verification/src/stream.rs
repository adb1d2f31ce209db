//! Byte sources that can be read and repositioned.
//!
//! A source may vouch for what it delivers: it is then *faithful*, and its
//! reads and seeks are stated over the bytes it holds and a cursor.  Of a
//! source that does not vouch (one backed by foreign code), only what holds
//! of every outcome is promised.

use crate::text::{push_signed_decimal, signed_decimal};
use vstd::prelude::*;
use vstd::string::StringExecFns;

verus! {

/// Where a seek counts from.
#[derive(Clone, Copy, Debug, PartialEq, Eq, Structural)]
pub enum SeekFrom {
    /// A position counted from the first byte.
    Start(u64),
    /// A position counted from the end of the source.
    End(i64),
    /// A position counted from the cursor.
    Current(i64),
}

/// Why a read or a seek delivered nothing.
#[derive(Clone, Copy, Debug, PartialEq, Eq, Structural)]
pub enum StreamError {
    /// The source refused the seek and gave this negative code.
    SeekFailed(i64),
    /// The seek aimed before the first byte or past what a position can hold.
    InvalidSeek,
    /// The source ended before the bytes asked for.
    UnexpectedEof,
}

/// Why a provider delivered no stream.
#[derive(Clone, Copy, Debug, PartialEq, Eq, Structural)]
pub enum OpenError {
    /// The foreign `open` entry point returned a null handle.
    NullHandle,
    /// The provider could not reach its source.
    Unavailable,
}

/// The position that a seek aims at, in a source of `len` bytes whose cursor
/// stands at `position`.
pub open spec fn seek_target(len: nat, position: u64, pos: SeekFrom) -> int {
    match pos {
        SeekFrom::Start(n) => n as int,
        SeekFrom::End(n) => len + n,
        SeekFrom::Current(n) => position + n,
    }
}

/// What a request for `n` bytes at `at` can deliver from `s`: the bytes of
/// `s` from `at` on, `n` of them or as many as are left.
pub open spec fn window(s: Seq<u8>, at: int, n: int) -> Seq<u8> {
    if 0 <= at < s.len() && 0 < n {
        s.subrange(
            at,
            if at + n <= s.len() {
                at + n
            } else {
                s.len() as int
            },
        )
    } else {
        Seq::empty()
    }
}

/// Whether `s` holds `n` bytes at `at`.
pub open spec fn available(s: Seq<u8>, at: int, n: int) -> bool {
    n == 0 || (0 <= at && 0 <= n && at + n <= s.len())
}

/// A byte source with a cursor.
///
/// The three spec functions are the source's account of itself.  Left as
/// they are, the source vouches for nothing, and the contracts below promise
/// nothing of it: what reads such a source is proved for whatever it
/// delivers.
pub trait ReadSeek {
    /// Whether the source vouches that its reads and seeks act on
    /// `contents()` and `position()` as the contracts below state, and fail
    /// only where they say.
    open spec fn faithful(&self) -> bool {
        false
    }

    /// The bytes of the source.
    open spec fn contents(&self) -> Seq<u8> {
        Seq::empty()
    }

    /// The cursor: the offset of the next byte to be read.
    open spec fn position(&self) -> u64 {
        0
    }

    /// Reads at most `len` bytes at the cursor and moves the cursor past
    /// them.  No bytes are delivered only if none were asked for or the
    /// cursor stands at or past the end.
    fn read(&mut self, len: usize) -> (res: Result<Vec<u8>, StreamError>)
        ensures
            old(self).faithful() ==> {
                &&& final(self).faithful()
                &&& final(self).contents() == old(self).contents()
                &&& res matches Ok(bytes)
                &&& bytes@.len() <= len
                &&& bytes@ == window(
                    old(self).contents(),
                    old(self).position() as int,
                    bytes@.len() as int,
                )
                &&& final(self).position() == old(self).position() + bytes@.len()
                &&& (bytes@.len() == 0 <==> len == 0 || old(self).position() >= old(
                    self,
                ).contents().len())
            },
    ;

    /// Moves the cursor to the position that `pos` aims at, and returns it.
    /// A faithful source refuses exactly the positions below zero and above
    /// `u64::MAX`, and then leaves the cursor where it was.
    fn seek(&mut self, pos: SeekFrom) -> (res: Result<u64, StreamError>)
        ensures
            old(self).faithful() ==> {
                &&& final(self).faithful()
                &&& final(self).contents() == old(self).contents()
                &&& match res {
                    Ok(p) => {
                        &&& p == seek_target(
                            old(self).contents().len(),
                            old(self).position(),
                            pos,
                        )
                        &&& final(self).position() == p
                    },
                    Err(_) => {
                        &&& !(0 <= seek_target(
                            old(self).contents().len(),
                            old(self).position(),
                            pos,
                        ) <= u64::MAX)
                        &&& final(self).position() == old(self).position()
                    },
                }
            },
    ;
}

/// A source of streams: each call of `open` delivers a fresh one.
pub trait ExternalFileProvider {
    /// The streams that this provider opens.
    type Stream: ReadSeek;

    /// Opens the source.
    fn open(&self) -> Result<Self::Stream, OpenError>;
}

/// The most bytes asked of a source in one read.
pub const READ_CHUNK: u64 = 0x10_0000;

/// The cursor of `reader`.
pub fn stream_position<R: ReadSeek>(reader: &mut R) -> (res: Result<u64, StreamError>)
    ensures
        old(reader).faithful() ==> {
            &&& final(reader).faithful()
            &&& final(reader).contents() == old(reader).contents()
            &&& final(reader).position() == old(reader).position()
            &&& res == Ok::<u64, StreamError>(old(reader).position())
        },
{
    reader.seek(SeekFrom::Current(0))
}

/// Moves the cursor of `reader` to `at`, counted from the first byte.
pub fn seek_to<R: ReadSeek>(reader: &mut R, at: u64) -> (res: Result<(), StreamError>)
    ensures
        old(reader).faithful() ==> {
            &&& final(reader).faithful()
            &&& final(reader).contents() == old(reader).contents()
            &&& final(reader).position() == at
            &&& res is Ok
        },
{
    match reader.seek(SeekFrom::Start(at)) {
        Ok(_) => Ok(()),
        Err(e) => Err(e),
    }
}

/// Reads `n` bytes at the cursor, or as many as are left, asking the source
/// again after each short read.  Of a source that delivers more than was
/// asked for, the surplus is dropped.
pub fn read_up_to<R: ReadSeek>(reader: &mut R, n: u64) -> (res: Result<Vec<u8>, StreamError>)
    ensures
        res matches Ok(bytes) ==> bytes@.len() <= n,
        old(reader).faithful() ==> {
            &&& final(reader).faithful()
            &&& final(reader).contents() == old(reader).contents()
            &&& res matches Ok(bytes)
            &&& bytes@ == window(old(reader).contents(), old(reader).position() as int, n as int)
            &&& final(reader).position() == old(reader).position() + bytes@.len()
        },
{
    let ghost vouched = reader.faithful();
    let ghost held = reader.contents();
    let ghost first = reader.position() as int;
    let mut out: Vec<u8> = Vec::new();
    let mut left: u64 = n;
    while left > 0
        invariant
            out@.len() + left == n,
            vouched == old(reader).faithful(),
            held == old(reader).contents(),
            first == old(reader).position(),
            vouched ==> {
                &&& reader.faithful()
                &&& reader.contents() == held
                &&& reader.position() == first + out@.len()
                &&& out@ == window(held, first, out@.len() as int)
            },
        ensures
            out@.len() <= n,
            vouched ==> {
                &&& reader.faithful()
                &&& reader.contents() == held
                &&& reader.position() == first + out@.len()
                &&& out@ == window(held, first, n as int)
            },
        decreases left,
    {
        let ask: usize = if left < READ_CHUNK {
            left as usize
        } else {
            READ_CHUNK as usize
        };
        let mut chunk = reader.read(ask)?;
        if chunk.len() > ask {
            chunk.truncate(ask);
        }
        if chunk.len() == 0 {
            break ;
        }
        proof {
            if vouched {
                assert(out@ + chunk@ =~= window(held, first, (out@.len() + chunk@.len()) as int));
            }
        }
        left = left - chunk.len() as u64;
        out.append(&mut chunk);
    }
    Ok(out)
}

/// Reads exactly `n` bytes at the cursor.
pub fn read_exact<R: ReadSeek>(reader: &mut R, n: usize) -> (res: Result<Vec<u8>, StreamError>)
    ensures
        res matches Ok(bytes) ==> bytes@.len() == n,
        old(reader).faithful() ==> {
            &&& final(reader).faithful()
            &&& final(reader).contents() == old(reader).contents()
            &&& if available(old(reader).contents(), old(reader).position() as int, n as int) {
                &&& res matches Ok(bytes)
                &&& bytes@ == window(
                    old(reader).contents(),
                    old(reader).position() as int,
                    n as int,
                )
                &&& final(reader).position() == old(reader).position() + n
            } else {
                res == Err::<Vec<u8>, StreamError>(StreamError::UnexpectedEof)
            }
        },
{
    let bytes = read_up_to(reader, n as u64)?;
    if bytes.len() < n {
        Err(StreamError::UnexpectedEof)
    } else {
        Ok(bytes)
    }
}


impl StreamError {
    /// What `to_text` says of the error.
    pub open spec fn text(self) -> Seq<char> {
        match self {
            StreamError::SeekFailed(code) => "CFile seek failed with error code: "@
                + signed_decimal(code as int),
            StreamError::InvalidSeek => "invalid seek to a negative or overflowing position"@,
            StreamError::UnexpectedEof => "failed to fill whole buffer"@,
        }
    }

    /// The error in words.
    pub fn to_text(&self) -> (message: String)
        ensures
            message@ == self.text(),
    {
        match self {
            StreamError::SeekFailed(code) => {
                let mut message = String::from_str("CFile seek failed with error code: ");
                push_signed_decimal(&mut message, *code);
                message
            },
            StreamError::InvalidSeek => String::from_str(
                "invalid seek to a negative or overflowing position",
            ),
            StreamError::UnexpectedEof => String::from_str("failed to fill whole buffer"),
        }
    }
}

impl OpenError {
    /// What `to_text` says of the error.
    pub open spec fn text(self) -> Seq<char> {
        match self {
            OpenError::NullHandle => "CFile open failed - callback returned null. Check file path accessibility."@,
            OpenError::Unavailable => "file provider could not open its source"@,
        }
    }

    /// The error in words.
    pub fn to_text(&self) -> (message: String)
        ensures
            message@ == self.text(),
    {
        match self {
            OpenError::NullHandle => String::from_str(
                "CFile open failed - callback returned null. Check file path accessibility.",
            ),
            OpenError::Unavailable => String::from_str("file provider could not open its source"),
        }
    }
}

} // verus!
