//! A stream over bytes held in memory.

use crate::bytes::copy_range;
use crate::stream::{ReadSeek, SeekFrom, StreamError};
use vstd::prelude::*;

verus! {

/// Bytes in memory with a cursor.  It vouches for what it delivers: every
/// read comes from the bytes it was made with.
pub struct MemoryStream {
    data: Vec<u8>,
    pos: u64,
}

impl MemoryStream {
    /// A stream over `data` with the cursor on the first byte.
    pub fn new(data: Vec<u8>) -> (stream: MemoryStream)
        ensures
            stream.faithful(),
            stream.contents() == data@,
            stream.position() == 0,
    {
        MemoryStream { data, pos: 0 }
    }

    /// The bytes that the stream was made with.
    pub fn into_inner(self) -> (data: Vec<u8>)
        ensures
            data@ == self.contents(),
    {
        self.data
    }

    /// The cursor.
    pub fn cursor(&self) -> (pos: u64)
        ensures
            pos == self.position(),
    {
        self.pos
    }
}

impl ReadSeek for MemoryStream {
    open spec fn faithful(&self) -> bool {
        true
    }

    closed spec fn contents(&self) -> Seq<u8> {
        self.data@
    }

    closed spec fn position(&self) -> u64 {
        self.pos
    }

    fn read(&mut self, len: usize) -> (res: Result<Vec<u8>, StreamError>) {
        let total: usize = self.data.len();
        if len == 0 || self.pos >= total as u64 {
            return Ok(Vec::new());
        }
        let start: usize = self.pos as usize;
        let left: usize = total - start;
        let n: usize = if len < left {
            len
        } else {
            left
        };
        let bytes = copy_range(self.data.as_slice(), start, start + n);
        self.pos = self.pos + n as u64;
        Ok(bytes)
    }

    fn seek(&mut self, pos: SeekFrom) -> (res: Result<u64, StreamError>) {
        let target: i128 = match pos {
            SeekFrom::Start(n) => n as i128,
            SeekFrom::End(n) => self.data.len() as i128 + n as i128,
            SeekFrom::Current(n) => self.pos as i128 + n as i128,
        };
        if target < 0 || target > u64::MAX as i128 {
            Err(StreamError::InvalidSeek)
        } else {
            self.pos = target as u64;
            Ok(self.pos)
        }
    }
}

} // verus!
