//! The boundary to a host that supplies a file through four entry points.

pub mod c_file;

use vstd::prelude::*;

verus! {

/// The four entry points of a host's file, with handles as plain addresses.
///
/// Nothing is promised of what the entry points return: the code that calls
/// them is proved for every outcome, and its contracts say which call it
/// made and what it made of the answer.
pub trait FileCallbacks {
    /// Opens the file.  Returns a handle, or zero where the file cannot be
    /// opened.
    fn open(&self) -> usize;

    /// Reads up to `len` bytes at the cursor of `handle` and returns them.
    /// No bytes mean the end of the file.
    fn read(&self, handle: usize, len: usize) -> Vec<u8>;

    /// Moves the cursor of `handle`.  `whence` is 0 to count `offset` from
    /// the start, 1 from the cursor, 2 from the end.  Returns the new
    /// position, or a negative code where the cursor cannot be moved.
    fn seek(&self, handle: usize, offset: i64, whence: i32) -> i64;

    /// Releases `handle`.
    fn close(&self, handle: usize);
}

} // verus!
