//! A stream over a file that the host opens, reads, seeks and closes.

use crate::c_api::FileCallbacks;
use crate::stream::{ExternalFileProvider, OpenError, ReadSeek, SeekFrom, StreamError};
use vstd::prelude::*;

verus! {

/// `whence` for an offset counted from the start of the file.
pub open spec fn spec_seek_set() -> i32 {
    0
}

/// `whence` for an offset counted from the cursor.
pub open spec fn spec_seek_cur() -> i32 {
    1
}

/// `whence` for an offset counted from the end of the file.
pub open spec fn spec_seek_end() -> i32 {
    2
}

/// `libc::SEEK_SET`, which is 0 on every target that `libc` knows.
#[verifier::external_body]
fn seek_set() -> (whence: i32)
    ensures
        whence == spec_seek_set(),
{
    libc::SEEK_SET
}

/// `libc::SEEK_CUR`, which is 1 on every target that `libc` knows.
#[verifier::external_body]
fn seek_cur() -> (whence: i32)
    ensures
        whence == spec_seek_cur(),
{
    libc::SEEK_CUR
}

/// `libc::SEEK_END`, which is 2 on every target that `libc` knows.
#[verifier::external_body]
fn seek_end() -> (whence: i32)
    ensures
        whence == spec_seek_end(),
{
    libc::SEEK_END
}

/// An unsigned offset as the signed number with the same 64 bits.
pub open spec fn as_signed_offset(n: u64) -> i64 {
    if n <= i64::MAX {
        n as i64
    } else {
        (n - 0x1_0000_0000_0000_0000) as i64
    }
}

/// The offset and the `whence` that a seek hands to the host.
pub open spec fn seek_arguments(pos: SeekFrom) -> (i64, i32) {
    match pos {
        SeekFrom::Start(n) => (as_signed_offset(n), spec_seek_set()),
        SeekFrom::Current(n) => (n, spec_seek_cur()),
        SeekFrom::End(n) => (n, spec_seek_end()),
    }
}

/// What a seek yields when the host has answered `code`: the position
/// `code`, or the failure that a negative `code` reports.
pub open spec fn seek_result(code: i64) -> Result<u64, StreamError> {
    if code < 0 {
        Err(StreamError::SeekFailed(code))
    } else {
        Ok(code as u64)
    }
}

/// The offset and the `whence` that a seek hands to the host: `(n, 0)` for
/// `Start(n)`, `(n, 1)` for `Current(n)`, `(n, 2)` for `End(n)`.
pub fn seek_request(pos: SeekFrom) -> (request: (i64, i32))
    ensures
        request == seek_arguments(pos),
        pos matches SeekFrom::Start(n) ==> request.1 == 0 && (n <= i64::MAX ==> request.0 == n),
        pos matches SeekFrom::Current(n) ==> request == (n, 1i32),
        pos matches SeekFrom::End(n) ==> request == (n, 2i32),
{
    match pos {
        SeekFrom::Start(n) => {
            let offset: i64 = if n <= 0x7fff_ffff_ffff_ffff {
                n as i64
            } else {
                let low: u64 = n - 0x8000_0000_0000_0000;
                (low as i64) + i64::MIN
            };
            (offset, seek_set())
        },
        SeekFrom::Current(n) => (n, seek_cur()),
        SeekFrom::End(n) => (n, seek_end()),
    }
}

/// What a seek yields when the host has answered `code`.
pub fn seek_outcome(code: i64) -> (res: Result<u64, StreamError>)
    ensures
        res == seek_result(code),
        code < 0 <==> res is Err,
{
    if code < 0 {
        Err(StreamError::SeekFailed(code))
    } else {
        Ok(code as u64)
    }
}

/// What a read delivers when the host has answered `bytes` to a request
/// for `len`: the bytes, and only the first `len` where there are more.
pub open spec fn read_result(bytes: Seq<u8>, len: usize) -> Seq<u8> {
    if bytes.len() > len {
        bytes.take(len as int)
    } else {
        bytes
    }
}

/// What a read delivers when the host has answered `bytes` to a request
/// for `len`.
pub fn read_outcome(bytes: Vec<u8>, len: usize) -> (res: Result<Vec<u8>, StreamError>)
    ensures
        res matches Ok(cut) && cut@ == read_result(bytes@, len),
{
    let mut bytes = bytes;
    if bytes.len() > len {
        bytes.truncate(len);
    }
    Ok(bytes)
}

/// Opens streams over the host's file.
#[derive(Clone, Debug)]
pub struct CFileProvider<C: FileCallbacks> {
    pub file_callbacks: C,
}

/// A stream over the host's file.  It owns the handle from `open` until
/// `close`, which takes the stream.
#[derive(Debug)]
pub struct CFile<C: FileCallbacks> {
    file_callbacks: C,
    handle: usize,
}

impl<C: FileCallbacks> CFile<C> {
    /// A stream holds a handle that is not null.
    #[verifier::type_invariant]
    spec fn holds_handle(self) -> bool {
        self.handle != 0
    }

    /// The handle that the host gave.
    pub closed spec fn spec_handle(&self) -> usize {
        self.handle
    }

    /// The stream over `handle`; no stream where `handle` is null.
    pub fn from_handle(file_callbacks: C, handle: usize) -> (res: Result<CFile<C>, OpenError>)
        ensures
            handle == 0 <==> res is Err,
            res matches Err(e) ==> e == OpenError::NullHandle,
            res matches Ok(file) ==> file.spec_handle() == handle && !file.faithful(),
            res matches Ok(file) ==> file.spec_callbacks() == file_callbacks,
    {
        if handle == 0 {
            Err(OpenError::NullHandle)
        } else {
            Ok(CFile { file_callbacks, handle })
        }
    }

    /// The handle that the host gave; never null.
    pub fn handle(&self) -> (handle: usize)
        ensures
            handle == self.spec_handle(),
            handle != 0,
    {
        proof { use_type_invariant(self); }
        self.handle
    }

    /// Calls the host's `close` with the handle.  The stream is gone after it.
    pub fn close(self)
        ensures
            close_answer(self.spec_callbacks(), self.spec_handle()),
    {
        self.file_callbacks.close(self.handle);
    }
}

impl<C: FileCallbacks> ReadSeek for CFile<C> {
    /// Reads through the host's `read`, as `read_through` says; never fails.
    fn read(&mut self, len: usize) -> (res: Result<Vec<u8>, StreamError>)
        ensures
            read_through(*old(self), *final(self), len, res),
    {
        let bytes = self.file_callbacks.read(self.handle, len);
        assert(read_answer(self.spec_callbacks(), self.spec_handle(), len, bytes));
        read_outcome(bytes, len)
    }

    /// Hands the host's `seek` the handle with the offset and `whence` of
    /// `seek_arguments(pos)` and delivers its answer: see `seek_through`.
    fn seek(&mut self, pos: SeekFrom) -> (res: Result<u64, StreamError>)
        ensures
            seek_through(*old(self), *final(self), pos, res),
            res matches Err(e) ==> e matches StreamError::SeekFailed(code) && code < 0,
    {
        let (offset, whence) = seek_request(pos);
        let code = self.file_callbacks.seek(self.handle, offset, whence);
        assert(seek_answer(self.spec_callbacks(), self.spec_handle(), offset, whence, code));
        seek_outcome(code)
    }
}

impl<C: FileCallbacks> CFile<C> {
    /// The entry points through which the stream reaches the host.
    pub closed spec fn spec_callbacks(&self) -> C {
        self.file_callbacks
    }
}

/// Whether `handle` is what the host's `open` gave.
pub open spec fn open_answer<C: FileCallbacks>(callbacks: C, handle: usize) -> bool {
    call_ensures(C::open, (&callbacks,), handle)
}

/// Whether `bytes` is what the host's `read` gave for `handle` and `len`.
pub open spec fn read_answer<C: FileCallbacks>(
    callbacks: C,
    handle: usize,
    len: usize,
    bytes: Vec<u8>,
) -> bool {
    call_ensures(C::read, (&callbacks, handle, len), bytes)
}

/// Whether `code` is what the host's `seek` gave for `handle`, `offset` and
/// `whence`.
pub open spec fn seek_answer<C: FileCallbacks>(
    callbacks: C,
    handle: usize,
    offset: i64,
    whence: i32,
    code: i64,
) -> bool {
    call_ensures(C::seek, (&callbacks, handle, offset, whence), code)
}

/// Whether the host's `close` has been called for `handle` and has returned.
pub open spec fn close_answer<C: FileCallbacks>(callbacks: C, handle: usize) -> bool {
    call_ensures(C::close, (&callbacks, handle), ())
}

/// What a read of `len` bytes is, of a stream that was `before` and is
/// `after` it: the host's `read` was called with the stream's handle and
/// `len`, and `res` delivers the bytes that it gave, cut to `len` where there
/// are more.  The stream keeps its handle and its entry points.
pub open spec fn read_through<C: FileCallbacks>(
    before: CFile<C>,
    after: CFile<C>,
    len: usize,
    res: Result<Vec<u8>, StreamError>,
) -> bool {
    &&& after.spec_handle() == before.spec_handle()
    &&& after.spec_callbacks() == before.spec_callbacks()
    &&& exists|bytes: Vec<u8>|
        {
            &&& #[trigger] read_answer(before.spec_callbacks(), before.spec_handle(), len, bytes)
            &&& res matches Ok(cut)
            &&& cut@ == read_result(bytes@, len)
        }
}

/// What a seek to `pos` is, of a stream that was `before` and is `after` it:
/// the host's `seek` was called with the stream's handle and the offset and
/// `whence` of `seek_arguments(pos)`, and `res` is `seek_result` of its
/// answer.  The stream keeps its handle and its entry points.
pub open spec fn seek_through<C: FileCallbacks>(
    before: CFile<C>,
    after: CFile<C>,
    pos: SeekFrom,
    res: Result<u64, StreamError>,
) -> bool {
    &&& after.spec_handle() == before.spec_handle()
    &&& after.spec_callbacks() == before.spec_callbacks()
    &&& exists|code: i64|
        {
            &&& #[trigger] seek_answer(
                before.spec_callbacks(),
                before.spec_handle(),
                seek_arguments(pos).0,
                seek_arguments(pos).1,
                code,
            )
            &&& res == seek_result(code)
        }
}

impl<C: FileCallbacks + Clone> CFileProvider<C> {
    /// A provider over the host's entry points.
    pub fn new(file_callbacks: C) -> (provider: CFileProvider<C>)
        ensures
            provider.file_callbacks == file_callbacks,
    {
        CFileProvider { file_callbacks }
    }

    /// Opens the file, lends the stream to `f`, and closes the stream as `f`
    /// left it: the host's `close` is called when `f` has returned, whatever
    /// `f` did with the stream.  Where the host gives a null handle, `f` is
    /// not called.
    pub fn with_open<F, R>(&self, f: F) -> (res: Result<R, OpenError>) where
        F: FnOnce(&mut CFile<C>) -> R,

        requires
            forall|file: &mut CFile<C>| file.spec_handle() != 0 ==> call_requires(f, (file,)),
        ensures
            res matches Ok(r) ==> exists|file: &mut CFile<C>|
                {
                    &&& file.spec_handle() != 0
                    &&& open_answer(self.file_callbacks, file.spec_handle())
                    &&& cloned(self.file_callbacks, file.spec_callbacks())
                    &&& call_ensures(f, (file,), r)
                    &&& close_answer(final(file).spec_callbacks(), final(file).spec_handle())
                },
            res matches Err(e) ==> e == OpenError::NullHandle && open_answer(
                self.file_callbacks,
                0,
            ),
    {
        let mut file = self.open()?;
        let r = f(&mut file);
        file.close();
        Ok(r)
    }
}

impl<C: FileCallbacks + Clone> ExternalFileProvider for CFileProvider<C> {
    type Stream = CFile<C>;

    /// Asks the host's `open` for a handle.  A null handle is the error
    /// `NullHandle`; any other handle comes back in a stream that reaches
    /// the host through a clone of the provider's entry points.
    fn open(&self) -> (res: Result<CFile<C>, OpenError>)
        ensures
            exists|handle: usize|
                {
                    &&& #[trigger] open_answer(self.file_callbacks, handle)
                    &&& match res {
                        Ok(file) => {
                            &&& handle != 0
                            &&& file.spec_handle() == handle
                            &&& cloned(self.file_callbacks, file.spec_callbacks())
                        },
                        Err(e) => handle == 0 && e == OpenError::NullHandle,
                    }
                },
            res matches Err(e) ==> e == OpenError::NullHandle,
            res matches Ok(file) ==> file.spec_handle() != 0,
    {
        let handle = self.file_callbacks.open();
        assert(open_answer(self.file_callbacks, handle));
        let file_callbacks = self.file_callbacks.clone();
        assert(cloned(self.file_callbacks, file_callbacks));
        CFile::from_handle(file_callbacks, handle)
    }
}

} // verus!
