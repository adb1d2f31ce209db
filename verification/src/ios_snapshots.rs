//! The base against which a patch for iOS is applied: the application
//! binary as a whole.

use crate::bytes::{read_u32_be, u32_be};
use crate::stream::{available, read_exact, seek_to, stream_position, ReadSeek, StreamError};
use vstd::prelude::*;

verus! {

/// Reads the four bytes at the cursor, most significant first, and puts the
/// cursor back where it stood.
pub fn peek_magic<R: ReadSeek>(reader: &mut R) -> (res: Result<u32, StreamError>)
    ensures
        old(reader).faithful() ==> {
            &&& final(reader).faithful()
            &&& final(reader).contents() == old(reader).contents()
            &&& if available(old(reader).contents(), old(reader).position() as int, 4) {
                &&& res == Ok::<u32, StreamError>(
                    u32_be(old(reader).contents(), old(reader).position() as int),
                )
                &&& final(reader).position() == old(reader).position()
            } else {
                res == Err::<u32, StreamError>(StreamError::UnexpectedEof)
            }
        },
{
    let start_pos: u64 = stream_position(reader)?;
    let magic = read_exact(reader, 4)?;
    seek_to(reader, start_pos)?;
    let value: u32 = read_u32_be(magic.as_slice(), 0);
    proof {
        if old(reader).faithful() {
            let file = old(reader).contents();
            let at = old(reader).position() as int;
            assert(magic@ == file.subrange(at, at + 4));
            assert(u32_be(magic@, 0) == u32_be(file, at));
        }
    }
    Ok(value)
}

/// Returns the application binary as the patch base, after checking that
/// four bytes can be read at its cursor.  The stream comes back as it was
/// given, with its cursor where it stood.
pub fn patch_base_ios<R: ReadSeek>(app_reader: R) -> (res: Result<R, StreamError>)
    ensures
        app_reader.faithful() ==> match res {
            Ok(base) => {
                &&& base.faithful()
                &&& base.contents() == app_reader.contents()
                &&& base.position() == app_reader.position()
                &&& available(app_reader.contents(), app_reader.position() as int, 4)
            },
            Err(e) => {
                &&& e == StreamError::UnexpectedEof
                &&& !available(app_reader.contents(), app_reader.position() as int, 4)
            },
        },
{
    let mut app_reader = app_reader;
    match peek_magic(&mut app_reader) {
        Ok(_) => Ok(app_reader),
        Err(e) => Err(e),
    }
}

} // verus!
