//! Locating the Dart snapshot payloads of an iOS application binary.
//!
//! The binary is a 64-bit Mach-O image, optionally wrapped in a fat
//! (universal) container.  It is read through a [`ReadSeek`] stream, which
//! the host may back with four foreign entry points (see [`c_api`]).  The
//! extraction result is stated, for every stream that vouches for its
//! contents, as a function of the bytes of the file.
//!
//! - [`stream`], [`memory_stream`], [`c_api`]: the streams.
//! - [`bytes`], [`macho`]: integers and records as they lie in a file.
//! - [`ios_snapshot_parser`] with [`load_commands`], [`symbols`] and
//!   [`magic_scan`]: the extraction.
//! - [`laws`], [`names`]: what holds of the extraction of every file, and the
//!   names it looks for.
//! - [`ios_snapshots`]: the base of a patch.
//! - [`diagnostics`]: what a binary shows where nothing could be extracted.
//! - [`config`], [`text`]: the updater's configuration.

pub mod bytes;
pub mod c_api;
pub mod config;
pub mod diagnostics;
pub mod ios_snapshot_parser;
pub mod ios_snapshots;
pub mod laws;
pub mod load_commands;
pub mod macho;
pub mod magic_scan;
pub mod memory_stream;
pub mod names;
pub mod stream;
pub mod symbols;
pub mod text;

pub use c_api::c_file::{CFile, CFileProvider};
pub use c_api::FileCallbacks;
pub use ios_snapshot_parser::{extract_snapshots_from_app, DartSnapshots, ExtractError};
pub use ios_snapshots::patch_base_ios;
pub use memory_stream::MemoryStream;
pub use stream::{ExternalFileProvider, OpenError, ReadSeek, SeekFrom, StreamError};
