//! Error kinds surfaced by the decoders. All are final: a decoder returns on
//! the first failure it meets.

use vstd::prelude::*;

verus! {

use crate::identifiers::ResourceId;
use crate::identifiers::StringId;

/// Failures of the block-oriented codec that is loaded from a dynamic
/// library at run time.
#[derive(Clone, Copy, PartialEq, Eq, Structural, Debug)]
pub enum OodleError {
    /// The dynamic library could not be found or loaded.
    LibraryUnavailable,
    /// The stream header is malformed.
    InvalidData,
    /// The decoder returned the given non-positive code.
    InternalError(i64),
    /// The output buffer is smaller than the given needed size.
    InsufficientSize(usize),
}

/// Every failure the decoding stack can report.
#[derive(Clone, Copy, PartialEq, Eq, Structural, Debug)]
pub enum AkizukiError {
    /// The install directory is missing or misshapen.
    InvalidInstall,
    /// The file was produced on a host of the opposite endianness.
    InvalidEndianness,
    /// The framed header carries another version than the caller expects.
    InvalidVersion { expected: u32, present: u32 },
    /// The framed header carries the wrong magic tag.
    InvalidIdentifier,
    /// The framed header does not declare 64-bit pointers.
    InvalidPointerSize,
    /// An integrity hash over a payload does not match the stored one.
    ChecksumMismatch,
    /// No entry is known under this identifier.
    AssetNotFound(ResourceId),
    /// The entry exists but is marked deleted.
    DeletedAsset(ResourceId),
    /// The entry points at a table index past the decoded tables.
    InvalidTable(ResourceId),
    /// The entry points at a record index past its table's records.
    InvalidRecord(ResourceId),
    /// No decoder is registered for this table identifier.
    UnsupportedTable(StringId),
    /// The table identifier is known but this version of it is not.
    UnsupportedTableVersion(StringId, u32),
    /// A read ran past the end of the data.
    Io,
    /// The deflate stream could not be decoded.
    Deflate,
    /// The block-oriented codec failed.
    Oodle(OodleError),
}

/// Shorthand for results whose error is [`AkizukiError`].
pub type AkizukiResult<T> = Result<T, AkizukiError>;

} // verus!
