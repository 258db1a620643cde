//! The framed header that opens both container files: a magic tag, a
//! byte-swapped version, an integrity hash over the payload, and the
//! pointer width the file was written with.

use vstd::prelude::*;

verus! {

use crate::error::AkizukiError;
use crate::error::AkizukiResult;
use crate::mmh3::mmh3_32;
use crate::mmh3::spec_mmh3_32;
use crate::reader::read_u32;
use crate::reader::spec_le32_at;
use vstd::slice::slice_subrange;

/// The four-character tag of a package index file, `"PFSI"`.
pub const PFS_INDEX_MAGIC: u32 = 0x5046_5349;

/// The four-character tag of the asset database, `"BWDB"`.
pub const ASSET_DB_MAGIC: u32 = 0x4257_4442;

/// Which of the two container kinds a framed header announces.
#[derive(Clone, Copy, PartialEq, Eq, Structural, Debug, Hash)]
pub enum BigWorldMagic {
    /// A package index (`.idx`) file.
    PFSIndex,
    /// The embedded asset database.
    AssetDb,
}

impl BigWorldMagic {
    /// The tag value this kind is stored as.
    pub open spec fn spec_value(self) -> u32 {
        match self {
            BigWorldMagic::PFSIndex => PFS_INDEX_MAGIC,
            BigWorldMagic::AssetDb => ASSET_DB_MAGIC,
        }
    }

    /// The tag value this kind is stored as.
    pub fn value(self) -> (r: u32)
        ensures
            r == self.spec_value(),
    {
        match self {
            BigWorldMagic::PFSIndex => PFS_INDEX_MAGIC,
            BigWorldMagic::AssetDb => ASSET_DB_MAGIC,
        }
    }
}

/// A 32-bit value with its bytes reversed.
pub open spec fn spec_swap32(v: u32) -> u32 {
    ((v & 0xFF) << 24) | (((v >> 8) & 0xFF) << 16) | (((v >> 16) & 0xFF) << 8) | (v >> 24)
}

/// A 32-bit value with its bytes reversed.
pub fn swap32(v: u32) -> (r: u32)
    ensures
        r == spec_swap32(v),
{
    ((v & 0xFF) << 24u32) | (((v >> 8u32) & 0xFF) << 16u32) | (((v >> 16u32) & 0xFF) << 8u32) | (v
        >> 24u32)
}

/// The 16-byte framed header at offset 0 of a container file.
#[derive(Clone, Copy, PartialEq, Eq, Structural, Debug)]
pub struct BigWorldFileHeader {
    /// The container kind the magic tag announced.
    pub magic: BigWorldMagic,
    /// The format version, stored byte-swapped.
    pub version_be: u32,
    /// MurmurHash3-32 of the payload that follows the header.
    pub hash: u32,
    /// The pointer width of the writer; only 64 is accepted.
    pub pointer_size: u32,
}

impl BigWorldFileHeader {
    /// What validation of this header against the caller's expectations
    /// yields, checked in a fixed order with a distinct error per step.
    pub open spec fn spec_validate(
        self,
        magic: BigWorldMagic,
        version: u32,
        validate: bool,
        file: Seq<u8>,
    ) -> AkizukiResult<()> {
        let swapped = spec_swap32(self.version_be);
        if swapped > self.version_be {
            Err(AkizukiError::InvalidEndianness)
        } else if swapped != version {
            Err(AkizukiError::InvalidVersion { expected: version, present: swapped })
        } else if self.magic != magic {
            Err(AkizukiError::InvalidIdentifier)
        } else if self.pointer_size != 64 {
            Err(AkizukiError::InvalidPointerSize)
        } else if validate && spec_mmh3_32(file.skip(16)) != self.hash {
            Err(AkizukiError::ChecksumMismatch)
        } else {
            Ok(())
        }
    }

    /// Read the four little-endian fields and advance. A tag that is
    /// neither container kind is malformed.
    pub fn read(data: &[u8], pos: &mut usize) -> (r: AkizukiResult<BigWorldFileHeader>)
        ensures
            match r {
                Ok(h) => {
                    &&& *old(pos) + 16 <= data@.len()
                    &&& *final(pos) == *old(pos) + 16
                    &&& h.magic.spec_value() == spec_le32_at(data@, *old(pos) as int)
                    &&& h.version_be == spec_le32_at(data@, *old(pos) as int + 4)
                    &&& h.hash == spec_le32_at(data@, *old(pos) as int + 8)
                    &&& h.pointer_size == spec_le32_at(data@, *old(pos) as int + 12)
                },
                Err(e) => e == AkizukiError::Io && (*old(pos) + 16 > data@.len() || (spec_le32_at(
                    data@,
                    *old(pos) as int,
                ) != PFS_INDEX_MAGIC && spec_le32_at(data@, *old(pos) as int) != ASSET_DB_MAGIC)),
            },
    {
        if data.len() < 16 || *pos > data.len() - 16 {
            return Err(AkizukiError::Io);
        }
        let tag = read_u32(data, pos)?;
        let magic = if tag == PFS_INDEX_MAGIC {
            BigWorldMagic::PFSIndex
        } else if tag == ASSET_DB_MAGIC {
            BigWorldMagic::AssetDb
        } else {
            return Err(AkizukiError::Io);
        };
        let version_be = read_u32(data, pos)?;
        let hash = read_u32(data, pos)?;
        let pointer_size = read_u32(data, pos)?;
        Ok(BigWorldFileHeader { magic, version_be, hash, pointer_size })
    }

    /// Validate the header against the expected kind and version; when
    /// `validate` is set, also hash the payload from offset 16 and compare
    /// it with the stored hash.
    pub fn is_valid(
        &self,
        magic: BigWorldMagic,
        version: u32,
        validate: bool,
        data: &[u8],
    ) -> (r: AkizukiResult<()>)
        requires
            data@.len() >= 16,
        ensures
            r == self.spec_validate(magic, version, validate, data@),
    {
        let swapped = swap32(self.version_be);

        if swapped > self.version_be {
            return Err(AkizukiError::InvalidEndianness);
        }

        if swapped != version {
            return Err(AkizukiError::InvalidVersion { expected: version, present: swapped });
        }

        if self.magic != magic {
            return Err(AkizukiError::InvalidIdentifier);
        }

        if self.pointer_size != 64 {
            return Err(AkizukiError::InvalidPointerSize);
        }

        if validate {
            let payload = slice_subrange(data, 16, data.len());
            let hash = mmh3_32(payload);
            proof {
                assert(payload@ =~= data@.skip(16));
            }
            if hash != self.hash {
                return Err(AkizukiError::ChecksumMismatch);
            }
        }

        Ok(())
    }
}

/// A header whose version reads the same under either byte order can
/// never be rejected for endianness, and clears the version step exactly
/// when it carries the expected version.
pub proof fn lemma_palindromic_version_checks_exactly(
    h: BigWorldFileHeader,
    magic: BigWorldMagic,
    version: u32,
    validate: bool,
    file: Seq<u8>,
)
    requires
        spec_swap32(h.version_be) == h.version_be,
    ensures
        h.spec_validate(magic, version, validate, file) != Err::<(), AkizukiError>(AkizukiError::InvalidEndianness),
        h.version_be != version ==> h.spec_validate(magic, version, validate, file) == Err::<
            (),
            AkizukiError,
        >(AkizukiError::InvalidVersion { expected: version, present: h.version_be }),
{
}

/// The framed header stored in the first sixteen bytes of `d`, for a
/// file whose tag is one of the two container kinds.
pub open spec fn spec_file_header_at(d: Seq<u8>) -> BigWorldFileHeader {
    let magic = if spec_le32_at(d, 0) == PFS_INDEX_MAGIC {
        BigWorldMagic::PFSIndex
    } else {
        BigWorldMagic::AssetDb
    };
    BigWorldFileHeader {
        magic,
        version_be: spec_le32_at(d, 4),
        hash: spec_le32_at(d, 8),
        pointer_size: spec_le32_at(d, 12),
    }
}

} // verus!
