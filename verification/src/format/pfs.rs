//! The records of a package index file: the section header, file entries,
//! name entries, package names and the block-stream header of the
//! block-oriented codec.

use vstd::prelude::*;

verus! {

use crate::error::AkizukiError;
use crate::error::AkizukiResult;
use crate::identifiers::ResourceId;
use crate::reader::read_u32;
use crate::reader::read_u32_array;
use crate::reader::read_u64;
use crate::reader::skip;
use crate::reader::spec_le32_at;
use crate::reader::spec_le64_at;

/// How a file's bytes are stored inside its blob package.
#[derive(Clone, Copy, PartialEq, Eq, Structural, Debug, Hash)]
pub enum PackageCompressionType {
    /// Stored as-is.
    Uncompressed,
    /// A raw deflate stream.
    Deflate,
    /// A block-oriented stream for the dynamically loaded codec.
    Oodle,
}

impl PackageCompressionType {
    /// Which compression a stored word denotes, if any.
    pub open spec fn spec_from_u32(v: u32) -> Option<PackageCompressionType> {
        if v == 0 {
            Some(PackageCompressionType::Uncompressed)
        } else if v == 5 {
            Some(PackageCompressionType::Deflate)
        } else if v == 6 {
            Some(PackageCompressionType::Oodle)
        } else {
            None
        }
    }

    /// Read one little-endian word and advance; an unknown value is
    /// malformed.
    pub fn read(data: &[u8], pos: &mut usize) -> (r: AkizukiResult<PackageCompressionType>)
        ensures
            match r {
                Ok(c) => {
                    &&& *old(pos) + 4 <= data@.len()
                    &&& *final(pos) == *old(pos) + 4
                    &&& Some(c) == Self::spec_from_u32(spec_le32_at(data@, *old(pos) as int))
                },
                Err(e) => e == AkizukiError::Io && (*old(pos) + 4 > data@.len()
                    || Self::spec_from_u32(spec_le32_at(data@, *old(pos) as int)) is None),
            },
    {
        let v = read_u32(data, pos)?;
        if v == 0 {
            Ok(PackageCompressionType::Uncompressed)
        } else if v == 5 {
            Ok(PackageCompressionType::Deflate)
        } else if v == 6 {
            Ok(PackageCompressionType::Oodle)
        } else {
            Err(AkizukiError::Io)
        }
    }
}

/// One file inside a blob package.
#[derive(Clone, Copy, PartialEq, Eq, Structural, Debug)]
pub struct PackageFile {
    /// The identifier of the file's full path.
    pub id: ResourceId,
    /// The blob package that holds its bytes.
    pub package_id: ResourceId,
    /// Where the stored bytes begin inside the blob.
    pub offset: u64,
    /// The declared compression.
    pub compression_type: PackageCompressionType,
    /// Zero means the record is stored as-is whatever the declared type.
    pub compression_flags: u32,
    /// How many bytes are stored.
    pub compressed_size: u32,
    /// CRC32 of the unpacked bytes.
    pub hash: u32,
    /// How many bytes the file unpacks to.
    pub size: u64,
}

impl PackageFile {
    /// Read one 48-byte file record and advance.
    pub fn read(data: &[u8], pos: &mut usize) -> (r: AkizukiResult<PackageFile>)
        ensures
            match r {
                Ok(f) => {
                    &&& *old(pos) + 48 <= data@.len()
                    &&& *final(pos) == *old(pos) + 48
                    &&& f.id.0 == spec_le64_at(data@, *old(pos) as int)
                    &&& f.package_id.0 == spec_le64_at(data@, *old(pos) as int + 8)
                    &&& f.offset == spec_le64_at(data@, *old(pos) as int + 16)
                    &&& Some(f.compression_type) == PackageCompressionType::spec_from_u32(
                        spec_le32_at(data@, *old(pos) as int + 24),
                    )
                    &&& f.compression_flags == spec_le32_at(data@, *old(pos) as int + 28)
                    &&& f.compressed_size == spec_le32_at(data@, *old(pos) as int + 32)
                    &&& f.hash == spec_le32_at(data@, *old(pos) as int + 36)
                    &&& f.size == spec_le64_at(data@, *old(pos) as int + 40)
                },
                Err(e) => e == AkizukiError::Io && (*old(pos) + 48 > data@.len()
                    || PackageCompressionType::spec_from_u32(
                    spec_le32_at(data@, *old(pos) as int + 24),
                ) is None),
            },
    {
        if data.len() < 48 || *pos > data.len() - 48 {
            return Err(AkizukiError::Io);
        }
        let id = ResourceId(read_u64(data, pos)?);
        let package_id = ResourceId(read_u64(data, pos)?);
        let offset = read_u64(data, pos)?;
        let compression_type = PackageCompressionType::read(data, pos)?;
        let compression_flags = read_u32(data, pos)?;
        let compressed_size = read_u32(data, pos)?;
        let hash = read_u32(data, pos)?;
        let size = read_u64(data, pos)?;
        Ok(
            PackageFile {
                id,
                package_id,
                offset,
                compression_type,
                compression_flags,
                compressed_size,
                hash,
                size,
            },
        )
    }
}

/// The section header of a package index: three anchored sections.
#[derive(Clone, Copy, PartialEq, Eq, Structural, Debug)]
pub struct PackageFileHeader {
    /// The position at which the header was read.
    pub relative_position: u64,
    /// How many name records the names section holds.
    pub name_count: u32,
    /// How many file records the files section holds.
    pub file_count: u32,
    /// How many package names the packages section holds.
    pub pkgs_count: u32,
    /// Offset of the names section, relative to the anchor.
    pub name_offset: u64,
    /// Offset of the files section, relative to the anchor.
    pub file_offset: u64,
    /// Offset of the packages section, relative to the anchor.
    pub pkgs_offset: u64,
}

impl PackageFileHeader {
    /// Read the counts, four padding bytes and the three offsets, and
    /// advance over the 40 bytes.
    pub fn read(data: &[u8], pos: &mut usize) -> (r: AkizukiResult<PackageFileHeader>)
        ensures
            match r {
                Ok(h) => {
                    &&& *old(pos) + 40 <= data@.len()
                    &&& *final(pos) == *old(pos) + 40
                    &&& h.relative_position == *old(pos)
                    &&& h.name_count == spec_le32_at(data@, *old(pos) as int)
                    &&& h.file_count == spec_le32_at(data@, *old(pos) as int + 4)
                    &&& h.pkgs_count == spec_le32_at(data@, *old(pos) as int + 8)
                    &&& h.name_offset == spec_le64_at(data@, *old(pos) as int + 16)
                    &&& h.file_offset == spec_le64_at(data@, *old(pos) as int + 24)
                    &&& h.pkgs_offset == spec_le64_at(data@, *old(pos) as int + 32)
                },
                Err(e) => e == AkizukiError::Io && *old(pos) + 40 > data@.len(),
            },
    {
        if data.len() < 40 || *pos > data.len() - 40 {
            return Err(AkizukiError::Io);
        }
        let anchor = *pos as u64;
        let name_count = read_u32(data, pos)?;
        let file_count = read_u32(data, pos)?;
        let pkgs_count = read_u32(data, pos)?;
        skip(data, pos, 4)?;
        let name_offset = read_u64(data, pos)?;
        let file_offset = read_u64(data, pos)?;
        let pkgs_offset = read_u64(data, pos)?;
        Ok(
            PackageFileHeader {
                relative_position: anchor,
                name_count,
                file_count,
                pkgs_count,
                name_offset,
                file_offset,
                pkgs_offset,
            },
        )
    }
}

/// An anchored, length-prefixed name: the text lies at `anchor + offset`.
#[derive(Clone, Copy, PartialEq, Eq, Structural, Debug)]
pub struct PackageName {
    /// The position at which this record was read.
    pub relative_position: u64,
    /// The declared length of the text.
    pub length: u64,
    /// Offset of the zero-terminated text, relative to the anchor.
    pub offset: u64,
    /// The identifier the name belongs to.
    pub id: ResourceId,
}

impl PackageName {
    /// Read one 24-byte name record and advance.
    pub fn read(data: &[u8], pos: &mut usize) -> (r: AkizukiResult<PackageName>)
        ensures
            match r {
                Ok(n) => {
                    &&& *old(pos) + 24 <= data@.len()
                    &&& *final(pos) == *old(pos) + 24
                    &&& n.relative_position == *old(pos)
                    &&& n.length == spec_le64_at(data@, *old(pos) as int)
                    &&& n.offset == spec_le64_at(data@, *old(pos) as int + 8)
                    &&& n.id.0 == spec_le64_at(data@, *old(pos) as int + 16)
                },
                Err(e) => e == AkizukiError::Io && *old(pos) + 24 > data@.len(),
            },
    {
        if data.len() < 24 || *pos > data.len() - 24 {
            return Err(AkizukiError::Io);
        }
        let anchor = *pos as u64;
        let length = read_u64(data, pos)?;
        let offset = read_u64(data, pos)?;
        let id = ResourceId(read_u64(data, pos)?);
        Ok(PackageName { relative_position: anchor, length, offset, id })
    }
}

/// A name record of the file forest: a name and the file it is a child of.
#[derive(Clone, Copy, PartialEq, Eq, Structural, Debug)]
pub struct PackageFileName {
    /// The name and where its text lies.
    pub name: PackageName,
    /// The parent in the name forest, when valid.
    pub parent_id: ResourceId,
}

impl PackageFileName {
    /// Read one 32-byte record and advance.
    pub fn read(data: &[u8], pos: &mut usize) -> (r: AkizukiResult<PackageFileName>)
        ensures
            match r {
                Ok(n) => {
                    &&& *old(pos) + 32 <= data@.len()
                    &&& *final(pos) == *old(pos) + 32
                    &&& n.name.relative_position == *old(pos)
                    &&& n.name.length == spec_le64_at(data@, *old(pos) as int)
                    &&& n.name.offset == spec_le64_at(data@, *old(pos) as int + 8)
                    &&& n.name.id.0 == spec_le64_at(data@, *old(pos) as int + 16)
                    &&& n.parent_id.0 == spec_le64_at(data@, *old(pos) as int + 24)
                },
                Err(e) => e == AkizukiError::Io && *old(pos) + 32 > data@.len(),
            },
    {
        if data.len() < 32 || *pos > data.len() - 32 {
            return Err(AkizukiError::Io);
        }
        let name = PackageName::read(data, pos)?;
        let parent_id = ResourceId(read_u64(data, pos)?);
        Ok(PackageFileName { name, parent_id })
    }
}

/// The header of a block-oriented stream: where the compressed blocks
/// begin, how large the output is, and the compressed length of each
/// block.
#[derive(Clone, Debug)]
pub struct PackageDataStreamHeader {
    /// Offset of the first block, relative to the anchor.
    pub data_offset: u64,
    /// The position just after `data_offset`, the anchor of the stream.
    pub relative_position: u64,
    /// The declared compression of the blocks.
    pub compression_type: u32,
    /// Flags of the declared compression.
    pub compression_flags: u32,
    /// How many bytes the stream unpacks to.
    pub size: u64,
    /// The size the writer recorded for the packed stream.
    pub decompressed_size: u64,
    /// How many blocks follow.
    pub block_count: u32,
    /// The unpacked size of every block but the last.
    pub block_size: u32,
    /// Must be zero.
    pub reserved: u128,
    /// The compressed length of each block.
    pub blocks: Vec<u32>,
}

impl PackageDataStreamHeader {
    /// Read the fixed fields and the per-block lengths, and advance over
    /// all of them.
    pub fn read(data: &[u8], pos: &mut usize) -> (r: AkizukiResult<PackageDataStreamHeader>)
        ensures
            match r {
                Ok(h) => {
                    &&& *old(pos) + 56 + 4 * h.blocks@.len() <= data@.len()
                    &&& *final(pos) == *old(pos) + 56 + 4 * h.blocks@.len()
                    &&& h.data_offset == spec_le64_at(data@, *old(pos) as int)
                    &&& h.relative_position == *old(pos) + 8
                    &&& h.compression_type == spec_le32_at(data@, *old(pos) as int + 8)
                    &&& h.compression_flags == spec_le32_at(data@, *old(pos) as int + 12)
                    &&& h.size == spec_le64_at(data@, *old(pos) as int + 16)
                    &&& h.decompressed_size == spec_le64_at(data@, *old(pos) as int + 24)
                    &&& h.block_count == spec_le32_at(data@, *old(pos) as int + 32)
                    &&& h.block_size == spec_le32_at(data@, *old(pos) as int + 36)
                    &&& h.reserved == spec_le64_at(data@, *old(pos) as int + 40) + spec_le64_at(
                        data@,
                        *old(pos) as int + 48,
                    ) * 0x1_0000_0000_0000_0000
                    &&& h.blocks@.len() == h.block_count
                    &&& forall|j: int|
                        0 <= j < h.blocks@.len() ==> h.blocks@[j] == spec_le32_at(
                            data@,
                            *old(pos) as int + 56 + 4 * j,
                        )
                },
                Err(e) => e == AkizukiError::Io && (*old(pos) + 56 > data@.len() || *old(pos) + 56
                    + 4 * (spec_le32_at(data@, *old(pos) as int + 32) as int) > data@.len()),
            },
    {
        if data.len() < 56 || *pos > data.len() - 56 {
            return Err(AkizukiError::Io);
        }
        let data_offset = read_u64(data, pos)?;
        let anchor = *pos as u64;
        let compression_type = read_u32(data, pos)?;
        let compression_flags = read_u32(data, pos)?;
        let size = read_u64(data, pos)?;
        let decompressed_size = read_u64(data, pos)?;
        let block_count = read_u32(data, pos)?;
        let block_size = read_u32(data, pos)?;
        let reserved_low = read_u64(data, pos)?;
        let reserved_high = read_u64(data, pos)?;
        let reserved = reserved_low as u128 + (reserved_high as u128) * 0x1_0000_0000_0000_0000;
        let blocks = read_u32_array(data, *pos as u64, block_count as usize)?;
        *pos = *pos + 4 * (block_count as usize);
        Ok(
            PackageDataStreamHeader {
                data_offset,
                relative_position: anchor,
                compression_type,
                compression_flags,
                size,
                decompressed_size,
                block_count,
                block_size,
                reserved,
                blocks,
            },
        )
    }
}

} // verus!
