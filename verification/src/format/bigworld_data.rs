//! The section descriptors of the asset database: anchored maps and
//! pointers, table headers, name records, map keys and the packed
//! prototype reference.
//!
//! Every descriptor captures the stream position at which it begins; the
//! offsets it carries are resolved relative to that anchor.

use vstd::prelude::*;

verus! {

use crate::error::AkizukiError;
use crate::error::AkizukiResult;
use crate::identifiers::ResourceId;
use crate::identifiers::StringId;
use crate::reader::read_u32;
use crate::reader::read_u64;
use crate::reader::skip;
use crate::reader::spec_le32_at;
use crate::reader::spec_le64_at;

/// An anchored map section: `count` keys at `anchor + key_offset`, the
/// same number of packed values at `anchor + value_offset`.
#[derive(Clone, Copy, PartialEq, Eq, Structural, Debug)]
pub struct BigWorldDatabaseMap {
    /// The position at which this descriptor was read.
    pub relative_position: u64,
    /// How many key slots the section holds.
    pub count: u64,
    /// Offset of the key array, relative to the anchor.
    pub key_offset: u64,
    /// Offset of the value array, relative to the anchor.
    pub value_offset: u64,
}

/// An anchored array section: `count` packed values at `anchor + offset`.
#[derive(Clone, Copy, PartialEq, Eq, Structural, Debug)]
pub struct BigWorldDatabasePointer {
    /// The position at which this descriptor was read.
    pub relative_position: u64,
    /// How many values the section holds.
    pub count: u64,
    /// Offset of the value array, relative to the anchor.
    pub offset: u64,
}

/// The database header: where the strings, prototypes, paths and tables
/// sections lie.
#[derive(Clone, Copy, PartialEq, Eq, Structural, Debug)]
pub struct BigWorldDatabaseHeader {
    /// The position at which the header was read.
    pub relative_position: u64,
    /// The interned-string map.
    pub strings: BigWorldDatabaseMap,
    /// The character data the string map's values point into.
    pub string_data: BigWorldDatabasePointer,
    /// The prototype-reference map.
    pub prototypes: BigWorldDatabaseMap,
    /// The name records that make up resource paths.
    pub paths: BigWorldDatabasePointer,
    /// The table headers.
    pub tables: BigWorldDatabasePointer,
}

/// One table: its identifier, its version and where its records lie.
#[derive(Clone, Copy, PartialEq, Eq, Structural, Debug)]
pub struct BigWorldTableHeader {
    /// The position at which this header was read.
    pub relative_position: u64,
    /// The hashed name of the table.
    pub id: StringId,
    /// The format version of its records.
    pub version: u32,
    /// Where the records lie, behind one further pointer.
    pub pointer: BigWorldDatabasePointer,
}

/// One name record: a segment of a resource path and its parent.
#[derive(Clone, Copy, PartialEq, Eq, Structural, Debug)]
pub struct BigWorldName {
    /// The resource this segment belongs to.
    pub id: ResourceId,
    /// The resource whose name precedes this segment, when valid.
    pub parent_id: ResourceId,
    /// Where the zero-terminated segment text lies.
    pub pointer: BigWorldDatabasePointer,
}

/// A map key together with its bucket word; the key participates in the
/// map exactly when the bucket's high bit is set.
#[derive(Clone, Copy, PartialEq, Eq, Structural, Debug)]
pub struct BigWorldDatabaseKey<T> {
    /// The identifier stored in the key slot.
    pub id: T,
    /// The bucket word; bit 31 marks an occupied slot.
    pub bucket: u32,
}

/// Whether a bucket word marks an occupied map slot.
pub open spec fn spec_bucket_active(bucket: u32) -> bool {
    bucket & 0x8000_0000 != 0
}

impl BigWorldDatabaseMap {
    /// Read the three fields and advance; the anchor is the position the
    /// read began at.
    pub fn read(data: &[u8], pos: &mut usize) -> (r: AkizukiResult<BigWorldDatabaseMap>)
        ensures
            match r {
                Ok(m) => {
                    &&& *old(pos) + 24 <= data@.len()
                    &&& *final(pos) == *old(pos) + 24
                    &&& m.relative_position == *old(pos)
                    &&& m.count == spec_le64_at(data@, *old(pos) as int)
                    &&& m.key_offset == spec_le64_at(data@, *old(pos) as int + 8)
                    &&& m.value_offset == spec_le64_at(data@, *old(pos) as int + 16)
                },
                Err(e) => e == AkizukiError::Io && *old(pos) + 24 > data@.len(),
            },
    {
        if data.len() < 24 || *pos > data.len() - 24 {
            return Err(AkizukiError::Io);
        }
        let anchor = *pos as u64;
        let count = read_u64(data, pos)?;
        let key_offset = read_u64(data, pos)?;
        let value_offset = read_u64(data, pos)?;
        Ok(BigWorldDatabaseMap { relative_position: anchor, count, key_offset, value_offset })
    }
}

impl BigWorldDatabasePointer {
    /// Read the two fields and advance; the anchor is the position the
    /// read began at.
    pub fn read(data: &[u8], pos: &mut usize) -> (r: AkizukiResult<BigWorldDatabasePointer>)
        ensures
            match r {
                Ok(p) => {
                    &&& *old(pos) + 16 <= data@.len()
                    &&& *final(pos) == *old(pos) + 16
                    &&& p.relative_position == *old(pos)
                    &&& p.count == spec_le64_at(data@, *old(pos) as int)
                    &&& p.offset == spec_le64_at(data@, *old(pos) as int + 8)
                },
                Err(e) => e == AkizukiError::Io && *old(pos) + 16 > data@.len(),
            },
    {
        if data.len() < 16 || *pos > data.len() - 16 {
            return Err(AkizukiError::Io);
        }
        let anchor = *pos as u64;
        let count = read_u64(data, pos)?;
        let offset = read_u64(data, pos)?;
        Ok(BigWorldDatabasePointer { relative_position: anchor, count, offset })
    }
}

impl BigWorldDatabaseHeader {
    /// Read the five sections in order and advance.
    pub fn read(data: &[u8], pos: &mut usize) -> (r: AkizukiResult<BigWorldDatabaseHeader>)
        ensures
            match r {
                Ok(h) => {
                    &&& *old(pos) + 96 <= data@.len()
                    &&& *final(pos) == *old(pos) + 96
                    &&& h.relative_position == *old(pos)
                    &&& h.strings.relative_position == *old(pos)
                    &&& h.string_data.relative_position == *old(pos) + 24
                    &&& h.prototypes.relative_position == *old(pos) + 40
                    &&& h.paths.relative_position == *old(pos) + 64
                    &&& h.tables.relative_position == *old(pos) + 80
                    &&& h.strings.count == spec_le64_at(data@, *old(pos) as int)
                    &&& h.strings.key_offset == spec_le64_at(data@, *old(pos) as int + 8)
                    &&& h.strings.value_offset == spec_le64_at(data@, *old(pos) as int + 16)
                    &&& h.string_data.count == spec_le64_at(data@, *old(pos) as int + 24)
                    &&& h.string_data.offset == spec_le64_at(data@, *old(pos) as int + 32)
                    &&& h.prototypes.count == spec_le64_at(data@, *old(pos) as int + 40)
                    &&& h.prototypes.key_offset == spec_le64_at(data@, *old(pos) as int + 48)
                    &&& h.prototypes.value_offset == spec_le64_at(data@, *old(pos) as int + 56)
                    &&& h.paths.count == spec_le64_at(data@, *old(pos) as int + 64)
                    &&& h.paths.offset == spec_le64_at(data@, *old(pos) as int + 72)
                    &&& h.tables.count == spec_le64_at(data@, *old(pos) as int + 80)
                    &&& h.tables.offset == spec_le64_at(data@, *old(pos) as int + 88)
                },
                Err(e) => e == AkizukiError::Io && *old(pos) + 96 > data@.len(),
            },
    {
        if data.len() < 96 || *pos > data.len() - 96 {
            return Err(AkizukiError::Io);
        }
        let anchor = *pos as u64;
        let strings = BigWorldDatabaseMap::read(data, pos)?;
        let string_data = BigWorldDatabasePointer::read(data, pos)?;
        let prototypes = BigWorldDatabaseMap::read(data, pos)?;
        let paths = BigWorldDatabasePointer::read(data, pos)?;
        let tables = BigWorldDatabasePointer::read(data, pos)?;
        Ok(
            BigWorldDatabaseHeader {
                relative_position: anchor,
                strings,
                string_data,
                prototypes,
                paths,
                tables,
            },
        )
    }
}

impl BigWorldTableHeader {
    /// Read the identifier, version and record pointer and advance.
    pub fn read(data: &[u8], pos: &mut usize) -> (r: AkizukiResult<BigWorldTableHeader>)
        ensures
            match r {
                Ok(h) => {
                    &&& *old(pos) + 24 <= data@.len()
                    &&& *final(pos) == *old(pos) + 24
                    &&& h.relative_position == *old(pos)
                    &&& h.id.0 == spec_le32_at(data@, *old(pos) as int)
                    &&& h.version == spec_le32_at(data@, *old(pos) as int + 4)
                    &&& h.pointer.relative_position == *old(pos) + 8
                    &&& h.pointer.count == spec_le64_at(data@, *old(pos) as int + 8)
                    &&& h.pointer.offset == spec_le64_at(data@, *old(pos) as int + 16)
                },
                Err(e) => e == AkizukiError::Io && *old(pos) + 24 > data@.len(),
            },
    {
        if data.len() < 24 || *pos > data.len() - 24 {
            return Err(AkizukiError::Io);
        }
        let anchor = *pos as u64;
        let id = StringId(read_u32(data, pos)?);
        let version = read_u32(data, pos)?;
        let pointer = BigWorldDatabasePointer::read(data, pos)?;
        Ok(BigWorldTableHeader { relative_position: anchor, id, version, pointer })
    }
}

impl BigWorldName {
    /// Read the two identifiers and the text pointer and advance.
    pub fn read(data: &[u8], pos: &mut usize) -> (r: AkizukiResult<BigWorldName>)
        ensures
            match r {
                Ok(n) => {
                    &&& *old(pos) + 32 <= data@.len()
                    &&& *final(pos) == *old(pos) + 32
                    &&& n.id.0 == spec_le64_at(data@, *old(pos) as int)
                    &&& n.parent_id.0 == spec_le64_at(data@, *old(pos) as int + 8)
                    &&& n.pointer.relative_position == *old(pos) + 16
                    &&& n.pointer.count == spec_le64_at(data@, *old(pos) as int + 16)
                    &&& n.pointer.offset == spec_le64_at(data@, *old(pos) as int + 24)
                },
                Err(e) => e == AkizukiError::Io && *old(pos) + 32 > data@.len(),
            },
    {
        if data.len() < 32 || *pos > data.len() - 32 {
            return Err(AkizukiError::Io);
        }
        let id = ResourceId(read_u64(data, pos)?);
        let parent_id = ResourceId(read_u64(data, pos)?);
        let pointer = BigWorldDatabasePointer::read(data, pos)?;
        Ok(BigWorldName { id, parent_id, pointer })
    }
}

impl BigWorldDatabaseKey<StringId> {
    /// Read one 8-byte key slot: a 32-bit identifier then the bucket word.
    pub fn read(data: &[u8], pos: &mut usize) -> (r: AkizukiResult<BigWorldDatabaseKey<StringId>>)
        ensures
            match r {
                Ok(k) => {
                    &&& *old(pos) + 8 <= data@.len()
                    &&& *final(pos) == *old(pos) + 8
                    &&& k.id.0 == spec_le32_at(data@, *old(pos) as int)
                    &&& k.bucket == spec_le32_at(data@, *old(pos) as int + 4)
                },
                Err(e) => e == AkizukiError::Io && *old(pos) + 8 > data@.len(),
            },
    {
        if data.len() < 8 || *pos > data.len() - 8 {
            return Err(AkizukiError::Io);
        }
        let id = StringId(read_u32(data, pos)?);
        let bucket = read_u32(data, pos)?;
        Ok(BigWorldDatabaseKey { id, bucket })
    }
}

impl BigWorldDatabaseKey<ResourceId> {
    /// Read one 16-byte key slot: a 64-bit identifier, four padding bytes,
    /// then the bucket word.
    pub fn read(data: &[u8], pos: &mut usize) -> (r: AkizukiResult<BigWorldDatabaseKey<ResourceId>>)
        ensures
            match r {
                Ok(k) => {
                    &&& *old(pos) + 16 <= data@.len()
                    &&& *final(pos) == *old(pos) + 16
                    &&& k.id.0 == spec_le64_at(data@, *old(pos) as int)
                    &&& k.bucket == spec_le32_at(data@, *old(pos) as int + 12)
                },
                Err(e) => e == AkizukiError::Io && *old(pos) + 16 > data@.len(),
            },
    {
        if data.len() < 16 || *pos > data.len() - 16 {
            return Err(AkizukiError::Io);
        }
        let id = ResourceId(read_u64(data, pos)?);
        skip(data, pos, 4)?;
        let bucket = read_u32(data, pos)?;
        Ok(BigWorldDatabaseKey { id, bucket })
    }
}

/// A prototype reference packed into 32 bits: the low two bits are the
/// state, the next six the table index, the high twenty-four the record
/// index.
#[derive(Clone, Copy, PartialEq, Eq, Structural, Debug, Hash)]
pub struct BigWorldPrototypeRef(pub u32);

impl BigWorldPrototypeRef {
    /// The state bits; 0 is a live record, 3 a deleted one.
    pub open spec fn spec_state(self) -> u32 {
        self.0 & 3
    }

    /// The table the record lives in.
    pub open spec fn spec_table_index(self) -> u32 {
        (self.0 >> 2) & 0x3F
    }

    /// The record's position inside its table.
    pub open spec fn spec_record_index(self) -> u32 {
        self.0 >> 8
    }

    /// Only a reference in state 0 is live.
    pub open spec fn spec_is_valid(self) -> bool {
        self.spec_state() == 0
    }

    /// The state bits; 0 is a live record, 3 a deleted one.
    pub fn state(&self) -> (r: i32)
        ensures
            r == self.spec_state(),
    {
        proof {
            let v = self.0;
            assert(v & 3 <= 3) by (bit_vector);
        }
        (self.0 & 3) as i32
    }

    /// The table the record lives in.
    pub fn table_index(&self) -> (r: usize)
        ensures
            r == self.spec_table_index(),
    {
        proof {
            let v = self.0;
            assert((v >> 2) & 0x3F <= 0x3F) by (bit_vector);
        }
        ((self.0 >> 2u32) & 0x3F) as usize
    }

    /// The record's position inside its table.
    pub fn record_index(&self) -> (r: usize)
        ensures
            r == self.spec_record_index(),
    {
        proof {
            let v = self.0;
            assert(v >> 8 <= 0xFF_FFFF) by (bit_vector);
        }
        (self.0 >> 8u32) as usize
    }

    /// Only a reference in state 0 is live.
    pub fn is_valid(&self) -> (r: bool)
        ensures
            r == self.spec_is_valid(),
    {
        self.state() == 0
    }
}

/// Read `count` 32-bit string identifiers starting at `start`.
pub fn read_string_id_array(data: &[u8], start: u64, count: usize) -> (r: AkizukiResult<
    Vec<StringId>,
>)
    ensures
        match r {
            Ok(v) => {
                &&& start + 4 * count <= data@.len()
                &&& v@.len() == count
                &&& forall|j: int|
                    0 <= j < count ==> (#[trigger] v@[j]).0 == spec_le32_at(data@, start + 4 * j)
            },
            Err(e) => e == AkizukiError::Io && start + 4 * count > data@.len(),
        },
{
    let raw = crate::reader::read_u32_array(data, start, count)?;
    let mut v: Vec<StringId> = Vec::new();
    let mut j: usize = 0;
    while j < count
        invariant
            j <= count,
            raw@.len() == count,
            start + 4 * count <= data@.len(),
            forall|k: int| 0 <= k < count ==> raw@[k] == spec_le32_at(data@, start + 4 * k),
            v@.len() == j,
            forall|k: int| 0 <= k < j ==> (#[trigger] v@[k]).0 == spec_le32_at(data@, start + 4 * k),
        decreases count - j,
    {
        v.push(StringId(raw[j]));
        j = j + 1;
    }
    Ok(v)
}

/// Read `count` 64-bit resource identifiers starting at `start`.
pub fn read_resource_id_array(data: &[u8], start: u64, count: usize) -> (r: AkizukiResult<
    Vec<ResourceId>,
>)
    ensures
        match r {
            Ok(v) => {
                &&& start + 8 * count <= data@.len()
                &&& v@.len() == count
                &&& forall|j: int|
                    0 <= j < count ==> (#[trigger] v@[j]).0 == spec_le64_at(data@, start + 8 * j)
            },
            Err(e) => e == AkizukiError::Io && start + 8 * count > data@.len(),
        },
{
    let raw = crate::reader::read_u64_array(data, start, count)?;
    let mut v: Vec<ResourceId> = Vec::new();
    let mut j: usize = 0;
    while j < count
        invariant
            j <= count,
            raw@.len() == count,
            start + 8 * count <= data@.len(),
            forall|k: int| 0 <= k < count ==> raw@[k] == spec_le64_at(data@, start + 8 * k),
            v@.len() == j,
            forall|k: int| 0 <= k < j ==> (#[trigger] v@[k]).0 == spec_le64_at(data@, start + 8 * k),
        decreases count - j,
    {
        v.push(ResourceId(raw[j]));
        j = j + 1;
    }
    Ok(v)
}

} // verus!
