//! Small wire-level value types: a boolean stored as one byte, and float
//! vectors and matrices carried as raw IEEE-754 bit patterns. The decoders
//! never compute with the float values, so each component is kept as the
//! 32-bit pattern that was read.

use vstd::prelude::*;

verus! {

use crate::error::AkizukiError;
use crate::error::AkizukiResult;
use crate::reader::read_u32_array;
use crate::reader::skip;
use crate::reader::spec_le32_at;

/// A boolean stored as a single byte: 0 is false, 1 is true.
#[derive(Clone, Copy, PartialEq, Eq, Structural, Debug, Hash)]
pub enum FlagBool {
    False,
    True,
}

impl FlagBool {
    /// Read one byte and advance; any value other than 0 or 1 is malformed.
    pub fn read(data: &[u8], pos: &mut usize) -> (r: AkizukiResult<FlagBool>)
        ensures
            match r {
                Ok(f) => {
                    &&& *old(pos) + 1 <= data@.len()
                    &&& *final(pos) == *old(pos) + 1
                    &&& data@[*old(pos) as int] <= 1
                    &&& (f is True <==> data@[*old(pos) as int] == 1)
                },
                Err(e) => e == AkizukiError::Io && (*old(pos) + 1 > data@.len() || data@[*old(
                    pos,
                ) as int] > 1),
            },
    {
        if *pos < data.len() {
            let b = data[*pos];
            if b > 1 {
                return Err(AkizukiError::Io);
            }
            *pos = *pos + 1;
            if b == 1 {
                Ok(FlagBool::True)
            } else {
                Ok(FlagBool::False)
            }
        } else {
            Err(AkizukiError::Io)
        }
    }

    /// The plain boolean this flag stands for.
    pub fn to_bool(&self) -> (r: bool)
        ensures
            r == (self is True),
    {
        match self {
            FlagBool::True => true,
            FlagBool::False => false,
        }
    }
}

/// Two float components as raw bit patterns.
#[derive(Clone, Debug)]
pub struct Vec2 {
    pub bits: Vec<u32>,
}

/// Three float components as raw bit patterns.
#[derive(Clone, Debug)]
pub struct Vec3 {
    pub bits: Vec<u32>,
}

/// Four float components as raw bit patterns.
#[derive(Clone, Debug)]
pub struct Vec4 {
    pub bits: Vec<u32>,
}

/// A 4x4 float matrix, sixteen components as raw bit patterns in column
/// order.
#[derive(Clone, Debug)]
pub struct Mat4 {
    pub bits: Vec<u32>,
}

/// What it means for `n` components to have been read at `start`.
pub open spec fn spec_components_at(bits: Seq<u32>, data: Seq<u8>, start: int, n: int) -> bool {
    &&& bits.len() == n
    &&& forall|j: int| 0 <= j < n ==> bits[j] == spec_le32_at(data, start + 4 * j)
}

impl Vec2 {
    /// Read two components and advance.
    pub fn read(data: &[u8], pos: &mut usize) -> (r: AkizukiResult<Vec2>)
        ensures
            match r {
                Ok(v) => *old(pos) + 8 <= data@.len() && *final(pos) == *old(pos) + 8
                    && spec_components_at(v.bits@, data@, *old(pos) as int, 2),
                Err(e) => e == AkizukiError::Io && *old(pos) + 8 > data@.len(),
            },
    {
        if *pos > data.len() {
            return Err(AkizukiError::Io);
        }
        let bits = read_u32_array(data, *pos as u64, 2)?;
        *pos = *pos + 8;
        Ok(Vec2 { bits })
    }
}

impl Vec3 {
    /// Read three components and advance.
    pub fn read(data: &[u8], pos: &mut usize) -> (r: AkizukiResult<Vec3>)
        ensures
            match r {
                Ok(v) => *old(pos) + 12 <= data@.len() && *final(pos) == *old(pos) + 12
                    && spec_components_at(v.bits@, data@, *old(pos) as int, 3),
                Err(e) => e == AkizukiError::Io && *old(pos) + 12 > data@.len(),
            },
    {
        if *pos > data.len() {
            return Err(AkizukiError::Io);
        }
        let bits = read_u32_array(data, *pos as u64, 3)?;
        *pos = *pos + 12;
        Ok(Vec3 { bits })
    }
}

impl Vec4 {
    /// Read four components and advance.
    pub fn read(data: &[u8], pos: &mut usize) -> (r: AkizukiResult<Vec4>)
        ensures
            match r {
                Ok(v) => *old(pos) + 16 <= data@.len() && *final(pos) == *old(pos) + 16
                    && spec_components_at(v.bits@, data@, *old(pos) as int, 4),
                Err(e) => e == AkizukiError::Io && *old(pos) + 16 > data@.len(),
            },
    {
        if *pos > data.len() {
            return Err(AkizukiError::Io);
        }
        let bits = read_u32_array(data, *pos as u64, 4)?;
        *pos = *pos + 16;
        Ok(Vec4 { bits })
    }
}

impl Mat4 {
    /// Read sixteen components and advance.
    pub fn read(data: &[u8], pos: &mut usize) -> (r: AkizukiResult<Mat4>)
        ensures
            match r {
                Ok(v) => *old(pos) + 64 <= data@.len() && *final(pos) == *old(pos) + 64
                    && spec_components_at(v.bits@, data@, *old(pos) as int, 16),
                Err(e) => e == AkizukiError::Io && *old(pos) + 64 > data@.len(),
            },
    {
        if *pos > data.len() {
            return Err(AkizukiError::Io);
        }
        let bits = read_u32_array(data, *pos as u64, 16)?;
        *pos = *pos + 64;
        Ok(Mat4 { bits })
    }
}

/// An axis-aligned box: two three-component corners, each padded to four
/// components on the wire.
#[derive(Clone, Debug)]
pub struct BoundingBox {
    pub min: Vec3,
    pub max: Vec3,
}

impl BoundingBox {
    /// Read the two padded corners and advance over the full 32 bytes.
    pub fn read(data: &[u8], pos: &mut usize) -> (r: AkizukiResult<BoundingBox>)
        ensures
            match r {
                Ok(v) => {
                    &&& *old(pos) + 32 <= data@.len()
                    &&& *final(pos) == *old(pos) + 32
                    &&& spec_components_at(v.min.bits@, data@, *old(pos) as int, 3)
                    &&& spec_components_at(v.max.bits@, data@, *old(pos) as int + 16, 3)
                },
                Err(e) => e == AkizukiError::Io && *old(pos) + 32 > data@.len(),
            },
    {
        if data.len() < 32 || *pos > data.len() - 32 {
            return Err(AkizukiError::Io);
        }
        let min = Vec3::read(data, pos)?;
        skip(data, pos, 4)?;
        let max = Vec3::read(data, pos)?;
        skip(data, pos, 4)?;
        Ok(BoundingBox { min, max })
    }
}

/// Read `count` matrices packed at `start`, 64 bytes apiece.
pub fn read_mat4_array(data: &[u8], start: u64, count: usize) -> (r: AkizukiResult<Vec<Mat4>>)
    ensures
        match r {
            Ok(v) => {
                &&& start + 64 * count <= data@.len()
                &&& v@.len() == count
                &&& forall|j: int|
                    0 <= j < count ==> spec_components_at(
                        (#[trigger] v@[j]).bits@,
                        data@,
                        start + 64 * j,
                        16,
                    )
            },
            Err(e) => e == AkizukiError::Io && start + 64 * count > data@.len(),
        },
{
    let len = data.len();
    if count as u64 > (u64::MAX - start) / 64 {
        proof {
            assert(64 * ((u64::MAX - start) / 64) + 64 > u64::MAX - start);
        }
        return Err(AkizukiError::Io);
    }
    if start + 64 * (count as u64) > len as u64 {
        return Err(AkizukiError::Io);
    }
    let mut v: Vec<Mat4> = Vec::new();
    let mut j: usize = 0;
    while j < count
        invariant
            j <= count,
            start + 64 * count <= data@.len(),
            start + 64 * count <= u64::MAX,
            v@.len() == j,
            forall|k: int|
                0 <= k < j ==> spec_components_at(
                    (#[trigger] v@[k]).bits@,
                    data@,
                    start + 64 * k,
                    16,
                ),
        decreases count - j,
    {
        let bits = read_u32_array(data, start + 64 * (j as u64), 16)?;
        v.push(Mat4 { bits });
        j = j + 1;
    }
    Ok(v)
}

/// Read `count` one-byte flags packed at `start`; any byte above 1 is
/// malformed.
pub fn read_flag_bool_array(data: &[u8], start: u64, count: usize) -> (r: AkizukiResult<
    Vec<FlagBool>,
>)
    ensures
        match r {
            Ok(v) => {
                &&& start + count <= data@.len()
                &&& v@.len() == count
                &&& forall|j: int| 0 <= j < count ==> #[trigger] data@[start + j] <= 1
                &&& forall|j: int|
                    0 <= j < count ==> ((#[trigger] v@[j]) is True <==> data@[start + j] == 1)
            },
            Err(e) => e == AkizukiError::Io && (start + count > data@.len() || exists|j: int|
                0 <= j < count && #[trigger] data@[start + j] > 1),
        },
{
    let len = data.len();
    if count as u64 > u64::MAX - start || start + count as u64 > len as u64 {
        return Err(AkizukiError::Io);
    }
    let s = start as usize;
    let mut v: Vec<FlagBool> = Vec::new();
    let mut j: usize = 0;
    while j < count
        invariant
            j <= count,
            s == start,
            s + count <= data@.len(),
            s + count <= usize::MAX,
            v@.len() == j,
            forall|k: int| 0 <= k < j ==> #[trigger] data@[start + k] <= 1,
            forall|k: int| 0 <= k < j ==> ((#[trigger] v@[k]) is True <==> data@[start + k] == 1),
        decreases count - j,
    {
        let b = data[s + j];
        if b > 1 {
            return Err(AkizukiError::Io);
        }
        v.push(if b == 1 {
            FlagBool::True
        } else {
            FlagBool::False
        });
        j = j + 1;
    }
    Ok(v)
}

} // verus!
