//! Fixed-width little-endian reads over an in-memory byte slice.
//!
//! Sequential reads advance a cursor; anchored reads take an absolute
//! position computed from a record's anchor and a stored offset. Every
//! read that would run past the end of the data fails with [`AkizukiError::Io`].

use vstd::prelude::*;

verus! {

use crate::error::AkizukiError;
use crate::error::AkizukiResult;
use vstd::bytes::spec_u16_from_le_bytes;
use vstd::bytes::spec_u32_from_le_bytes;
use vstd::bytes::spec_u64_from_le_bytes;
use vstd::bytes::u16_from_le_bytes;
use vstd::bytes::u32_from_le_bytes;
use vstd::bytes::u64_from_le_bytes;
use vstd::slice::slice_subrange;
use vstd::slice::slice_to_vec;

/// The 16-bit little-endian value starting at byte `i`.
pub open spec fn spec_le16_at(s: Seq<u8>, i: int) -> u16 {
    spec_u16_from_le_bytes(s.subrange(i, i + 2))
}

/// The 32-bit little-endian value starting at byte `i`.
pub open spec fn spec_le32_at(s: Seq<u8>, i: int) -> u32 {
    spec_u32_from_le_bytes(s.subrange(i, i + 4))
}

/// The 64-bit little-endian value starting at byte `i`.
pub open spec fn spec_le64_at(s: Seq<u8>, i: int) -> u64 {
    spec_u64_from_le_bytes(s.subrange(i, i + 8))
}

/// The index of the first zero byte at or after `i`, or -1 if none.
pub open spec fn spec_nul_end(s: Seq<u8>, i: int) -> int
    decreases s.len() - i when 0 <= i <= s.len()
{
    if i >= s.len() {
        -1
    } else if s[i] == 0 {
        i
    } else {
        spec_nul_end(s, i + 1)
    }
}

/// Read one byte and advance.
pub fn read_u8(data: &[u8], pos: &mut usize) -> (r: AkizukiResult<u8>)
    ensures
        match r {
            Ok(v) => *old(pos) + 1 <= data@.len() && v == data@[*old(pos) as int] && *final(pos)
                == *old(pos) + 1,
            Err(e) => e == AkizukiError::Io && *old(pos) + 1 > data@.len() && *final(pos) == *old(
                pos,
            ),
        },
{
    if *pos < data.len() {
        let v = data[*pos];
        *pos = *pos + 1;
        Ok(v)
    } else {
        Err(AkizukiError::Io)
    }
}

/// Read a little-endian `u16` and advance.
pub fn read_u16(data: &[u8], pos: &mut usize) -> (r: AkizukiResult<u16>)
    ensures
        match r {
            Ok(v) => *old(pos) + 2 <= data@.len() && v == spec_le16_at(data@, *old(pos) as int)
                && *final(pos) == *old(pos) + 2,
            Err(e) => e == AkizukiError::Io && *old(pos) + 2 > data@.len() && *final(pos) == *old(
                pos,
            ),
        },
{
    if data.len() >= 2 && *pos <= data.len() - 2 {
        let v = u16_from_le_bytes(slice_subrange(data, *pos, *pos + 2));
        *pos = *pos + 2;
        Ok(v)
    } else {
        Err(AkizukiError::Io)
    }
}

/// Read a little-endian `u32` and advance.
pub fn read_u32(data: &[u8], pos: &mut usize) -> (r: AkizukiResult<u32>)
    ensures
        match r {
            Ok(v) => *old(pos) + 4 <= data@.len() && v == spec_le32_at(data@, *old(pos) as int)
                && *final(pos) == *old(pos) + 4,
            Err(e) => e == AkizukiError::Io && *old(pos) + 4 > data@.len() && *final(pos) == *old(
                pos,
            ),
        },
{
    if data.len() >= 4 && *pos <= data.len() - 4 {
        let v = u32_from_le_bytes(slice_subrange(data, *pos, *pos + 4));
        *pos = *pos + 4;
        Ok(v)
    } else {
        Err(AkizukiError::Io)
    }
}

/// Read a little-endian `u64` and advance.
pub fn read_u64(data: &[u8], pos: &mut usize) -> (r: AkizukiResult<u64>)
    ensures
        match r {
            Ok(v) => *old(pos) + 8 <= data@.len() && v == spec_le64_at(data@, *old(pos) as int)
                && *final(pos) == *old(pos) + 8,
            Err(e) => e == AkizukiError::Io && *old(pos) + 8 > data@.len() && *final(pos) == *old(
                pos,
            ),
        },
{
    if data.len() >= 8 && *pos <= data.len() - 8 {
        let v = u64_from_le_bytes(slice_subrange(data, *pos, *pos + 8));
        *pos = *pos + 8;
        Ok(v)
    } else {
        Err(AkizukiError::Io)
    }
}

/// Move the cursor forward over `n` padding bytes without reading them.
pub fn skip(data: &[u8], pos: &mut usize, n: usize) -> (r: AkizukiResult<()>)
    ensures
        match r {
            Ok(()) => *old(pos) + n <= usize::MAX && *final(pos) == *old(pos) + n,
            Err(e) => e == AkizukiError::Io && *old(pos) + n > usize::MAX && *final(pos) == *old(
                pos,
            ),
        },
{
    match pos.checked_add(n) {
        Some(p) => {
            *pos = p;
            Ok(())
        },
        None => Err(AkizukiError::Io),
    }
}

/// The absolute position `base + off`, or an error when the sum does not
/// exist as a 64-bit value (such a target lies past any file).
pub fn abs_offset(base: u64, off: u64) -> (r: AkizukiResult<u64>)
    ensures
        match r {
            Ok(v) => v == base + off,
            Err(e) => e == AkizukiError::Io && base + off > u64::MAX,
        },
{
    match base.checked_add(off) {
        Some(v) => Ok(v),
        None => Err(AkizukiError::Io),
    }
}

/// Copy `count` raw bytes starting at `start`.
pub fn read_byte_array(data: &[u8], start: u64, count: usize) -> (r: AkizukiResult<Vec<u8>>)
    ensures
        match r {
            Ok(v) => start + count <= data@.len() && v@ == data@.subrange(
                start as int,
                start as int + count,
            ),
            Err(e) => e == AkizukiError::Io && start + count > data@.len(),
        },
{
    let len = data.len();
    if count as u64 <= u64::MAX - start && start + count as u64 <= len as u64 {
        let s = start as usize;
        Ok(slice_to_vec(slice_subrange(data, s, s + count)))
    } else {
        Err(AkizukiError::Io)
    }
}

/// Read `count` little-endian `u16` values starting at `start`.
pub fn read_u16_array(data: &[u8], start: u64, count: usize) -> (r: AkizukiResult<Vec<u16>>)
    ensures
        match r {
            Ok(v) => {
                &&& start + 2 * count <= data@.len()
                &&& v@.len() == count
                &&& forall|j: int|
                    0 <= j < count ==> v@[j] == spec_le16_at(data@, start + 2 * j)
            },
            Err(e) => e == AkizukiError::Io && start + 2 * count > data@.len(),
        },
{
    let len = data.len();
    if count as u64 > (u64::MAX - start) / 2 {
        proof {
            assert(2 * ((u64::MAX - start) / 2) + 2 > u64::MAX - start);
        }
        return Err(AkizukiError::Io);
    }
    if start + 2 * (count as u64) > len as u64 {
        return Err(AkizukiError::Io);
    }
    let s = start as usize;
    let mut v: Vec<u16> = Vec::new();
    let mut j: usize = 0;
    while j < count
        invariant
            j <= count,
            s == start,
            s + 2 * count <= data@.len(),
            s + 2 * count <= usize::MAX,
            v@.len() == j,
            forall|k: int| 0 <= k < j ==> v@[k] == spec_le16_at(data@, start + 2 * k),
        decreases count - j,
    {
        let p = s + 2 * j;
        v.push(u16_from_le_bytes(slice_subrange(data, p, p + 2)));
        j = j + 1;
    }
    Ok(v)
}

/// Read `count` little-endian `u32` values starting at `start`.
pub fn read_u32_array(data: &[u8], start: u64, count: usize) -> (r: AkizukiResult<Vec<u32>>)
    ensures
        match r {
            Ok(v) => {
                &&& start + 4 * count <= data@.len()
                &&& v@.len() == count
                &&& forall|j: int|
                    0 <= j < count ==> v@[j] == spec_le32_at(data@, start + 4 * j)
            },
            Err(e) => e == AkizukiError::Io && start + 4 * count > data@.len(),
        },
{
    let len = data.len();
    if count as u64 > (u64::MAX - start) / 4 {
        proof {
            assert(4 * ((u64::MAX - start) / 4) + 4 > u64::MAX - start);
        }
        return Err(AkizukiError::Io);
    }
    if start + 4 * (count as u64) > len as u64 {
        return Err(AkizukiError::Io);
    }
    let s = start as usize;
    let mut v: Vec<u32> = Vec::new();
    let mut j: usize = 0;
    while j < count
        invariant
            j <= count,
            s == start,
            s + 4 * count <= data@.len(),
            s + 4 * count <= usize::MAX,
            v@.len() == j,
            forall|k: int| 0 <= k < j ==> v@[k] == spec_le32_at(data@, start + 4 * k),
        decreases count - j,
    {
        let p = s + 4 * j;
        v.push(u32_from_le_bytes(slice_subrange(data, p, p + 4)));
        j = j + 1;
    }
    Ok(v)
}

/// Read `count` little-endian `u64` values starting at `start`.
pub fn read_u64_array(data: &[u8], start: u64, count: usize) -> (r: AkizukiResult<Vec<u64>>)
    ensures
        match r {
            Ok(v) => {
                &&& start + 8 * count <= data@.len()
                &&& v@.len() == count
                &&& forall|j: int|
                    0 <= j < count ==> v@[j] == spec_le64_at(data@, start + 8 * j)
            },
            Err(e) => e == AkizukiError::Io && start + 8 * count > data@.len(),
        },
{
    let len = data.len();
    if count as u64 > (u64::MAX - start) / 8 {
        proof {
            assert(8 * ((u64::MAX - start) / 8) + 8 > u64::MAX - start);
        }
        return Err(AkizukiError::Io);
    }
    if start + 8 * (count as u64) > len as u64 {
        return Err(AkizukiError::Io);
    }
    let s = start as usize;
    let mut v: Vec<u64> = Vec::new();
    let mut j: usize = 0;
    while j < count
        invariant
            j <= count,
            s == start,
            s + 8 * count <= data@.len(),
            s + 8 * count <= usize::MAX,
            v@.len() == j,
            forall|k: int| 0 <= k < j ==> v@[k] == spec_le64_at(data@, start + 8 * k),
        decreases count - j,
    {
        let p = s + 8 * j;
        v.push(u64_from_le_bytes(slice_subrange(data, p, p + 8)));
        j = j + 1;
    }
    Ok(v)
}

/// Read the zero-terminated byte string starting at `start`, without its
/// terminator.
pub fn read_null_string(data: &[u8], start: u64) -> (r: AkizukiResult<Vec<u8>>)
    ensures
        match r {
            Ok(v) => {
                &&& start <= data@.len()
                &&& spec_nul_end(data@, start as int) >= 0
                &&& v@ == data@.subrange(start as int, spec_nul_end(data@, start as int))
            },
            Err(e) => e == AkizukiError::Io && (start > data@.len() || spec_nul_end(
                data@,
                start as int,
            ) < 0),
        },
{
    if start > data.len() as u64 {
        return Err(AkizukiError::Io);
    }
    let s = start as usize;
    let mut k: usize = s;
    while k < data.len()
        invariant
            s <= k <= data@.len(),
            start == s,
            forall|j: int| s <= j < k ==> data@[j] != 0,
        decreases data@.len() - k,
    {
        if data[k] == 0 {
            proof {
                lemma_nul_end_found(data@, s as int, k as int);
            }
            return Ok(slice_to_vec(slice_subrange(data, s, k)));
        }
        k = k + 1;
    }
    proof {
        lemma_nul_end_missing(data@, s as int);
    }
    Err(AkizukiError::Io)
}

proof fn lemma_nul_end_found(s: Seq<u8>, i: int, k: int)
    requires
        0 <= i <= k < s.len(),
        s[k] == 0,
        forall|j: int| i <= j < k ==> s[j] != 0,
    ensures
        spec_nul_end(s, i) == k,
    decreases k - i,
{
    if i < k {
        lemma_nul_end_found(s, i + 1, k);
    }
}

proof fn lemma_nul_end_missing(s: Seq<u8>, i: int)
    requires
        0 <= i <= s.len(),
        forall|j: int| i <= j < s.len() ==> s[j] != 0,
    ensures
        spec_nul_end(s, i) == -1,
    decreases s.len() - i,
{
    if i < s.len() {
        lemma_nul_end_missing(s, i + 1);
    }
}


/// The characters that a lossy UTF-8 decode of these bytes yields.
pub uninterp spec fn spec_lossy(s: Seq<u8>) -> Seq<char>;

/// Relies on `String::from_utf8_lossy`: a pure function of the bytes that
/// keeps valid UTF-8 exactly and replaces invalid sequences with the
/// replacement character, so the result is empty only for empty input.
#[verifier::external_body]
pub(crate) fn bytes_to_string_lossy(v: &Vec<u8>) -> (r: String)
    ensures
        r@ == spec_lossy(v@),
        vstd::utf8::valid_utf8(v@) ==> r@ == vstd::utf8::decode_utf8(v@),
        v@.len() == 0 <==> r@.len() == 0,
{
    String::from_utf8_lossy(v.as_slice()).into_owned()
}

/// The signed value whose two's-complement 32-bit pattern is `v`.
pub open spec fn spec_u32_as_i32(v: u32) -> int {
    if v <= 0x7FFF_FFFF {
        v as int
    } else {
        v as int - 0x1_0000_0000
    }
}

/// Reinterpret a 32-bit pattern as a signed value.
pub fn u32_as_i32(v: u32) -> (r: i32)
    ensures
        r as int == spec_u32_as_i32(v),
{
    if v <= 0x7FFF_FFFF {
        v as i32
    } else {
        ((v - 0x8000_0000) as i32) - 0x7FFF_FFFF - 1
    }
}

} // verus!
