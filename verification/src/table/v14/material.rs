//! The material record, generation 14: a compact property bag. The header
//! counts the typed value arrays; two parallel arrays give each property
//! a name and a packed id whose low four bits select the type and whose
//! upper twelve bits index into that type's array.

use vstd::prelude::*;

verus! {

use std::collections::HashMap;
use crate::bin_wrap::Mat4;
use crate::bin_wrap::Vec2;
use crate::bin_wrap::Vec3;
use crate::bin_wrap::Vec4;
use crate::bin_wrap::read_flag_bool_array;
use crate::bin_wrap::spec_components_at;
use crate::error::AkizukiError;
use crate::error::AkizukiResult;
use crate::format::bigworld_data::read_resource_id_array;
use crate::format::bigworld_data::read_string_id_array;
use crate::identifiers::ResourceId;
use crate::identifiers::StringId;
use crate::reader::abs_offset;
use crate::reader::read_u16;
use crate::reader::read_u16_array;
use crate::reader::read_u32;
use crate::reader::read_u32_array;
use crate::reader::read_u64;
use crate::reader::skip;
use crate::reader::spec_le16_at;
use crate::reader::spec_le32_at;
use crate::reader::spec_le64_at;
use crate::reader::spec_u32_as_i32;
use crate::reader::u32_as_i32;

broadcast use vstd::std_specs::hash::group_hash_axioms;

/// A packed property id: the low four bits are the value type, the upper
/// twelve the index into that type's array.
#[derive(Clone, Copy, PartialEq, Eq, Structural, Debug, Hash)]
pub struct MaterialPropertyId14(pub u16);

impl MaterialPropertyId14 {
    /// The type tag in the low four bits.
    pub open spec fn spec_property_type(self) -> u16 {
        self.0 & 0xF
    }

    /// The index in the upper twelve bits.
    pub open spec fn spec_index(self) -> u16 {
        self.0 >> 4
    }

    /// The type tag in the low four bits. A tag past the last type has
    /// no meaning and is left out by the decoder's precondition.
    pub fn property_type(&self) -> (r: u16)
        ensures
            r == self.spec_property_type(),
    {
        self.0 & 0xF
    }

    /// The index in the upper twelve bits.
    pub fn index(&self) -> (r: usize)
        ensures
            r == self.spec_index(),
    {
        (self.0 >> 4u16) as usize
    }
}

/// The fixed 120-byte header of a material record.
#[derive(Clone, Copy, PartialEq, Eq, Structural, Debug)]
pub struct MaterialPrototypeHeader14 {
    /// The position at which the header was read.
    pub relative_position: u64,
    /// How many properties the bag holds.
    pub property_count: u16,
    /// How many boolean values follow.
    pub bool_values_count: u8,
    /// How many signed values follow.
    pub int_values_count: u8,
    /// How many unsigned values follow.
    pub uint_values_count: u8,
    /// How many float values follow.
    pub float_values_count: u8,
    /// How many texture references follow.
    pub texture_values_count: u8,
    /// How many two-component vectors follow.
    pub vector2_values_count: u8,
    /// How many three-component vectors follow.
    pub vector3_values_count: u8,
    /// How many four-component vectors follow.
    pub vector4_values_count: u8,
    /// How many matrices follow.
    pub matrix_values_count: u8,
    /// Offset of the property name array, relative to the anchor.
    pub property_name_ids_offset: u64,
    /// Offset of the packed property id array, relative to the anchor.
    pub property_ids_offset: u64,
    /// Offset of the boolean array, relative to the anchor.
    pub bool_values_offset: u64,
    /// Offset of the signed array, relative to the anchor.
    pub int_values_offset: u64,
    /// Offset of the unsigned array, relative to the anchor.
    pub uint_values_offset: u64,
    /// Offset of the float array, relative to the anchor.
    pub float_values_offset: u64,
    /// Offset of the texture array, relative to the anchor.
    pub texture_values_offset: u64,
    /// Offset of the two-component array, relative to the anchor.
    pub vector2_values_offset: u64,
    /// Offset of the three-component array, relative to the anchor.
    pub vector3_values_offset: u64,
    /// Offset of the four-component array, relative to the anchor.
    pub vector4_values_offset: u64,
    /// Offset of the matrix array, relative to the anchor.
    pub matrix_values_offset: u64,
    /// The effect the material renders with.
    pub fx_path_id: ResourceId,
    /// Collision bits.
    pub collision_flags: u32,
    /// Draw order.
    pub sort_order: i32,
    /// The position just after the header, where the next record begins.
    pub end_position: u64,
}

impl MaterialPrototypeHeader14 {
    /// Read the fixed header and advance over its 120 bytes.
    pub fn read(data: &[u8], pos: &mut usize) -> (r: AkizukiResult<MaterialPrototypeHeader14>)
        ensures
            match r {
                Ok(h) => {
                    &&& *old(pos) + 120 <= data@.len()
                    &&& *final(pos) == *old(pos) + 120
                    &&& h.relative_position == *old(pos)
                    &&& h.end_position == *old(pos) + 120
                    &&& h.property_count == spec_le16_at(data@, *old(pos) as int)
                    &&& h.bool_values_count == data@[*old(pos) as int + 2]
                    &&& h.int_values_count == data@[*old(pos) as int + 3]
                    &&& h.uint_values_count == data@[*old(pos) as int + 4]
                    &&& h.float_values_count == data@[*old(pos) as int + 5]
                    &&& h.texture_values_count == data@[*old(pos) as int + 6]
                    &&& h.vector2_values_count == data@[*old(pos) as int + 7]
                    &&& h.vector3_values_count == data@[*old(pos) as int + 8]
                    &&& h.vector4_values_count == data@[*old(pos) as int + 9]
                    &&& h.matrix_values_count == data@[*old(pos) as int + 10]
                    &&& h.property_name_ids_offset == spec_le64_at(data@, *old(pos) as int + 16)
                    &&& h.property_ids_offset == spec_le64_at(data@, *old(pos) as int + 24)
                    &&& h.bool_values_offset == spec_le64_at(data@, *old(pos) as int + 32)
                    &&& h.int_values_offset == spec_le64_at(data@, *old(pos) as int + 40)
                    &&& h.uint_values_offset == spec_le64_at(data@, *old(pos) as int + 48)
                    &&& h.float_values_offset == spec_le64_at(data@, *old(pos) as int + 56)
                    &&& h.texture_values_offset == spec_le64_at(data@, *old(pos) as int + 64)
                    &&& h.vector2_values_offset == spec_le64_at(data@, *old(pos) as int + 72)
                    &&& h.vector3_values_offset == spec_le64_at(data@, *old(pos) as int + 80)
                    &&& h.vector4_values_offset == spec_le64_at(data@, *old(pos) as int + 88)
                    &&& h.matrix_values_offset == spec_le64_at(data@, *old(pos) as int + 96)
                    &&& h.fx_path_id.0 == spec_le64_at(data@, *old(pos) as int + 104)
                    &&& h.collision_flags == spec_le32_at(data@, *old(pos) as int + 112)
                    &&& h.sort_order as int == spec_u32_as_i32(
                        spec_le32_at(data@, *old(pos) as int + 116),
                    )
                },
                Err(e) => e == AkizukiError::Io && *old(pos) + 120 > data@.len(),
            },
    {
        if data.len() < 120 || *pos > data.len() - 120 {
            return Err(AkizukiError::Io);
        }
        let anchor = *pos as u64;
        let property_count = read_u16(data, pos)?;
        let bool_values_count = data[*pos];
        let int_values_count = data[*pos + 1];
        let uint_values_count = data[*pos + 2];
        let float_values_count = data[*pos + 3];
        let texture_values_count = data[*pos + 4];
        let vector2_values_count = data[*pos + 5];
        let vector3_values_count = data[*pos + 6];
        let vector4_values_count = data[*pos + 7];
        let matrix_values_count = data[*pos + 8];
        *pos = *pos + 9;
        skip(data, pos, 5)?;
        let property_name_ids_offset = read_u64(data, pos)?;
        let property_ids_offset = read_u64(data, pos)?;
        let bool_values_offset = read_u64(data, pos)?;
        let int_values_offset = read_u64(data, pos)?;
        let uint_values_offset = read_u64(data, pos)?;
        let float_values_offset = read_u64(data, pos)?;
        let texture_values_offset = read_u64(data, pos)?;
        let vector2_values_offset = read_u64(data, pos)?;
        let vector3_values_offset = read_u64(data, pos)?;
        let vector4_values_offset = read_u64(data, pos)?;
        let matrix_values_offset = read_u64(data, pos)?;
        let fx_path_id = ResourceId(read_u64(data, pos)?);
        let collision_flags = read_u32(data, pos)?;
        let sort_order = u32_as_i32(read_u32(data, pos)?);
        Ok(
            MaterialPrototypeHeader14 {
                relative_position: anchor,
                property_count,
                bool_values_count,
                int_values_count,
                uint_values_count,
                float_values_count,
                texture_values_count,
                vector2_values_count,
                vector3_values_count,
                vector4_values_count,
                matrix_values_count,
                property_name_ids_offset,
                property_ids_offset,
                bool_values_offset,
                int_values_offset,
                uint_values_offset,
                float_values_offset,
                texture_values_offset,
                vector2_values_offset,
                vector3_values_offset,
                vector4_values_offset,
                matrix_values_offset,
                fx_path_id,
                collision_flags,
                sort_order,
                end_position: anchor + 120,
            },
        )
    }
}

/// The name of property `i`, read from the name array at `ns`.
pub open spec fn spec_prop_name(d: Seq<u8>, ns: int, i: int) -> u32 {
    spec_le32_at(d, ns + 4 * i)
}

/// The type tag of property `i`, read from the id array at `ids`.
pub open spec fn spec_prop_tag(d: Seq<u8>, ids: int, i: int) -> u16 {
    spec_le16_at(d, ids + 2 * i) & 0xF
}

/// The value index of property `i`, read from the id array at `ids`.
pub open spec fn spec_prop_index(d: Seq<u8>, ids: int, i: int) -> int {
    (spec_le16_at(d, ids + 2 * i) >> 4) as int
}

/// The count stored in the header at `p` for the typed array `tag`.
pub open spec fn spec_material_tag_count(d: Seq<u8>, p: int, tag: int) -> int {
    if tag == 0 {
        d[p + 2] as int
    } else if tag == 1 {
        d[p + 3] as int
    } else if tag == 2 {
        d[p + 4] as int
    } else if tag == 3 {
        d[p + 5] as int
    } else if tag == 4 {
        d[p + 6] as int
    } else if tag == 5 {
        d[p + 7] as int
    } else if tag == 6 {
        d[p + 8] as int
    } else if tag == 7 {
        d[p + 9] as int
    } else {
        d[p + 10] as int
    }
}

/// Every packed property id of the record at `p` carries a known type
/// tag and an index inside that type's array. The stored layout gives no
/// meaning to anything else, so the decoder requires it.
pub open spec fn spec_material_props_ok(d: Seq<u8>, p: int) -> bool {
    let pc = spec_le16_at(d, p) as int;
    let ids = p + spec_le64_at(d, p + 24);
    forall|i: int|
        0 <= i < pc ==> (#[trigger] spec_prop_tag(d, ids, i)) <= 8 && spec_prop_index(d, ids, i)
            < spec_material_tag_count(d, p, spec_prop_tag(d, ids, i) as int)
}

/// Whether the material record at `p` and all its arrays lie inside the
/// data and carry decodable values.
pub open spec fn spec_material_wf(d: Seq<u8>, p: int) -> bool {
    let pc = spec_le16_at(d, p) as int;
    &&& p + 120 <= d.len()
    &&& p + spec_le64_at(d, p + 16) + 4 * pc <= d.len()
    &&& p + spec_le64_at(d, p + 24) + 2 * pc <= d.len()
    &&& p + spec_le64_at(d, p + 32) + (d[p + 2] as int) <= d.len()
    &&& forall|j: int|
        0 <= j < d[p + 2] ==> #[trigger] d[p + spec_le64_at(d, p + 32) + j] <= 1
    &&& p + spec_le64_at(d, p + 40) + 4 * (d[p + 3] as int) <= d.len()
    &&& p + spec_le64_at(d, p + 48) + 4 * (d[p + 4] as int) <= d.len()
    &&& p + spec_le64_at(d, p + 56) + 4 * (d[p + 5] as int) <= d.len()
    &&& p + spec_le64_at(d, p + 64) + 8 * (d[p + 6] as int) <= d.len()
    &&& p + spec_le64_at(d, p + 72) + 8 * (d[p + 7] as int) <= d.len()
    &&& p + spec_le64_at(d, p + 80) + 12 * (d[p + 8] as int) <= d.len()
    &&& p + spec_le64_at(d, p + 88) + 16 * (d[p + 9] as int) <= d.len()
    &&& p + spec_le64_at(d, p + 96) + 64 * (d[p + 10] as int) <= d.len()
}

/// The boolean properties among the first `n`: name to stored flag.
pub open spec fn spec_material_bools(d: Seq<u8>, ns: int, ids: int, vs: int, n: int) -> Map<
    u32,
    bool,
>
    decreases n,
{
    if n <= 0 {
        Map::empty()
    } else {
        let rest = spec_material_bools(d, ns, ids, vs, n - 1);
        if spec_prop_tag(d, ids, n - 1) == 0 {
            rest.insert(spec_prop_name(d, ns, n - 1), d[vs + spec_prop_index(d, ids, n - 1)] == 1)
        } else {
            rest
        }
    }
}

/// The signed properties among the first `n`: name to stored value.
pub open spec fn spec_material_ints(d: Seq<u8>, ns: int, ids: int, vs: int, n: int) -> Map<
    u32,
    i32,
>
    decreases n,
{
    if n <= 0 {
        Map::empty()
    } else {
        let rest = spec_material_ints(d, ns, ids, vs, n - 1);
        if spec_prop_tag(d, ids, n - 1) == 1 {
            rest.insert(
                spec_prop_name(d, ns, n - 1),
                spec_u32_as_i32(spec_le32_at(d, vs + 4 * spec_prop_index(d, ids, n - 1))) as i32,
            )
        } else {
            rest
        }
    }
}

/// The unsigned properties among the first `n`: name to stored value.
pub open spec fn spec_material_uints(d: Seq<u8>, ns: int, ids: int, vs: int, n: int) -> Map<
    u32,
    u32,
>
    decreases n,
{
    if n <= 0 {
        Map::empty()
    } else {
        let rest = spec_material_uints(d, ns, ids, vs, n - 1);
        if spec_prop_tag(d, ids, n - 1) == 2 {
            rest.insert(
                spec_prop_name(d, ns, n - 1),
                spec_le32_at(d, vs + 4 * spec_prop_index(d, ids, n - 1)),
            )
        } else {
            rest
        }
    }
}

/// The float properties among the first `n`: name to the stored bit
/// pattern.
pub open spec fn spec_material_floats(d: Seq<u8>, ns: int, ids: int, vs: int, n: int) -> Map<
    u32,
    u32,
>
    decreases n,
{
    if n <= 0 {
        Map::empty()
    } else {
        let rest = spec_material_floats(d, ns, ids, vs, n - 1);
        if spec_prop_tag(d, ids, n - 1) == 3 {
            rest.insert(
                spec_prop_name(d, ns, n - 1),
                spec_le32_at(d, vs + 4 * spec_prop_index(d, ids, n - 1)),
            )
        } else {
            rest
        }
    }
}

/// The texture properties among the first `n`: name to stored reference.
pub open spec fn spec_material_textures(d: Seq<u8>, ns: int, ids: int, vs: int, n: int) -> Map<
    u32,
    ResourceId,
>
    decreases n,
{
    if n <= 0 {
        Map::empty()
    } else {
        let rest = spec_material_textures(d, ns, ids, vs, n - 1);
        if spec_prop_tag(d, ids, n - 1) == 4 {
            rest.insert(
                spec_prop_name(d, ns, n - 1),
                ResourceId(spec_le64_at(d, vs + 8 * spec_prop_index(d, ids, n - 1))),
            )
        } else {
            rest
        }
    }
}

/// The properties of type `tag` among the first `n`, in stored order:
/// each with its name and the absolute position of its value, `stride`
/// bytes apiece.
pub open spec fn spec_material_typed_pairs(
    d: Seq<u8>,
    ns: int,
    ids: int,
    vs: int,
    stride: int,
    tag: u16,
    n: int,
) -> Seq<(u32, int)>
    decreases n,
{
    if n <= 0 {
        Seq::empty()
    } else {
        let rest = spec_material_typed_pairs(d, ns, ids, vs, stride, tag, n - 1);
        if spec_prop_tag(d, ids, n - 1) == tag {
            rest.push(
                (spec_prop_name(d, ns, n - 1), vs + stride * spec_prop_index(d, ids, n - 1)),
            )
        } else {
            rest
        }
    }
}

/// Whether a decoded vector list matches its spec pairs: the same names
/// in the same order, each with the components stored at the paired
/// position.
pub open spec fn spec_vec_pairs_match<T>(
    pairs: Seq<(StringId, T)>,
    bits_of: spec_fn(T) -> Seq<u32>,
    d: Seq<u8>,
    want: Seq<(u32, int)>,
    comps: int,
) -> bool {
    &&& pairs.len() == want.len()
    &&& forall|j: int|
        0 <= j < want.len() ==> (#[trigger] pairs[j]).0.0 == want[j].0 && spec_components_at(
            bits_of(pairs[j].1),
            d,
            want[j].1,
            comps,
        )
}

/// A decoded material: nine typed property collections and three scalar
/// fields.
#[derive(Clone, Debug)]
pub struct MaterialPrototype14 {
    /// Boolean properties.
    pub bools: HashMap<u32, bool>,
    /// Signed properties.
    pub ints: HashMap<u32, i32>,
    /// Unsigned properties.
    pub uints: HashMap<u32, u32>,
    /// Float properties, as stored bit patterns.
    pub floats: HashMap<u32, u32>,
    /// Texture properties.
    pub textures: HashMap<u32, ResourceId>,
    /// Two-component properties, in stored order.
    pub vector2s: Vec<(StringId, Vec2)>,
    /// Three-component properties, in stored order.
    pub vector3s: Vec<(StringId, Vec3)>,
    /// Four-component properties, in stored order.
    pub vector4s: Vec<(StringId, Vec4)>,
    /// Matrix properties, in stored order.
    pub matrices: Vec<(StringId, Mat4)>,
    /// The effect the material renders with.
    pub fx_path: ResourceId,
    /// Collision bits.
    pub collision_flags: u32,
    /// Draw order.
    pub sort_order: i32,
}

/// Whether `m` is exactly the material record stored at `p`.
pub open spec fn spec_material_matches(d: Seq<u8>, p: int, m: MaterialPrototype14) -> bool {
    let pc = spec_le16_at(d, p) as int;
    let ns = p + spec_le64_at(d, p + 16);
    let ids = p + spec_le64_at(d, p + 24);
    &&& m.bools@ == spec_material_bools(d, ns, ids, p + spec_le64_at(d, p + 32), pc)
    &&& m.ints@ == spec_material_ints(d, ns, ids, p + spec_le64_at(d, p + 40), pc)
    &&& m.uints@ == spec_material_uints(d, ns, ids, p + spec_le64_at(d, p + 48), pc)
    &&& m.floats@ == spec_material_floats(d, ns, ids, p + spec_le64_at(d, p + 56), pc)
    &&& m.textures@ == spec_material_textures(d, ns, ids, p + spec_le64_at(d, p + 64), pc)
    &&& spec_vec_pairs_match(
        m.vector2s@,
        |v: Vec2| v.bits@,
        d,
        spec_material_typed_pairs(d, ns, ids, p + spec_le64_at(d, p + 72), 8, 5, pc),
        2,
    )
    &&& spec_vec_pairs_match(
        m.vector3s@,
        |v: Vec3| v.bits@,
        d,
        spec_material_typed_pairs(d, ns, ids, p + spec_le64_at(d, p + 80), 12, 6, pc),
        3,
    )
    &&& spec_vec_pairs_match(
        m.vector4s@,
        |v: Vec4| v.bits@,
        d,
        spec_material_typed_pairs(d, ns, ids, p + spec_le64_at(d, p + 88), 16, 7, pc),
        4,
    )
    &&& spec_vec_pairs_match(
        m.matrices@,
        |v: Mat4| v.bits@,
        d,
        spec_material_typed_pairs(d, ns, ids, p + spec_le64_at(d, p + 96), 64, 8, pc),
        16,
    )
    &&& m.fx_path.0 == spec_le64_at(d, p + 104)
    &&& m.collision_flags == spec_le32_at(d, p + 112)
    &&& m.sort_order as int == spec_u32_as_i32(spec_le32_at(d, p + 116))
}

impl MaterialPrototype14 {
    /// Decode one material record at the cursor: the fixed header, the
    /// eleven typed arrays at their anchored offsets, then one pass over
    /// the parallel name and id arrays that sorts each property into its
    /// typed collection. The cursor ends just past the fixed header,
    /// where the next record begins.
    #[verifier::rlimit(100)]
    pub fn new(data: &[u8], pos: &mut usize) -> (r: AkizukiResult<MaterialPrototype14>)
        requires
            spec_material_props_ok(data@, *old(pos) as int),
        ensures
            spec_material_wf(data@, *old(pos) as int) ==> r is Ok,
            match r {
                Ok(m) => {
                    &&& spec_material_matches(data@, *old(pos) as int, m)
                    &&& *final(pos) == *old(pos) + 120
                },
                Err(e) => e == AkizukiError::Io,
            },
    {
        let len = data.len();
        let header = MaterialPrototypeHeader14::read(data, pos)?;

        let ghost d = data@;
        let ghost p = header.relative_position as int;

        let anchor = header.relative_position;
        let ns_start = abs_offset(anchor, header.property_name_ids_offset)?;
        let pc = header.property_count as usize;
        let property_names = read_string_id_array(data, ns_start, pc)?;
        let ids_start = abs_offset(anchor, header.property_ids_offset)?;
        let property_ids = read_u16_array(data, ids_start, pc)?;

        let bools_start = abs_offset(anchor, header.bool_values_offset)?;
        let bool_values = read_flag_bool_array(data, bools_start, header.bool_values_count as usize)?;
        let ints_start = abs_offset(anchor, header.int_values_offset)?;
        let i32_values = read_u32_array(data, ints_start, header.int_values_count as usize)?;
        let uints_start = abs_offset(anchor, header.uint_values_offset)?;
        let u32_values = read_u32_array(data, uints_start, header.uint_values_count as usize)?;
        let floats_start = abs_offset(anchor, header.float_values_offset)?;
        let f32_values = read_u32_array(data, floats_start, header.float_values_count as usize)?;
        let tex_start = abs_offset(anchor, header.texture_values_offset)?;
        let texture_values = read_resource_id_array(data, tex_start, header.texture_values_count as usize)?;

        let v2_start = abs_offset(anchor, header.vector2_values_offset)?;
        let v3_start = abs_offset(anchor, header.vector3_values_offset)?;
        let v4_start = abs_offset(anchor, header.vector4_values_offset)?;
        let mat_start = abs_offset(anchor, header.matrix_values_offset)?;
        if (len as u64) < 8 * (header.vector2_values_count as u64) || v2_start > len as u64 - 8 * (
        header.vector2_values_count as u64) {
            return Err(AkizukiError::Io);
        }
        if (len as u64) < 12 * (header.vector3_values_count as u64) || v3_start > len as u64 - 12
            * (header.vector3_values_count as u64) {
            return Err(AkizukiError::Io);
        }
        if (len as u64) < 16 * (header.vector4_values_count as u64) || v4_start > len as u64 - 16
            * (header.vector4_values_count as u64) {
            return Err(AkizukiError::Io);
        }
        if (len as u64) < 64 * (header.matrix_values_count as u64) || mat_start > len as u64 - 64
            * (header.matrix_values_count as u64) {
            return Err(AkizukiError::Io);
        }

        let mut bools: HashMap<u32, bool> = HashMap::new();
        let mut ints: HashMap<u32, i32> = HashMap::new();
        let mut uints: HashMap<u32, u32> = HashMap::new();
        let mut floats: HashMap<u32, u32> = HashMap::new();
        let mut textures: HashMap<u32, ResourceId> = HashMap::new();
        let mut vector2s: Vec<(StringId, Vec2)> = Vec::new();
        let mut vector3s: Vec<(StringId, Vec3)> = Vec::new();
        let mut vector4s: Vec<(StringId, Vec4)> = Vec::new();
        let mut matrices: Vec<(StringId, Mat4)> = Vec::new();

        let ghost ns = ns_start as int;
        let ghost ids = ids_start as int;
        proof {
            assert(bools@ =~= spec_material_bools(d, ns, ids, bools_start as int, 0));
            assert(ints@ =~= spec_material_ints(d, ns, ids, ints_start as int, 0));
            assert(uints@ =~= spec_material_uints(d, ns, ids, uints_start as int, 0));
            assert(floats@ =~= spec_material_floats(d, ns, ids, floats_start as int, 0));
            assert(textures@ =~= spec_material_textures(d, ns, ids, tex_start as int, 0));
            assert(spec_material_typed_pairs(d, ns, ids, v2_start as int, 8, 5, 0)
                =~= Seq::<(u32, int)>::empty());
            assert(spec_material_typed_pairs(d, ns, ids, v3_start as int, 12, 6, 0)
                =~= Seq::<(u32, int)>::empty());
            assert(spec_material_typed_pairs(d, ns, ids, v4_start as int, 16, 7, 0)
                =~= Seq::<(u32, int)>::empty());
            assert(spec_material_typed_pairs(d, ns, ids, mat_start as int, 64, 8, 0)
                =~= Seq::<(u32, int)>::empty());
        }

        let mut i: usize = 0;
        while i < pc
            invariant
                i <= pc,
                d == data@,
                p == *old(pos) as int,
                d.len() <= usize::MAX,
                spec_material_props_ok(d, p),
                pc == spec_le16_at(d, p) as int,
                ns == p + spec_le64_at(d, p + 16),
                ids == p + spec_le64_at(d, p + 24),
                ns + 4 * pc <= d.len(),
                ids + 2 * pc <= d.len(),
                property_names@.len() == pc,
                forall|k: int|
                    0 <= k < pc ==> (#[trigger] property_names@[k]).0 == spec_le32_at(
                        d,
                        ns + 4 * k,
                    ),
                property_ids@.len() == pc,
                forall|k: int|
                    0 <= k < pc ==> (#[trigger] property_ids@[k]) == spec_le16_at(d, ids + 2 * k),
                bools_start as int == p + spec_le64_at(d, p + 32),
                ints_start as int == p + spec_le64_at(d, p + 40),
                uints_start as int == p + spec_le64_at(d, p + 48),
                floats_start as int == p + spec_le64_at(d, p + 56),
                tex_start as int == p + spec_le64_at(d, p + 64),
                v2_start as int == p + spec_le64_at(d, p + 72),
                v3_start as int == p + spec_le64_at(d, p + 80),
                v4_start as int == p + spec_le64_at(d, p + 88),
                mat_start as int == p + spec_le64_at(d, p + 96),
                bool_values@.len() == spec_material_tag_count(d, p, 0),
                forall|k: int|
                    0 <= k < bool_values@.len() ==> ((#[trigger] bool_values@[k]) is True <==> d[
                        bools_start + k
                    ] == 1),
                i32_values@.len() == spec_material_tag_count(d, p, 1),
                forall|k: int|
                    0 <= k < i32_values@.len() ==> (#[trigger] i32_values@[k]) == spec_le32_at(
                        d,
                        ints_start + 4 * k,
                    ),
                u32_values@.len() == spec_material_tag_count(d, p, 2),
                forall|k: int|
                    0 <= k < u32_values@.len() ==> (#[trigger] u32_values@[k]) == spec_le32_at(
                        d,
                        uints_start + 4 * k,
                    ),
                f32_values@.len() == spec_material_tag_count(d, p, 3),
                forall|k: int|
                    0 <= k < f32_values@.len() ==> (#[trigger] f32_values@[k]) == spec_le32_at(
                        d,
                        floats_start + 4 * k,
                    ),
                texture_values@.len() == spec_material_tag_count(d, p, 4),
                forall|k: int|
                    0 <= k < texture_values@.len() ==> (#[trigger] texture_values@[k]).0
                        == spec_le64_at(d, tex_start + 8 * k),
                v2_start + 8 * spec_material_tag_count(d, p, 5) <= d.len(),
                v3_start + 12 * spec_material_tag_count(d, p, 6) <= d.len(),
                v4_start + 16 * spec_material_tag_count(d, p, 7) <= d.len(),
                mat_start + 64 * spec_material_tag_count(d, p, 8) <= d.len(),
                bools@ == spec_material_bools(d, ns, ids, bools_start as int, i as int),
                ints@ == spec_material_ints(d, ns, ids, ints_start as int, i as int),
                uints@ == spec_material_uints(d, ns, ids, uints_start as int, i as int),
                floats@ == spec_material_floats(d, ns, ids, floats_start as int, i as int),
                textures@ == spec_material_textures(d, ns, ids, tex_start as int, i as int),
                spec_vec_pairs_match(
                    vector2s@,
                    |v: Vec2| v.bits@,
                    d,
                    spec_material_typed_pairs(d, ns, ids, v2_start as int, 8, 5, i as int),
                    2,
                ),
                spec_vec_pairs_match(
                    vector3s@,
                    |v: Vec3| v.bits@,
                    d,
                    spec_material_typed_pairs(d, ns, ids, v3_start as int, 12, 6, i as int),
                    3,
                ),
                spec_vec_pairs_match(
                    vector4s@,
                    |v: Vec4| v.bits@,
                    d,
                    spec_material_typed_pairs(d, ns, ids, v4_start as int, 16, 7, i as int),
                    4,
                ),
                spec_vec_pairs_match(
                    matrices@,
                    |v: Mat4| v.bits@,
                    d,
                    spec_material_typed_pairs(d, ns, ids, mat_start as int, 64, 8, i as int),
                    16,
                ),
            decreases pc - i,
        {
            let name = property_names[i];
            let pid = MaterialPropertyId14(property_ids[i]);
            let tag = pid.property_type();
            let index = pid.index();
            proof {
                assert(spec_prop_tag(d, ids, i as int) == tag);
                assert(spec_prop_index(d, ids, i as int) == index);
                assert(spec_prop_name(d, ns, i as int) == name.0);
            }
            if tag == 0 {
                bools.insert(name.0, bool_values[index].to_bool());
                proof {
                    assert(bools@ =~= spec_material_bools(
                        d,
                        ns,
                        ids,
                        bools_start as int,
                        i as int + 1,
                    ));
                }
            } else if tag == 1 {
                ints.insert(name.0, u32_as_i32(i32_values[index]));
                proof {
                    assert(ints@ =~= spec_material_ints(
                        d,
                        ns,
                        ids,
                        ints_start as int,
                        i as int + 1,
                    ));
                }
            } else if tag == 2 {
                uints.insert(name.0, u32_values[index]);
                proof {
                    assert(uints@ =~= spec_material_uints(
                        d,
                        ns,
                        ids,
                        uints_start as int,
                        i as int + 1,
                    ));
                }
            } else if tag == 3 {
                floats.insert(name.0, f32_values[index]);
                proof {
                    assert(floats@ =~= spec_material_floats(
                        d,
                        ns,
                        ids,
                        floats_start as int,
                        i as int + 1,
                    ));
                }
            } else if tag == 4 {
                textures.insert(name.0, texture_values[index]);
                proof {
                    assert(textures@ =~= spec_material_textures(
                        d,
                        ns,
                        ids,
                        tex_start as int,
                        i as int + 1,
                    ));
                }
            } else if tag == 5 {
                let at = (v2_start as usize) + 8 * index;
                let bits = read_u32_array(data, at as u64, 2)?;
                vector2s.push((name, Vec2 { bits }));
            } else if tag == 6 {
                let at = (v3_start as usize) + 12 * index;
                let bits = read_u32_array(data, at as u64, 3)?;
                vector3s.push((name, Vec3 { bits }));
            } else if tag == 7 {
                let at = (v4_start as usize) + 16 * index;
                let bits = read_u32_array(data, at as u64, 4)?;
                vector4s.push((name, Vec4 { bits }));
            } else {
                let at = (mat_start as usize) + 64 * index;
                let bits = read_u32_array(data, at as u64, 16)?;
                matrices.push((name, Mat4 { bits }));
            }
            i = i + 1;
        }

        *pos = header.end_position as usize;

        Ok(
            MaterialPrototype14 {
                bools,
                ints,
                uints,
                floats,
                textures,
                vector2s,
                vector3s,
                vector4s,
                matrices,
                fx_path: header.fx_path_id,
                collision_flags: header.collision_flags,
                sort_order: header.sort_order,
            },
        )
    }
}

} // verus!
