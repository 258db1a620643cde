//! The model record, generation 14: a visual reference, a role, an
//! animation list and a list of dyes, each dye carrying a tint map.

use vstd::prelude::*;

verus! {

use std::collections::HashMap;
use crate::error::AkizukiError;
use crate::error::AkizukiResult;
use crate::format::bigworld_table::ModelMiscType;
use crate::format::bigworld_data::read_resource_id_array;
use crate::format::bigworld_data::read_string_id_array;
use crate::identifiers::ResourceId;
use crate::identifiers::StringId;
use crate::reader::abs_offset;
use crate::reader::read_u32;
use crate::reader::read_u64;
use crate::reader::skip;
use crate::reader::spec_le32_at;
use crate::reader::spec_le64_at;
use crate::table::model::DyePrototypeVersion;

broadcast use vstd::std_specs::hash::group_hash_axioms;

/// The fixed 32-byte header of a model record.
#[derive(Clone, Copy, PartialEq, Eq, Structural, Debug)]
pub struct ModelPrototypeHeader14 {
    /// The position at which the header was read; its offsets are
    /// relative to it.
    pub relative_position: u64,
    /// The visual this model renders with.
    pub visual_resource: ResourceId,
    /// The role the model plays.
    pub misc_type: ModelMiscType,
    /// How many animation references follow.
    pub animation_count: u8,
    /// How many dyes follow.
    pub dye_count: u8,
    /// Offset of the animation array, relative to the anchor.
    pub animation_offset: u64,
    /// Offset of the dye header array, relative to the anchor.
    pub dye_offset: u64,
    /// The position just after the header, where the next record begins.
    pub end_position: u64,
}

impl ModelPrototypeHeader14 {
    /// Read the fixed header and advance over its 32 bytes.
    pub fn read(data: &[u8], pos: &mut usize) -> (r: AkizukiResult<ModelPrototypeHeader14>)
        ensures
            match r {
                Ok(h) => {
                    &&& *old(pos) + 32 <= data@.len()
                    &&& *final(pos) == *old(pos) + 32
                    &&& h.relative_position == *old(pos)
                    &&& h.end_position == *old(pos) + 32
                    &&& h.visual_resource.0 == spec_le64_at(data@, *old(pos) as int)
                    &&& Some(h.misc_type) == ModelMiscType::spec_from_byte(
                        data@[*old(pos) as int + 8],
                    )
                    &&& h.animation_count == data@[*old(pos) as int + 9]
                    &&& h.dye_count == data@[*old(pos) as int + 10]
                    &&& h.animation_offset == spec_le64_at(data@, *old(pos) as int + 16)
                    &&& h.dye_offset == spec_le64_at(data@, *old(pos) as int + 24)
                },
                Err(e) => e == AkizukiError::Io && (*old(pos) + 32 > data@.len()
                    || ModelMiscType::spec_from_byte(data@[*old(pos) as int + 8]) is None),
            },
    {
        if data.len() < 32 || *pos > data.len() - 32 {
            return Err(AkizukiError::Io);
        }
        let anchor = *pos as u64;
        let visual_resource = ResourceId(read_u64(data, pos)?);
        let misc_type = ModelMiscType::read(data, pos)?;
        let animation_count = data[*pos];
        let dye_count = data[*pos + 1];
        *pos = *pos + 2;
        skip(data, pos, 5)?;
        let animation_offset = read_u64(data, pos)?;
        let dye_offset = read_u64(data, pos)?;
        Ok(
            ModelPrototypeHeader14 {
                relative_position: anchor,
                visual_resource,
                misc_type,
                animation_count,
                dye_count,
                animation_offset,
                dye_offset,
                end_position: anchor + 32,
            },
        )
    }
}

/// The fixed 32-byte header of one dye.
#[derive(Clone, Copy, PartialEq, Eq, Structural, Debug)]
pub struct DyePrototypeHeader14 {
    /// The position at which the header was read.
    pub relative_position: u64,
    /// The matter this dye applies to.
    pub matter_id: StringId,
    /// The slot the dye replaces.
    pub replaces_id: StringId,
    /// How many tints the dye carries.
    pub tint_count: u32,
    /// Offset of the tint name array, relative to the anchor.
    pub tint_name_ids_offset: u64,
    /// Offset of the tint material array, relative to the anchor.
    pub tint_material_ids_offset: u64,
}

impl DyePrototypeHeader14 {
    /// Read one dye header and advance over its 32 bytes.
    pub fn read(data: &[u8], pos: &mut usize) -> (r: AkizukiResult<DyePrototypeHeader14>)
        ensures
            match r {
                Ok(h) => {
                    &&& *old(pos) + 32 <= data@.len()
                    &&& *final(pos) == *old(pos) + 32
                    &&& h.relative_position == *old(pos)
                    &&& h.matter_id.0 == spec_le32_at(data@, *old(pos) as int)
                    &&& h.replaces_id.0 == spec_le32_at(data@, *old(pos) as int + 4)
                    &&& h.tint_count == spec_le32_at(data@, *old(pos) as int + 8)
                    &&& h.tint_name_ids_offset == spec_le64_at(data@, *old(pos) as int + 16)
                    &&& h.tint_material_ids_offset == spec_le64_at(data@, *old(pos) as int + 24)
                },
                Err(e) => e == AkizukiError::Io && *old(pos) + 32 > data@.len(),
            },
    {
        if data.len() < 32 || *pos > data.len() - 32 {
            return Err(AkizukiError::Io);
        }
        let anchor = *pos as u64;
        let matter_id = StringId(read_u32(data, pos)?);
        let replaces_id = StringId(read_u32(data, pos)?);
        let tint_count = read_u32(data, pos)?;
        skip(data, pos, 4)?;
        let tint_name_ids_offset = read_u64(data, pos)?;
        let tint_material_ids_offset = read_u64(data, pos)?;
        Ok(
            DyePrototypeHeader14 {
                relative_position: anchor,
                matter_id,
                replaces_id,
                tint_count,
                tint_name_ids_offset,
                tint_material_ids_offset,
            },
        )
    }
}

/// The tint map of a dye whose name array lies at `names` and material
/// array at `mats`: the first `n` pairs, later pairs replacing earlier
/// ones with the same name.
pub open spec fn spec_tints(d: Seq<u8>, names: int, mats: int, n: int) -> Map<u32, ResourceId>
    decreases n,
{
    if n <= 0 {
        Map::empty()
    } else {
        spec_tints(d, names, mats, n - 1).insert(
            spec_le32_at(d, names + 4 * (n - 1)),
            ResourceId(spec_le64_at(d, mats + 8 * (n - 1))),
        )
    }
}

/// A decoded dye: its matter, the slot it replaces and its tints.
#[derive(Clone, Debug)]
pub struct DyePrototype14 {
    /// The matter this dye applies to.
    pub matter: StringId,
    /// The slot the dye replaces.
    pub replaces: StringId,
    /// Tint name to tint material.
    pub tints: HashMap<u32, ResourceId>,
}

/// Whether a dye's sub-arrays lie inside the data.
pub open spec fn spec_dye_wf(d: Seq<u8>, q: int) -> bool {
    let tc = spec_le32_at(d, q + 8) as int;
    &&& q + spec_le64_at(d, q + 16) + 4 * tc <= d.len()
    &&& q + spec_le64_at(d, q + 24) + 8 * tc <= d.len()
}

/// Whether `dye` is exactly the dye stored at anchor `q`.
pub open spec fn spec_dye_matches(d: Seq<u8>, q: int, dye: DyePrototype14) -> bool {
    let tc = spec_le32_at(d, q + 8) as int;
    &&& dye.matter.0 == spec_le32_at(d, q)
    &&& dye.replaces.0 == spec_le32_at(d, q + 4)
    &&& dye.tints@ == spec_tints(
        d,
        q + spec_le64_at(d, q + 16),
        q + spec_le64_at(d, q + 24),
        tc,
    )
}

impl DyePrototype14 {
    /// Decode one dye from its header: read the two parallel tint arrays
    /// at their anchored offsets and zip them into the tint map.
    pub fn new(data: &[u8], header: &DyePrototypeHeader14) -> (r: AkizukiResult<DyePrototype14>)
        requires
            header.matter_id.0 == spec_le32_at(data@, header.relative_position as int),
            header.replaces_id.0 == spec_le32_at(data@, header.relative_position as int + 4),
            header.tint_count == spec_le32_at(data@, header.relative_position as int + 8),
            header.tint_name_ids_offset == spec_le64_at(
                data@,
                header.relative_position as int + 16,
            ),
            header.tint_material_ids_offset == spec_le64_at(
                data@,
                header.relative_position as int + 24,
            ),
        ensures
            match r {
                Ok(dye) => spec_dye_matches(data@, header.relative_position as int, dye),
                Err(e) => e == AkizukiError::Io && !spec_dye_wf(
                    data@,
                    header.relative_position as int,
                ),
            },
    {
        let len = data.len();
        let names_start = abs_offset(header.relative_position, header.tint_name_ids_offset)?;
        let mats_start = abs_offset(header.relative_position, header.tint_material_ids_offset)?;
        let count = header.tint_count as usize;
        let names = read_string_id_array(data, names_start, count)?;
        let mats = read_resource_id_array(data, mats_start, count)?;

        let ghost d = data@;
        let ghost ns = names_start as int;
        let ghost ms = mats_start as int;

        let mut tints: HashMap<u32, ResourceId> = HashMap::new();
        let mut i: usize = 0;
        proof {
            assert(tints@ =~= spec_tints(d, ns, ms, 0));
        }
        while i < count
            invariant
                i <= count,
                d == data@,
                count == spec_le32_at(d, header.relative_position as int + 8),
                ns + 4 * count <= d.len(),
                ms + 8 * count <= d.len(),
                names@.len() == count,
                mats@.len() == count,
                forall|k: int|
                    0 <= k < count ==> (#[trigger] names@[k]).0 == spec_le32_at(d, ns + 4 * k),
                forall|k: int|
                    0 <= k < count ==> (#[trigger] mats@[k]).0 == spec_le64_at(d, ms + 8 * k),
                tints@ == spec_tints(d, ns, ms, i as int),
            decreases count - i,
        {
            tints.insert(names[i].0, mats[i]);
            proof {
                assert(tints@ =~= spec_tints(d, ns, ms, i as int + 1));
            }
            i = i + 1;
        }

        Ok(DyePrototype14 { matter: header.matter_id, replaces: header.replaces_id, tints })
    }
}

/// A decoded model: its visual, role, animations and dyes.
#[derive(Clone, Debug)]
pub struct ModelPrototype14 {
    /// The visual this model renders with.
    pub visual_resource: ResourceId,
    /// The role the model plays.
    pub misc_type: ModelMiscType,
    /// The animations the model references.
    pub animations: Vec<ResourceId>,
    /// The dyes the model carries.
    pub dyes: Vec<DyePrototypeVersion>,
}

/// Whether the model record at `p` and all its sub-arrays lie inside the
/// data and carry decodable values.
pub open spec fn spec_model_wf(d: Seq<u8>, p: int) -> bool {
    let anim_count = d[p + 9] as int;
    let dye_count = d[p + 10] as int;
    let anim_off = spec_le64_at(d, p + 16) as int;
    let dye_off = spec_le64_at(d, p + 24) as int;
    &&& p + 32 <= d.len()
    &&& ModelMiscType::spec_from_byte(d[p + 8]) is Some
    &&& p + anim_off + 8 * anim_count <= d.len()
    &&& p + dye_off + 32 * dye_count <= d.len()
    &&& forall|j: int| 0 <= j < dye_count ==> #[trigger] spec_dye_wf(d, p + dye_off + 32 * j)
}

/// Whether `m` is exactly the model record stored at `p`.
pub open spec fn spec_model_matches(d: Seq<u8>, p: int, m: ModelPrototype14) -> bool {
    let anim_count = d[p + 9] as int;
    let dye_count = d[p + 10] as int;
    let anim_start = p + spec_le64_at(d, p + 16);
    let dye_start = p + spec_le64_at(d, p + 24);
    &&& m.visual_resource.0 == spec_le64_at(d, p)
    &&& Some(m.misc_type) == ModelMiscType::spec_from_byte(d[p + 8])
    &&& m.animations@.len() == anim_count
    &&& forall|j: int|
        0 <= j < anim_count ==> (#[trigger] m.animations@[j]).0 == spec_le64_at(
            d,
            anim_start + 8 * j,
        )
    &&& m.dyes@.len() == dye_count
    &&& forall|j: int|
        0 <= j < dye_count ==> match #[trigger] m.dyes@[j] {
            DyePrototypeVersion::V14(dye) => spec_dye_matches(d, dye_start + 32 * j, dye),
        }
}

impl ModelPrototype14 {
    /// Decode one model record at the cursor: the fixed header, then the
    /// animation and dye arrays at their anchored offsets; the cursor
    /// ends just past the fixed header, where the next record begins.
    pub fn new(data: &[u8], pos: &mut usize) -> (r: AkizukiResult<ModelPrototype14>)
        ensures
            spec_model_wf(data@, *old(pos) as int) ==> r is Ok,
            match r {
                Ok(m) => {
                    &&& spec_model_matches(data@, *old(pos) as int, m)
                    &&& *final(pos) == *old(pos) + 32
                },
                Err(e) => e == AkizukiError::Io,
            },
    {
        let len = data.len();
        let header = ModelPrototypeHeader14::read(data, pos)?;

        let ghost d = data@;
        let ghost p = header.relative_position as int;

        let anim_start = abs_offset(header.relative_position, header.animation_offset)?;
        let animations = read_resource_id_array(data, anim_start, header.animation_count as usize)?;

        let dye_start = abs_offset(header.relative_position, header.dye_offset)?;
        let dye_count = header.dye_count as usize;
        if (len as u64) < 32 * (dye_count as u64) || dye_start > len as u64 - 32 * (
        dye_count as u64) {
            return Err(AkizukiError::Io);
        }

        let mut dyes: Vec<DyePrototypeVersion> = Vec::new();
        let mut i: usize = 0;
        while i < dye_count
            invariant
                i <= dye_count,
                d == data@,
                p == *old(pos) as int,
                dye_start + 32 * dye_count <= d.len(),
                d.len() <= usize::MAX,
                spec_model_wf(d, p) ==> forall|j: int|
                    0 <= j < dye_count ==> #[trigger] spec_dye_wf(d, dye_start + 32 * j),
                dyes@.len() == i,
                forall|j: int|
                    0 <= j < i ==> match #[trigger] dyes@[j] {
                        DyePrototypeVersion::V14(dye) => spec_dye_matches(
                            d,
                            dye_start + 32 * j,
                            dye,
                        ),
                    },
            decreases dye_count - i,
        {
            let mut hp: usize = (dye_start as usize) + 32 * i;
            let dye_header = DyePrototypeHeader14::read(data, &mut hp)?;
            let dye = match DyePrototype14::new(data, &dye_header) {
                Ok(dye) => dye,
                Err(e) => {
                    proof {
                        if spec_model_wf(d, p) {
                            assert(dye_header.relative_position as int == dye_start + 32 * (
                            i as int));
                            assert(spec_dye_wf(d, dye_start + 32 * (i as int)));
                        }
                    }
                    return Err(e);
                },
            };
            dyes.push(DyePrototypeVersion::V14(dye));
            i = i + 1;
        }

        *pos = header.end_position as usize;

        Ok(
            ModelPrototype14 {
                visual_resource: header.visual_resource,
                misc_type: header.misc_type,
                animations,
                dyes,
            },
        )
    }
}

} // verus!
