//! The visual record, generation 14: an embedded skeleton, model flags, a
//! bounding box, and anchored arrays of level-of-detail and render-set
//! records.

use vstd::prelude::*;

verus! {

use crate::bin_wrap::BoundingBox;
use crate::bin_wrap::FlagBool;
use crate::bin_wrap::Mat4;
use crate::bin_wrap::read_mat4_array;
use crate::error::AkizukiError;
use crate::error::AkizukiResult;
use crate::format::bigworld_data::read_string_id_array;
use crate::identifiers::ResourceId;
use crate::identifiers::StringId;
use crate::reader::abs_offset;
use crate::reader::read_u16;
use crate::reader::read_u16_array;
use crate::reader::read_u32;
use crate::reader::read_u64;
use crate::reader::skip;
use crate::reader::spec_le16_at;
use crate::reader::spec_le32_at;
use crate::reader::spec_le64_at;
use crate::table::visual::LODPrototypeVersion;
use crate::table::visual::RenderSetPrototypeVersion;
use crate::table::visual::SkeletonPrototypeVersion;

/// The fixed 48-byte skeleton header embedded at the start of a visual
/// record.
#[derive(Clone, Copy, PartialEq, Eq, Structural, Debug)]
pub struct SkeletonPrototypeHeader14 {
    /// The position at which the header was read.
    pub relative_position: u64,
    /// How many nodes the skeleton has.
    pub node_count: u32,
    /// Offset of the name-map identifier array, relative to the anchor.
    pub name_map_id_offset: u64,
    /// Offset of the name-map node array, relative to the anchor.
    pub name_map_node_offset: u64,
    /// Offset of the node name array, relative to the anchor.
    pub name_ids_offset: u64,
    /// Offset of the node matrix array, relative to the anchor.
    pub matrices_offset: u64,
    /// Offset of the node parent array, relative to the anchor.
    pub parent_ids_offset: u64,
    /// The position just after the header.
    pub end_position: u64,
}

impl SkeletonPrototypeHeader14 {
    /// Read the fixed header and advance over its 48 bytes.
    pub fn read(data: &[u8], pos: &mut usize) -> (r: AkizukiResult<SkeletonPrototypeHeader14>)
        ensures
            match r {
                Ok(h) => {
                    &&& *old(pos) + 48 <= data@.len()
                    &&& *final(pos) == *old(pos) + 48
                    &&& h.relative_position == *old(pos)
                    &&& h.end_position == *old(pos) + 48
                    &&& h.node_count == spec_le32_at(data@, *old(pos) as int)
                    &&& h.name_map_id_offset == spec_le64_at(data@, *old(pos) as int + 8)
                    &&& h.name_map_node_offset == spec_le64_at(data@, *old(pos) as int + 16)
                    &&& h.name_ids_offset == spec_le64_at(data@, *old(pos) as int + 24)
                    &&& h.matrices_offset == spec_le64_at(data@, *old(pos) as int + 32)
                    &&& h.parent_ids_offset == spec_le64_at(data@, *old(pos) as int + 40)
                },
                Err(e) => e == AkizukiError::Io && *old(pos) + 48 > data@.len(),
            },
    {
        if data.len() < 48 || *pos > data.len() - 48 {
            return Err(AkizukiError::Io);
        }
        let anchor = *pos as u64;
        let node_count = read_u32(data, pos)?;
        skip(data, pos, 4)?;
        let name_map_id_offset = read_u64(data, pos)?;
        let name_map_node_offset = read_u64(data, pos)?;
        let name_ids_offset = read_u64(data, pos)?;
        let matrices_offset = read_u64(data, pos)?;
        let parent_ids_offset = read_u64(data, pos)?;
        Ok(
            SkeletonPrototypeHeader14 {
                relative_position: anchor,
                node_count,
                name_map_id_offset,
                name_map_node_offset,
                name_ids_offset,
                matrices_offset,
                parent_ids_offset,
                end_position: anchor + 48,
            },
        )
    }
}

/// The fixed 112-byte header of a visual record, with the skeleton
/// header embedded at its start.
#[derive(Clone, Debug)]
pub struct VisualPrototypeHeader14 {
    /// The position at which the header was read.
    pub relative_position: u64,
    /// The embedded skeleton header.
    pub skeleton_prototype: SkeletonPrototypeHeader14,
    /// The merged geometry this visual draws from.
    pub merged_geometry_path: ResourceId,
    /// Whether the model renders under water.
    pub is_underwater_model: FlagBool,
    /// Whether the model renders above water.
    pub is_abovewater_model: FlagBool,
    /// How many render sets follow.
    pub render_sets_count: u16,
    /// How many level-of-detail records follow.
    pub lod_count: u8,
    /// The bounds of the visual.
    pub bounding_box: BoundingBox,
    /// Offset of the render-set header array, relative to the anchor.
    pub render_sets_offset: u64,
    /// Offset of the level-of-detail header array, relative to the anchor.
    pub lods_offset: u64,
    /// The position just after the header, where the next record begins.
    pub end_position: u64,
}

impl VisualPrototypeHeader14 {
    /// Read the fixed header and advance over its 112 bytes.
    pub fn read(data: &[u8], pos: &mut usize) -> (r: AkizukiResult<VisualPrototypeHeader14>)
        ensures
            match r {
                Ok(h) => {
                    &&& *old(pos) + 112 <= data@.len()
                    &&& *final(pos) == *old(pos) + 112
                    &&& h.relative_position == *old(pos)
                    &&& h.end_position == *old(pos) + 112
                    &&& h.skeleton_prototype.relative_position == *old(pos)
                    &&& h.skeleton_prototype.node_count == spec_le32_at(data@, *old(pos) as int)
                    &&& h.skeleton_prototype.name_ids_offset == spec_le64_at(
                        data@,
                        *old(pos) as int + 24,
                    )
                    &&& h.skeleton_prototype.matrices_offset == spec_le64_at(
                        data@,
                        *old(pos) as int + 32,
                    )
                    &&& h.skeleton_prototype.parent_ids_offset == spec_le64_at(
                        data@,
                        *old(pos) as int + 40,
                    )
                    &&& h.merged_geometry_path.0 == spec_le64_at(data@, *old(pos) as int + 48)
                    &&& data@[*old(pos) as int + 56] <= 1
                    &&& (h.is_underwater_model is True <==> data@[*old(pos) as int + 56] == 1)
                    &&& data@[*old(pos) as int + 57] <= 1
                    &&& (h.is_abovewater_model is True <==> data@[*old(pos) as int + 57] == 1)
                    &&& h.render_sets_count == spec_le16_at(data@, *old(pos) as int + 58)
                    &&& h.lod_count == data@[*old(pos) as int + 60]
                    &&& crate::bin_wrap::spec_components_at(
                        h.bounding_box.min.bits@,
                        data@,
                        *old(pos) as int + 64,
                        3,
                    )
                    &&& crate::bin_wrap::spec_components_at(
                        h.bounding_box.max.bits@,
                        data@,
                        *old(pos) as int + 80,
                        3,
                    )
                    &&& h.render_sets_offset == spec_le64_at(data@, *old(pos) as int + 96)
                    &&& h.lods_offset == spec_le64_at(data@, *old(pos) as int + 104)
                },
                Err(e) => e == AkizukiError::Io && (*old(pos) + 112 > data@.len() || data@[*old(
                    pos,
                ) as int + 56] > 1 || data@[*old(pos) as int + 57] > 1),
            },
    {
        if data.len() < 112 || *pos > data.len() - 112 {
            return Err(AkizukiError::Io);
        }
        let anchor = *pos as u64;
        let skeleton_prototype = SkeletonPrototypeHeader14::read(data, pos)?;
        let merged_geometry_path = ResourceId(read_u64(data, pos)?);
        let is_underwater_model = FlagBool::read(data, pos)?;
        let is_abovewater_model = FlagBool::read(data, pos)?;
        let render_sets_count = read_u16(data, pos)?;
        let lod_count = data[*pos];
        *pos = *pos + 1;
        skip(data, pos, 3)?;
        let bounding_box = BoundingBox::read(data, pos)?;
        let render_sets_offset = read_u64(data, pos)?;
        let lods_offset = read_u64(data, pos)?;
        Ok(
            VisualPrototypeHeader14 {
                relative_position: anchor,
                skeleton_prototype,
                merged_geometry_path,
                is_underwater_model,
                is_abovewater_model,
                render_sets_count,
                lod_count,
                bounding_box,
                render_sets_offset,
                lods_offset,
                end_position: anchor + 112,
            },
        )
    }
}

/// The fixed 40-byte header of one render set.
#[derive(Clone, Copy, PartialEq, Eq, Structural, Debug)]
pub struct RenderSetPrototypeHeader14 {
    /// The position at which the header was read.
    pub relative_position: u64,
    /// The render set's own name.
    pub name: StringId,
    /// The material the set renders with.
    pub material_name: StringId,
    /// The vertex buffer the set uses.
    pub vertices_name: StringId,
    /// The index buffer the set uses.
    pub indices_name: StringId,
    /// The material resource the set references.
    pub material_resource: ResourceId,
    /// Whether the set is skinned to the skeleton.
    pub is_skinned: FlagBool,
    /// How many skeleton nodes the set binds.
    pub node_count: u8,
    /// Offset of the node name array, relative to the anchor.
    pub node_offset: u64,
}

impl RenderSetPrototypeHeader14 {
    /// Read one render-set header and advance over its 40 bytes.
    pub fn read(data: &[u8], pos: &mut usize) -> (r: AkizukiResult<RenderSetPrototypeHeader14>)
        ensures
            match r {
                Ok(h) => {
                    &&& *old(pos) + 40 <= data@.len()
                    &&& *final(pos) == *old(pos) + 40
                    &&& h.relative_position == *old(pos)
                    &&& h.name.0 == spec_le32_at(data@, *old(pos) as int)
                    &&& h.material_name.0 == spec_le32_at(data@, *old(pos) as int + 4)
                    &&& h.vertices_name.0 == spec_le32_at(data@, *old(pos) as int + 8)
                    &&& h.indices_name.0 == spec_le32_at(data@, *old(pos) as int + 12)
                    &&& h.material_resource.0 == spec_le64_at(data@, *old(pos) as int + 16)
                    &&& data@[*old(pos) as int + 24] <= 1
                    &&& (h.is_skinned is True <==> data@[*old(pos) as int + 24] == 1)
                    &&& h.node_count == data@[*old(pos) as int + 25]
                    &&& h.node_offset == spec_le64_at(data@, *old(pos) as int + 32)
                },
                Err(e) => e == AkizukiError::Io && (*old(pos) + 40 > data@.len() || data@[*old(
                    pos,
                ) as int + 24] > 1),
            },
    {
        if data.len() < 40 || *pos > data.len() - 40 {
            return Err(AkizukiError::Io);
        }
        let anchor = *pos as u64;
        let name = StringId(read_u32(data, pos)?);
        let material_name = StringId(read_u32(data, pos)?);
        let vertices_name = StringId(read_u32(data, pos)?);
        let indices_name = StringId(read_u32(data, pos)?);
        let material_resource = ResourceId(read_u64(data, pos)?);
        let is_skinned = FlagBool::read(data, pos)?;
        let node_count = data[*pos];
        *pos = *pos + 1;
        skip(data, pos, 6)?;
        let node_offset = read_u64(data, pos)?;
        Ok(
            RenderSetPrototypeHeader14 {
                relative_position: anchor,
                name,
                material_name,
                vertices_name,
                indices_name,
                material_resource,
                is_skinned,
                node_count,
                node_offset,
            },
        )
    }
}

/// The fixed 16-byte header of one level-of-detail record.
#[derive(Clone, Copy, PartialEq, Eq, Structural, Debug)]
pub struct LODPrototypeHeader14 {
    /// The position at which the header was read.
    pub relative_position: u64,
    /// The draw distance, as the raw bit pattern of the stored float.
    pub extent: u32,
    /// Whether the level casts shadows.
    pub cast_shadows: FlagBool,
    /// How many render sets the level names.
    pub render_set_count: u16,
    /// Offset of the render-set name array, relative to the anchor.
    pub render_set_offset: u64,
}

impl LODPrototypeHeader14 {
    /// Read one level-of-detail header and advance over its 16 bytes.
    pub fn read(data: &[u8], pos: &mut usize) -> (r: AkizukiResult<LODPrototypeHeader14>)
        ensures
            match r {
                Ok(h) => {
                    &&& *old(pos) + 16 <= data@.len()
                    &&& *final(pos) == *old(pos) + 16
                    &&& h.relative_position == *old(pos)
                    &&& h.extent == spec_le32_at(data@, *old(pos) as int)
                    &&& data@[*old(pos) as int + 4] <= 1
                    &&& (h.cast_shadows is True <==> data@[*old(pos) as int + 4] == 1)
                    &&& h.render_set_count == spec_le16_at(data@, *old(pos) as int + 6)
                    &&& h.render_set_offset == spec_le64_at(data@, *old(pos) as int + 8)
                },
                Err(e) => e == AkizukiError::Io && (*old(pos) + 16 > data@.len() || data@[*old(
                    pos,
                ) as int + 4] > 1),
            },
    {
        if data.len() < 16 || *pos > data.len() - 16 {
            return Err(AkizukiError::Io);
        }
        let anchor = *pos as u64;
        let extent = read_u32(data, pos)?;
        let cast_shadows = FlagBool::read(data, pos)?;
        skip(data, pos, 1)?;
        let render_set_count = read_u16(data, pos)?;
        let render_set_offset = read_u64(data, pos)?;
        Ok(
            LODPrototypeHeader14 {
                relative_position: anchor,
                extent,
                cast_shadows,
                render_set_count,
                render_set_offset,
            },
        )
    }
}

/// A decoded skeleton: three parallel per-node arrays.
#[derive(Clone, Debug)]
pub struct SkeletonPrototype14 {
    /// The name of each node.
    pub names: Vec<StringId>,
    /// The rest transform of each node.
    pub matrices: Vec<Mat4>,
    /// The parent slot of each node.
    pub parent_ids: Vec<u16>,
}

/// A decoded render set.
#[derive(Clone, Debug)]
pub struct RenderSetPrototype14 {
    /// The render set's own name.
    pub name: StringId,
    /// The material the set renders with.
    pub material_name: StringId,
    /// The vertex buffer the set uses.
    pub vertices_name: StringId,
    /// The index buffer the set uses.
    pub indices_name: StringId,
    /// The material resource the set references.
    pub material_resource: ResourceId,
    /// Whether the set is skinned to the skeleton.
    pub is_skinned: bool,
    /// The skeleton nodes the set binds.
    pub nodes: Vec<StringId>,
}

/// A decoded level of detail.
#[derive(Clone, Debug)]
pub struct LODPrototype14 {
    /// The draw distance, as the raw bit pattern of the stored float.
    pub extent: u32,
    /// Whether the level casts shadows.
    pub cast_shadows: bool,
    /// The names of the render sets the level draws.
    pub render_sets: Vec<StringId>,
}

/// A decoded visual.
#[derive(Clone, Debug)]
pub struct VisualPrototype14 {
    /// The skeleton embedded in the record.
    pub skeleton_prototype: SkeletonPrototypeVersion,
    /// The merged geometry this visual draws from.
    pub merged_geometry_path: ResourceId,
    /// Whether the model renders under water.
    pub is_underwater_model: bool,
    /// Whether the model renders above water.
    pub is_abovewater_model: bool,
    /// The bounds of the visual.
    pub bounding_box: BoundingBox,
    /// The render sets, in stored order.
    pub render_sets: Vec<RenderSetPrototypeVersion>,
    /// The levels of detail, in stored order.
    pub lods: Vec<LODPrototypeVersion>,
}

/// Whether a skeleton's three arrays lie inside the data.
pub open spec fn spec_skeleton_wf(d: Seq<u8>, p: int) -> bool {
    let nc = spec_le32_at(d, p) as int;
    &&& p + spec_le64_at(d, p + 24) + 4 * nc <= d.len()
    &&& p + spec_le64_at(d, p + 32) + 64 * nc <= d.len()
    &&& p + spec_le64_at(d, p + 40) + 2 * nc <= d.len()
}

/// Whether `sk` is exactly the skeleton stored at anchor `p`.
pub open spec fn spec_skeleton_matches(d: Seq<u8>, p: int, sk: SkeletonPrototype14) -> bool {
    let nc = spec_le32_at(d, p) as int;
    let names_start = p + spec_le64_at(d, p + 24);
    let mats_start = p + spec_le64_at(d, p + 32);
    let parents_start = p + spec_le64_at(d, p + 40);
    &&& sk.names@.len() == nc
    &&& forall|j: int|
        0 <= j < nc ==> (#[trigger] sk.names@[j]).0 == spec_le32_at(d, names_start + 4 * j)
    &&& sk.matrices@.len() == nc
    &&& forall|j: int|
        0 <= j < nc ==> crate::bin_wrap::spec_components_at(
            (#[trigger] sk.matrices@[j]).bits@,
            d,
            mats_start + 64 * j,
            16,
        )
    &&& sk.parent_ids@.len() == nc
    &&& forall|j: int|
        0 <= j < nc ==> (#[trigger] sk.parent_ids@[j]) == spec_le16_at(d, parents_start + 2 * j)
}

/// Whether a render set's node array lies inside the data.
pub open spec fn spec_render_set_wf(d: Seq<u8>, q: int) -> bool {
    let nc = d[q + 25] as int;
    &&& d[q + 24] <= 1
    &&& q + spec_le64_at(d, q + 32) + 4 * nc <= d.len()
}

/// Whether `rs` is exactly the render set stored at anchor `q`.
pub open spec fn spec_render_set_matches(d: Seq<u8>, q: int, rs: RenderSetPrototype14) -> bool {
    let nc = d[q + 25] as int;
    let nodes_start = q + spec_le64_at(d, q + 32);
    &&& rs.name.0 == spec_le32_at(d, q)
    &&& rs.material_name.0 == spec_le32_at(d, q + 4)
    &&& rs.vertices_name.0 == spec_le32_at(d, q + 8)
    &&& rs.indices_name.0 == spec_le32_at(d, q + 12)
    &&& rs.material_resource.0 == spec_le64_at(d, q + 16)
    &&& (rs.is_skinned <==> d[q + 24] == 1)
    &&& rs.nodes@.len() == nc
    &&& forall|j: int|
        0 <= j < nc ==> (#[trigger] rs.nodes@[j]).0 == spec_le32_at(d, nodes_start + 4 * j)
}

/// Whether a level's render-set name array lies inside the data.
pub open spec fn spec_lod_wf(d: Seq<u8>, q: int) -> bool {
    let nc = spec_le16_at(d, q + 6) as int;
    &&& d[q + 4] <= 1
    &&& q + spec_le64_at(d, q + 8) + 4 * nc <= d.len()
}

/// Whether `lod` is exactly the level stored at anchor `q`.
pub open spec fn spec_lod_matches(d: Seq<u8>, q: int, lod: LODPrototype14) -> bool {
    let nc = spec_le16_at(d, q + 6) as int;
    let rs_start = q + spec_le64_at(d, q + 8);
    &&& lod.extent == spec_le32_at(d, q)
    &&& (lod.cast_shadows <==> d[q + 4] == 1)
    &&& lod.render_sets@.len() == nc
    &&& forall|j: int|
        0 <= j < nc ==> (#[trigger] lod.render_sets@[j]).0 == spec_le32_at(d, rs_start + 4 * j)
}

/// Whether the visual record at `p` and everything it reaches lie inside
/// the data and carry decodable values.
pub open spec fn spec_visual_wf(d: Seq<u8>, p: int) -> bool {
    let rs_count = spec_le16_at(d, p + 58) as int;
    let lod_count = d[p + 60] as int;
    let rs_off = spec_le64_at(d, p + 96) as int;
    let lods_off = spec_le64_at(d, p + 104) as int;
    &&& p + 112 <= d.len()
    &&& d[p + 56] <= 1
    &&& d[p + 57] <= 1
    &&& spec_skeleton_wf(d, p)
    &&& p + lods_off + 16 * lod_count <= d.len()
    &&& p + rs_off + 40 * rs_count <= d.len()
    &&& forall|j: int| 0 <= j < lod_count ==> #[trigger] spec_lod_wf(d, p + lods_off + 16 * j)
    &&& forall|j: int|
        0 <= j < rs_count ==> #[trigger] spec_render_set_wf(d, p + rs_off + 40 * j)
}

/// Whether `v` is exactly the visual record stored at `p`.
pub open spec fn spec_visual_matches(d: Seq<u8>, p: int, v: VisualPrototype14) -> bool {
    let rs_count = spec_le16_at(d, p + 58) as int;
    let lod_count = d[p + 60] as int;
    let rs_start = p + spec_le64_at(d, p + 96);
    let lods_start = p + spec_le64_at(d, p + 104);
    &&& match v.skeleton_prototype {
        SkeletonPrototypeVersion::V14(sk) => spec_skeleton_matches(d, p, sk),
    }
    &&& v.merged_geometry_path.0 == spec_le64_at(d, p + 48)
    &&& (v.is_underwater_model <==> d[p + 56] == 1)
    &&& (v.is_abovewater_model <==> d[p + 57] == 1)
    &&& crate::bin_wrap::spec_components_at(v.bounding_box.min.bits@, d, p + 64, 3)
    &&& crate::bin_wrap::spec_components_at(v.bounding_box.max.bits@, d, p + 80, 3)
    &&& v.lods@.len() == lod_count
    &&& forall|j: int|
        0 <= j < lod_count ==> match #[trigger] v.lods@[j] {
            LODPrototypeVersion::V14(lod) => spec_lod_matches(d, lods_start + 16 * j, lod),
        }
    &&& v.render_sets@.len() == rs_count
    &&& forall|j: int|
        0 <= j < rs_count ==> match #[trigger] v.render_sets@[j] {
            RenderSetPrototypeVersion::V14(rs) => spec_render_set_matches(
                d,
                rs_start + 40 * j,
                rs,
            ),
        }
}

impl SkeletonPrototype14 {
    /// Decode the skeleton from its header: the three parallel arrays at
    /// their anchored offsets.
    pub fn new(data: &[u8], header: &SkeletonPrototypeHeader14) -> (r: AkizukiResult<
        SkeletonPrototype14,
    >)
        requires
            header.node_count == spec_le32_at(data@, header.relative_position as int),
            header.name_ids_offset == spec_le64_at(data@, header.relative_position as int + 24),
            header.matrices_offset == spec_le64_at(data@, header.relative_position as int + 32),
            header.parent_ids_offset == spec_le64_at(data@, header.relative_position as int + 40),
        ensures
            spec_skeleton_wf(data@, header.relative_position as int) ==> r is Ok,
            match r {
                Ok(sk) => spec_skeleton_matches(data@, header.relative_position as int, sk),
                Err(e) => e == AkizukiError::Io,
            },
    {
        let len = data.len();
        let names_start = abs_offset(header.relative_position, header.name_ids_offset)?;
        let names = read_string_id_array(data, names_start, header.node_count as usize)?;
        let mats_start = abs_offset(header.relative_position, header.matrices_offset)?;
        let matrices = read_mat4_array(data, mats_start, header.node_count as usize)?;
        let parents_start = abs_offset(header.relative_position, header.parent_ids_offset)?;
        let parent_ids = read_u16_array(data, parents_start, header.node_count as usize)?;
        Ok(SkeletonPrototype14 { names, matrices, parent_ids })
    }
}

impl RenderSetPrototype14 {
    /// Decode one render set from its header: the node array at its
    /// anchored offset.
    pub fn new(data: &[u8], header: &RenderSetPrototypeHeader14) -> (r: AkizukiResult<
        RenderSetPrototype14,
    >)
        requires
            header.name.0 == spec_le32_at(data@, header.relative_position as int),
            header.material_name.0 == spec_le32_at(data@, header.relative_position as int + 4),
            header.vertices_name.0 == spec_le32_at(data@, header.relative_position as int + 8),
            header.indices_name.0 == spec_le32_at(data@, header.relative_position as int + 12),
            header.material_resource.0 == spec_le64_at(
                data@,
                header.relative_position as int + 16,
            ),
            data@[header.relative_position as int + 24] <= 1,
            header.is_skinned is True <==> data@[header.relative_position as int + 24] == 1,
            header.node_count == data@[header.relative_position as int + 25],
            header.node_offset == spec_le64_at(data@, header.relative_position as int + 32),
        ensures
            spec_render_set_wf(data@, header.relative_position as int) ==> r is Ok,
            match r {
                Ok(rs) => spec_render_set_matches(data@, header.relative_position as int, rs),
                Err(e) => e == AkizukiError::Io,
            },
    {
        let len = data.len();
        let nodes_start = abs_offset(header.relative_position, header.node_offset)?;
        let nodes = read_string_id_array(data, nodes_start, header.node_count as usize)?;
        Ok(
            RenderSetPrototype14 {
                name: header.name,
                material_name: header.material_name,
                vertices_name: header.vertices_name,
                indices_name: header.indices_name,
                material_resource: header.material_resource,
                is_skinned: header.is_skinned.to_bool(),
                nodes,
            },
        )
    }
}

impl LODPrototype14 {
    /// Decode one level of detail from its header: the render-set name
    /// array at its anchored offset.
    pub fn new(data: &[u8], header: &LODPrototypeHeader14) -> (r: AkizukiResult<LODPrototype14>)
        requires
            header.extent == spec_le32_at(data@, header.relative_position as int),
            data@[header.relative_position as int + 4] <= 1,
            header.cast_shadows is True <==> data@[header.relative_position as int + 4] == 1,
            header.render_set_count == spec_le16_at(data@, header.relative_position as int + 6),
            header.render_set_offset == spec_le64_at(data@, header.relative_position as int + 8),
        ensures
            spec_lod_wf(data@, header.relative_position as int) ==> r is Ok,
            match r {
                Ok(lod) => spec_lod_matches(data@, header.relative_position as int, lod),
                Err(e) => e == AkizukiError::Io,
            },
    {
        let len = data.len();
        let rs_start = abs_offset(header.relative_position, header.render_set_offset)?;
        let render_sets = read_string_id_array(data, rs_start, header.render_set_count as usize)?;
        Ok(
            LODPrototype14 {
                extent: header.extent,
                cast_shadows: header.cast_shadows.to_bool(),
                render_sets,
            },
        )
    }
}

impl VisualPrototype14 {
    /// Decode one visual record at the cursor: the fixed header with its
    /// embedded skeleton, then the level-of-detail and render-set arrays
    /// at their anchored offsets; the cursor ends just past the fixed
    /// header, where the next record begins.
    pub fn new(data: &[u8], pos: &mut usize) -> (r: AkizukiResult<VisualPrototype14>)
        ensures
            spec_visual_wf(data@, *old(pos) as int) ==> r is Ok,
            match r {
                Ok(v) => {
                    &&& spec_visual_matches(data@, *old(pos) as int, v)
                    &&& *final(pos) == *old(pos) + 112
                },
                Err(e) => e == AkizukiError::Io,
            },
    {
        let len = data.len();
        let header = VisualPrototypeHeader14::read(data, pos)?;

        let ghost d = data@;
        let ghost p = header.relative_position as int;

        let skeleton = SkeletonPrototype14::new(data, &header.skeleton_prototype)?;

        let lods_start = abs_offset(header.relative_position, header.lods_offset)?;
        let lod_count = header.lod_count as usize;
        if (len as u64) < 16 * (lod_count as u64) || lods_start > len as u64 - 16 * (
        lod_count as u64) {
            return Err(AkizukiError::Io);
        }

        let rs_start = abs_offset(header.relative_position, header.render_sets_offset)?;
        let rs_count = header.render_sets_count as usize;
        if (len as u64) < 40 * (rs_count as u64) || rs_start > len as u64 - 40 * (
        rs_count as u64) {
            return Err(AkizukiError::Io);
        }

        let mut lods: Vec<LODPrototypeVersion> = Vec::new();
        let mut i: usize = 0;
        while i < lod_count
            invariant
                i <= lod_count,
                d == data@,
                p == *old(pos) as int,
                d.len() <= usize::MAX,
                lods_start + 16 * lod_count <= d.len(),
                spec_visual_wf(d, p) ==> forall|j: int|
                    0 <= j < lod_count ==> #[trigger] spec_lod_wf(d, lods_start + 16 * j),
                lods@.len() == i,
                forall|j: int|
                    0 <= j < i ==> match #[trigger] lods@[j] {
                        LODPrototypeVersion::V14(lod) => spec_lod_matches(
                            d,
                            lods_start + 16 * j,
                            lod,
                        ),
                    },
            decreases lod_count - i,
        {
            let mut hp: usize = (lods_start as usize) + 16 * i;
            let lod_header = match LODPrototypeHeader14::read(data, &mut hp) {
                Ok(h) => h,
                Err(e) => {
                    proof {
                        if spec_visual_wf(d, p) {
                            assert(spec_lod_wf(d, lods_start + 16 * (i as int)));
                        }
                    }
                    return Err(e);
                },
            };
            let lod = match LODPrototype14::new(data, &lod_header) {
                Ok(lod) => lod,
                Err(e) => {
                    proof {
                        if spec_visual_wf(d, p) {
                            assert(spec_lod_wf(d, lods_start + 16 * (i as int)));
                        }
                    }
                    return Err(e);
                },
            };
            lods.push(LODPrototypeVersion::V14(lod));
            i = i + 1;
        }

        let mut render_sets: Vec<RenderSetPrototypeVersion> = Vec::new();
        let mut i: usize = 0;
        while i < rs_count
            invariant
                i <= rs_count,
                d == data@,
                p == *old(pos) as int,
                d.len() <= usize::MAX,
                rs_start + 40 * rs_count <= d.len(),
                spec_visual_wf(d, p) ==> forall|j: int|
                    0 <= j < rs_count ==> #[trigger] spec_render_set_wf(d, rs_start + 40 * j),
                render_sets@.len() == i,
                forall|j: int|
                    0 <= j < i ==> match #[trigger] render_sets@[j] {
                        RenderSetPrototypeVersion::V14(rs) => spec_render_set_matches(
                            d,
                            rs_start + 40 * j,
                            rs,
                        ),
                    },
            decreases rs_count - i,
        {
            let mut hp: usize = (rs_start as usize) + 40 * i;
            let rs_header = match RenderSetPrototypeHeader14::read(data, &mut hp) {
                Ok(h) => h,
                Err(e) => {
                    proof {
                        if spec_visual_wf(d, p) {
                            assert(spec_render_set_wf(d, rs_start + 40 * (i as int)));
                        }
                    }
                    return Err(e);
                },
            };
            let rs = match RenderSetPrototype14::new(data, &rs_header) {
                Ok(rs) => rs,
                Err(e) => {
                    proof {
                        if spec_visual_wf(d, p) {
                            assert(spec_render_set_wf(d, rs_start + 40 * (i as int)));
                        }
                    }
                    return Err(e);
                },
            };
            render_sets.push(RenderSetPrototypeVersion::V14(rs));
            i = i + 1;
        }

        *pos = header.end_position as usize;

        Ok(
            VisualPrototype14 {
                skeleton_prototype: SkeletonPrototypeVersion::V14(skeleton),
                merged_geometry_path: header.merged_geometry_path,
                is_underwater_model: header.is_underwater_model.to_bool(),
                is_abovewater_model: header.is_abovewater_model.to_bool(),
                bounding_box: header.bounding_box,
                render_sets,
                lods,
            },
        )
    }
}

} // verus!
