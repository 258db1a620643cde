//! The visual table: version dispatch and the version-spanning accessors.

use vstd::prelude::*;

verus! {

use crate::bin_wrap::BoundingBox;
use crate::bin_wrap::Mat4;
use crate::error::AkizukiError;
use crate::error::AkizukiResult;
use crate::format::bigworld_data::BigWorldTableHeader;
use crate::identifiers::ResourceId;
use crate::identifiers::StringId;
use crate::table::v14::visual::LODPrototype14;
use crate::table::v14::visual::RenderSetPrototype14;
use crate::table::v14::visual::SkeletonPrototype14;
use crate::table::v14::visual::VisualPrototype14;
use crate::table::v14::visual::spec_visual_matches;
use crate::table::v14::visual::spec_visual_wf;

/// The hashed name of the visual table, `mmh3_32("VisualPrototype")`.
pub const VISUAL_PROTOTYPE_ID: u32 = 0x480d_c57b;

/// The version tag of generation-14 visual records.
pub const VISUAL_PROTOTYPE_V14: u32 = 0x3167_064b;

/// A visual record of any supported generation.
#[derive(Clone, Debug)]
pub enum VisualPrototypeVersion {
    /// A generation-14 record.
    V14(VisualPrototype14),
}

/// A skeleton of any supported generation.
#[derive(Clone, Debug)]
pub enum SkeletonPrototypeVersion {
    /// A generation-14 skeleton.
    V14(SkeletonPrototype14),
}

/// A render set of any supported generation.
#[derive(Clone, Debug)]
pub enum RenderSetPrototypeVersion {
    /// A generation-14 render set.
    V14(RenderSetPrototype14),
}

/// A level of detail of any supported generation.
#[derive(Clone, Debug)]
pub enum LODPrototypeVersion {
    /// A generation-14 level of detail.
    V14(LODPrototype14),
}

impl VisualPrototypeVersion {
    /// Whether this table header names a visual generation this decoder
    /// reads.
    pub fn is_supported(header: &BigWorldTableHeader) -> (r: bool)
        ensures
            r == (header.id.0 == VISUAL_PROTOTYPE_ID && header.version == VISUAL_PROTOTYPE_V14),
    {
        header.id.0 == VISUAL_PROTOTYPE_ID && header.version == VISUAL_PROTOTYPE_V14
    }

    /// Decode one record of the generation the header names: a table
    /// with another identifier is unsupported, a known identifier with
    /// an unknown version is an unsupported version.
    pub fn new(data: &[u8], pos: &mut usize, header: &BigWorldTableHeader) -> (r: AkizukiResult<
        VisualPrototypeVersion,
    >)
        ensures
            header.id.0 == VISUAL_PROTOTYPE_ID && header.version == VISUAL_PROTOTYPE_V14
                && spec_visual_wf(data@, *old(pos) as int) ==> r is Ok,
            match r {
                Ok(v) => {
                    &&& header.id.0 == VISUAL_PROTOTYPE_ID
                    &&& header.version == VISUAL_PROTOTYPE_V14
                    &&& match v {
                        VisualPrototypeVersion::V14(rec) => spec_visual_matches(
                            data@,
                            *old(pos) as int,
                            rec,
                        ),
                    }
                    &&& *final(pos) == *old(pos) + 112
                },
                Err(e) => {
                    ||| (e == AkizukiError::UnsupportedTable(header.id) && header.id.0
                        != VISUAL_PROTOTYPE_ID)
                    ||| (e == AkizukiError::UnsupportedTableVersion(header.id, header.version)
                        && header.id.0 == VISUAL_PROTOTYPE_ID && header.version
                        != VISUAL_PROTOTYPE_V14)
                    ||| e == AkizukiError::Io
                },
            },
    {
        if header.id.0 != VISUAL_PROTOTYPE_ID {
            return Err(AkizukiError::UnsupportedTable(header.id));
        }
        if header.version == VISUAL_PROTOTYPE_V14 {
            return Ok(VisualPrototypeVersion::V14(VisualPrototype14::new(data, pos)?));
        }
        Err(AkizukiError::UnsupportedTableVersion(header.id, header.version))
    }

    /// The skeleton embedded in the record.
    pub fn skeleton_prototype(&self) -> (r: &SkeletonPrototypeVersion)
        ensures
            r == match self {
                VisualPrototypeVersion::V14(v) => &v.skeleton_prototype,
            },
    {
        match self {
            VisualPrototypeVersion::V14(v) => &v.skeleton_prototype,
        }
    }

    /// The merged geometry this visual draws from.
    pub fn merged_geometry_path(&self) -> (r: ResourceId)
        ensures
            r == match self {
                VisualPrototypeVersion::V14(v) => v.merged_geometry_path,
            },
    {
        match self {
            VisualPrototypeVersion::V14(v) => v.merged_geometry_path,
        }
    }

    /// Whether the model renders under water.
    pub fn is_underwater_model(&self) -> (r: bool)
        ensures
            r == match self {
                VisualPrototypeVersion::V14(v) => v.is_underwater_model,
            },
    {
        match self {
            VisualPrototypeVersion::V14(v) => v.is_underwater_model,
        }
    }

    /// Whether the model renders above water.
    pub fn is_abovewater_model(&self) -> (r: bool)
        ensures
            r == match self {
                VisualPrototypeVersion::V14(v) => v.is_abovewater_model,
            },
    {
        match self {
            VisualPrototypeVersion::V14(v) => v.is_abovewater_model,
        }
    }

    /// The bounds of the visual.
    pub fn bounding_box(&self) -> (r: &BoundingBox)
        ensures
            r == match self {
                VisualPrototypeVersion::V14(v) => &v.bounding_box,
            },
    {
        match self {
            VisualPrototypeVersion::V14(v) => &v.bounding_box,
        }
    }

    /// The render sets, in stored order.
    pub fn render_sets(&self) -> (r: &Vec<RenderSetPrototypeVersion>)
        ensures
            r == match self {
                VisualPrototypeVersion::V14(v) => &v.render_sets,
            },
    {
        match self {
            VisualPrototypeVersion::V14(v) => &v.render_sets,
        }
    }

    /// The levels of detail, in stored order.
    pub fn lods(&self) -> (r: &Vec<LODPrototypeVersion>)
        ensures
            r == match self {
                VisualPrototypeVersion::V14(v) => &v.lods,
            },
    {
        match self {
            VisualPrototypeVersion::V14(v) => &v.lods,
        }
    }
}

impl SkeletonPrototypeVersion {
    /// The name of each node.
    pub fn names(&self) -> (r: &Vec<StringId>)
        ensures
            r == match self {
                SkeletonPrototypeVersion::V14(s) => &s.names,
            },
    {
        match self {
            SkeletonPrototypeVersion::V14(s) => &s.names,
        }
    }

    /// The rest transform of each node.
    pub fn matrices(&self) -> (r: &Vec<Mat4>)
        ensures
            r == match self {
                SkeletonPrototypeVersion::V14(s) => &s.matrices,
            },
    {
        match self {
            SkeletonPrototypeVersion::V14(s) => &s.matrices,
        }
    }

    /// The parent slot of each node.
    pub fn parent_ids(&self) -> (r: &Vec<u16>)
        ensures
            r == match self {
                SkeletonPrototypeVersion::V14(s) => &s.parent_ids,
            },
    {
        match self {
            SkeletonPrototypeVersion::V14(s) => &s.parent_ids,
        }
    }
}

impl RenderSetPrototypeVersion {
    /// The render set's own name.
    pub fn name(&self) -> (r: StringId)
        ensures
            r == match self {
                RenderSetPrototypeVersion::V14(s) => s.name,
            },
    {
        match self {
            RenderSetPrototypeVersion::V14(s) => s.name,
        }
    }

    /// The material the set renders with.
    pub fn material_name(&self) -> (r: StringId)
        ensures
            r == match self {
                RenderSetPrototypeVersion::V14(s) => s.material_name,
            },
    {
        match self {
            RenderSetPrototypeVersion::V14(s) => s.material_name,
        }
    }

    /// The vertex buffer the set uses.
    pub fn vertices_name(&self) -> (r: StringId)
        ensures
            r == match self {
                RenderSetPrototypeVersion::V14(s) => s.vertices_name,
            },
    {
        match self {
            RenderSetPrototypeVersion::V14(s) => s.vertices_name,
        }
    }

    /// The index buffer the set uses.
    pub fn indices_name(&self) -> (r: StringId)
        ensures
            r == match self {
                RenderSetPrototypeVersion::V14(s) => s.indices_name,
            },
    {
        match self {
            RenderSetPrototypeVersion::V14(s) => s.indices_name,
        }
    }

    /// The material resource the set references.
    pub fn material_resource(&self) -> (r: ResourceId)
        ensures
            r == match self {
                RenderSetPrototypeVersion::V14(s) => s.material_resource,
            },
    {
        match self {
            RenderSetPrototypeVersion::V14(s) => s.material_resource,
        }
    }

    /// Whether the set is skinned to the skeleton.
    pub fn is_skinned(&self) -> (r: bool)
        ensures
            r == match self {
                RenderSetPrototypeVersion::V14(s) => s.is_skinned,
            },
    {
        match self {
            RenderSetPrototypeVersion::V14(s) => s.is_skinned,
        }
    }

    /// The skeleton nodes the set binds.
    pub fn nodes(&self) -> (r: &Vec<StringId>)
        ensures
            r == match self {
                RenderSetPrototypeVersion::V14(s) => &s.nodes,
            },
    {
        match self {
            RenderSetPrototypeVersion::V14(s) => &s.nodes,
        }
    }
}

impl LODPrototypeVersion {
    /// The draw distance, as the raw bit pattern of the stored float.
    pub fn extent(&self) -> (r: u32)
        ensures
            r == match self {
                LODPrototypeVersion::V14(s) => s.extent,
            },
    {
        match self {
            LODPrototypeVersion::V14(s) => s.extent,
        }
    }

    /// Whether the level casts shadows.
    pub fn cast_shadows(&self) -> (r: bool)
        ensures
            r == match self {
                LODPrototypeVersion::V14(s) => s.cast_shadows,
            },
    {
        match self {
            LODPrototypeVersion::V14(s) => s.cast_shadows,
        }
    }

    /// The names of the render sets the level draws.
    pub fn render_sets(&self) -> (r: &Vec<StringId>)
        ensures
            r == match self {
                LODPrototypeVersion::V14(s) => &s.render_sets,
            },
    {
        match self {
            LODPrototypeVersion::V14(s) => &s.render_sets,
        }
    }
}

} // verus!
