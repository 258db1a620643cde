//! The material table: version dispatch and the version-spanning
//! accessors.

use vstd::prelude::*;

verus! {

use std::collections::HashMap;
use crate::bin_wrap::Mat4;
use crate::bin_wrap::Vec2;
use crate::bin_wrap::Vec3;
use crate::bin_wrap::Vec4;
use crate::error::AkizukiError;
use crate::error::AkizukiResult;
use crate::format::bigworld_data::BigWorldTableHeader;
use crate::identifiers::ResourceId;
use crate::identifiers::StringId;
use crate::table::v14::material::MaterialPrototype14;
use crate::table::v14::material::spec_material_matches;
use crate::table::v14::material::spec_material_props_ok;
use crate::table::v14::material::spec_material_wf;

/// The hashed name of the material table, `mmh3_32("MaterialPrototype")`.
pub const MATERIAL_PROTOTYPE_ID: u32 = 0x5069_c471;

/// The version tag of generation-14 material records.
pub const MATERIAL_PROTOTYPE_V14: u32 = 0xd6b1_1569;

/// A material record of any supported generation.
#[derive(Clone, Debug)]
pub enum MaterialPrototypeVersion {
    /// A generation-14 record.
    V14(MaterialPrototype14),
}

impl MaterialPrototypeVersion {
    /// Whether this table header names a material generation this
    /// decoder reads.
    pub fn is_supported(header: &BigWorldTableHeader) -> (r: bool)
        ensures
            r == (header.id.0 == MATERIAL_PROTOTYPE_ID && header.version
                == MATERIAL_PROTOTYPE_V14),
    {
        header.id.0 == MATERIAL_PROTOTYPE_ID && header.version == MATERIAL_PROTOTYPE_V14
    }

    /// Decode one record of the generation the header names: a table
    /// with another identifier is unsupported, a known identifier with
    /// an unknown version is an unsupported version.
    pub fn new(data: &[u8], pos: &mut usize, header: &BigWorldTableHeader) -> (r: AkizukiResult<
        MaterialPrototypeVersion,
    >)
        requires
            header.id.0 == MATERIAL_PROTOTYPE_ID && header.version == MATERIAL_PROTOTYPE_V14
                ==> spec_material_props_ok(data@, *old(pos) as int),
        ensures
            header.id.0 == MATERIAL_PROTOTYPE_ID && header.version == MATERIAL_PROTOTYPE_V14
                && spec_material_wf(data@, *old(pos) as int) ==> r is Ok,
            match r {
                Ok(m) => {
                    &&& header.id.0 == MATERIAL_PROTOTYPE_ID
                    &&& header.version == MATERIAL_PROTOTYPE_V14
                    &&& match m {
                        MaterialPrototypeVersion::V14(rec) => spec_material_matches(
                            data@,
                            *old(pos) as int,
                            rec,
                        ),
                    }
                    &&& *final(pos) == *old(pos) + 120
                },
                Err(e) => {
                    ||| (e == AkizukiError::UnsupportedTable(header.id) && header.id.0
                        != MATERIAL_PROTOTYPE_ID)
                    ||| (e == AkizukiError::UnsupportedTableVersion(header.id, header.version)
                        && header.id.0 == MATERIAL_PROTOTYPE_ID && header.version
                        != MATERIAL_PROTOTYPE_V14)
                    ||| e == AkizukiError::Io
                },
            },
    {
        if header.id.0 != MATERIAL_PROTOTYPE_ID {
            return Err(AkizukiError::UnsupportedTable(header.id));
        }
        if header.version == MATERIAL_PROTOTYPE_V14 {
            return Ok(MaterialPrototypeVersion::V14(MaterialPrototype14::new(data, pos)?));
        }
        Err(AkizukiError::UnsupportedTableVersion(header.id, header.version))
    }

    /// Boolean properties.
    pub fn bools(&self) -> (r: &HashMap<u32, bool>)
        ensures
            r == match self {
                MaterialPrototypeVersion::V14(m) => &m.bools,
            },
    {
        match self {
            MaterialPrototypeVersion::V14(m) => &m.bools,
        }
    }

    /// Signed properties.
    pub fn ints(&self) -> (r: &HashMap<u32, i32>)
        ensures
            r == match self {
                MaterialPrototypeVersion::V14(m) => &m.ints,
            },
    {
        match self {
            MaterialPrototypeVersion::V14(m) => &m.ints,
        }
    }

    /// Unsigned properties.
    pub fn uints(&self) -> (r: &HashMap<u32, u32>)
        ensures
            r == match self {
                MaterialPrototypeVersion::V14(m) => &m.uints,
            },
    {
        match self {
            MaterialPrototypeVersion::V14(m) => &m.uints,
        }
    }

    /// Float properties, as stored bit patterns.
    pub fn floats(&self) -> (r: &HashMap<u32, u32>)
        ensures
            r == match self {
                MaterialPrototypeVersion::V14(m) => &m.floats,
            },
    {
        match self {
            MaterialPrototypeVersion::V14(m) => &m.floats,
        }
    }

    /// Texture properties.
    pub fn textures(&self) -> (r: &HashMap<u32, ResourceId>)
        ensures
            r == match self {
                MaterialPrototypeVersion::V14(m) => &m.textures,
            },
    {
        match self {
            MaterialPrototypeVersion::V14(m) => &m.textures,
        }
    }

    /// Two-component properties, in stored order.
    pub fn vector2s(&self) -> (r: &Vec<(StringId, Vec2)>)
        ensures
            r == match self {
                MaterialPrototypeVersion::V14(m) => &m.vector2s,
            },
    {
        match self {
            MaterialPrototypeVersion::V14(m) => &m.vector2s,
        }
    }

    /// Three-component properties, in stored order.
    pub fn vector3s(&self) -> (r: &Vec<(StringId, Vec3)>)
        ensures
            r == match self {
                MaterialPrototypeVersion::V14(m) => &m.vector3s,
            },
    {
        match self {
            MaterialPrototypeVersion::V14(m) => &m.vector3s,
        }
    }

    /// Four-component properties, in stored order.
    pub fn vector4s(&self) -> (r: &Vec<(StringId, Vec4)>)
        ensures
            r == match self {
                MaterialPrototypeVersion::V14(m) => &m.vector4s,
            },
    {
        match self {
            MaterialPrototypeVersion::V14(m) => &m.vector4s,
        }
    }

    /// Matrix properties, in stored order.
    pub fn matrices(&self) -> (r: &Vec<(StringId, Mat4)>)
        ensures
            r == match self {
                MaterialPrototypeVersion::V14(m) => &m.matrices,
            },
    {
        match self {
            MaterialPrototypeVersion::V14(m) => &m.matrices,
        }
    }

    /// The effect the material renders with.
    pub fn fx_path(&self) -> (r: ResourceId)
        ensures
            r == match self {
                MaterialPrototypeVersion::V14(m) => m.fx_path,
            },
    {
        match self {
            MaterialPrototypeVersion::V14(m) => m.fx_path,
        }
    }

    /// Collision bits.
    pub fn collision_flags(&self) -> (r: u32)
        ensures
            r == match self {
                MaterialPrototypeVersion::V14(m) => m.collision_flags,
            },
    {
        match self {
            MaterialPrototypeVersion::V14(m) => m.collision_flags,
        }
    }

    /// Draw order.
    pub fn sort_order(&self) -> (r: i32)
        ensures
            r == match self {
                MaterialPrototypeVersion::V14(m) => m.sort_order,
            },
    {
        match self {
            MaterialPrototypeVersion::V14(m) => m.sort_order,
        }
    }
}

} // verus!
