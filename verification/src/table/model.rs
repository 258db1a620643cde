//! The model table: version dispatch and the version-spanning accessors.

use vstd::prelude::*;

verus! {

use std::collections::HashMap;
use crate::error::AkizukiError;
use crate::error::AkizukiResult;
use crate::format::bigworld_data::BigWorldTableHeader;
use crate::format::bigworld_table::ModelMiscType;
use crate::identifiers::ResourceId;
use crate::identifiers::StringId;
use crate::table::v14::model::DyePrototype14;
use crate::table::v14::model::ModelPrototype14;
use crate::table::v14::model::spec_model_matches;
use crate::table::v14::model::spec_model_wf;

/// The hashed name of the model table, `mmh3_32("ModelPrototype")`.
pub const MODEL_PROTOTYPE_ID: u32 = 0xa957_6f28;

/// The version tag of generation-14 model records.
pub const MODEL_PROTOTYPE_V14: u32 = 0xd6b1_1569;

/// A model record of any supported generation.
#[derive(Clone, Debug)]
pub enum ModelPrototypeVersion {
    /// A generation-14 record.
    V14(ModelPrototype14),
}

/// A dye of any supported generation.
#[derive(Clone, Debug)]
pub enum DyePrototypeVersion {
    /// A generation-14 dye.
    V14(DyePrototype14),
}

impl ModelPrototypeVersion {
    /// Whether this table header names a model generation this decoder
    /// reads.
    pub fn is_supported(header: &BigWorldTableHeader) -> (r: bool)
        ensures
            r == (header.id.0 == MODEL_PROTOTYPE_ID && header.version == MODEL_PROTOTYPE_V14),
    {
        header.id.0 == MODEL_PROTOTYPE_ID && header.version == MODEL_PROTOTYPE_V14
    }

    /// Decode one record of the generation the header names: a table
    /// with another identifier is unsupported, a known identifier with
    /// an unknown version is an unsupported version.
    pub fn new(data: &[u8], pos: &mut usize, header: &BigWorldTableHeader) -> (r: AkizukiResult<
        ModelPrototypeVersion,
    >)
        ensures
            header.id.0 == MODEL_PROTOTYPE_ID && header.version == MODEL_PROTOTYPE_V14
                && spec_model_wf(data@, *old(pos) as int) ==> r is Ok,
            match r {
                Ok(m) => {
                    &&& header.id.0 == MODEL_PROTOTYPE_ID
                    &&& header.version == MODEL_PROTOTYPE_V14
                    &&& match m {
                        ModelPrototypeVersion::V14(rec) => spec_model_matches(
                            data@,
                            *old(pos) as int,
                            rec,
                        ),
                    }
                    &&& *final(pos) == *old(pos) + 32
                },
                Err(e) => {
                    ||| (e == AkizukiError::UnsupportedTable(header.id) && header.id.0
                        != MODEL_PROTOTYPE_ID)
                    ||| (e == AkizukiError::UnsupportedTableVersion(header.id, header.version)
                        && header.id.0 == MODEL_PROTOTYPE_ID && header.version
                        != MODEL_PROTOTYPE_V14)
                    ||| e == AkizukiError::Io
                },
            },
    {
        if header.id.0 != MODEL_PROTOTYPE_ID {
            return Err(AkizukiError::UnsupportedTable(header.id));
        }
        if header.version == MODEL_PROTOTYPE_V14 {
            return Ok(ModelPrototypeVersion::V14(ModelPrototype14::new(data, pos)?));
        }
        Err(AkizukiError::UnsupportedTableVersion(header.id, header.version))
    }

    /// The visual this model renders with.
    pub fn visual_resource(&self) -> (r: ResourceId)
        ensures
            r == match self {
                ModelPrototypeVersion::V14(m) => m.visual_resource,
            },
    {
        match self {
            ModelPrototypeVersion::V14(m) => m.visual_resource,
        }
    }

    /// The role the model plays.
    pub fn misc_type(&self) -> (r: ModelMiscType)
        ensures
            r == match self {
                ModelPrototypeVersion::V14(m) => m.misc_type,
            },
    {
        match self {
            ModelPrototypeVersion::V14(m) => m.misc_type,
        }
    }

    /// The animations the model references.
    pub fn animations(&self) -> (r: &Vec<ResourceId>)
        ensures
            r == match self {
                ModelPrototypeVersion::V14(m) => &m.animations,
            },
    {
        match self {
            ModelPrototypeVersion::V14(m) => &m.animations,
        }
    }

    /// The dyes the model carries.
    pub fn dyes(&self) -> (r: &Vec<DyePrototypeVersion>)
        ensures
            r == match self {
                ModelPrototypeVersion::V14(m) => &m.dyes,
            },
    {
        match self {
            ModelPrototypeVersion::V14(m) => &m.dyes,
        }
    }
}

impl DyePrototypeVersion {
    /// The matter this dye applies to.
    pub fn matter(&self) -> (r: StringId)
        ensures
            r == match self {
                DyePrototypeVersion::V14(d) => d.matter,
            },
    {
        match self {
            DyePrototypeVersion::V14(d) => d.matter,
        }
    }

    /// The slot the dye replaces.
    pub fn replaces(&self) -> (r: StringId)
        ensures
            r == match self {
                DyePrototypeVersion::V14(d) => d.replaces,
            },
    {
        match self {
            DyePrototypeVersion::V14(d) => d.replaces,
        }
    }

    /// Tint name to tint material.
    pub fn tints(&self) -> (r: &HashMap<u32, ResourceId>)
        ensures
            r == match self {
                DyePrototypeVersion::V14(d) => &d.tints,
            },
    {
        match self {
            DyePrototypeVersion::V14(d) => &d.tints,
        }
    }
}

} // verus!
