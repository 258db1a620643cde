//! Enumerations shared by the typed record tables.

use vstd::prelude::*;

verus! {

use crate::error::AkizukiError;
use crate::error::AkizukiResult;

/// The role a model plays in the scene, stored as one byte.
#[derive(Clone, Copy, PartialEq, Eq, Structural, Debug, Hash)]
pub enum ModelMiscType {
    /// A load-bearing part of the scene.
    Structure,
    /// A part that must be present.
    Necessary,
    /// A part that may be dropped.
    Optional,
    /// A duplicate part.
    Redundant,
    /// No role recorded.
    Undefined,
}

impl ModelMiscType {
    /// Which role a stored byte denotes, if any.
    pub open spec fn spec_from_byte(b: u8) -> Option<ModelMiscType> {
        if b == 0 {
            Some(ModelMiscType::Structure)
        } else if b == 1 {
            Some(ModelMiscType::Necessary)
        } else if b == 2 {
            Some(ModelMiscType::Optional)
        } else if b == 3 {
            Some(ModelMiscType::Redundant)
        } else if b == 4 {
            Some(ModelMiscType::Undefined)
        } else {
            None
        }
    }

    /// Read one byte and advance; a value past the last role is malformed.
    pub fn read(data: &[u8], pos: &mut usize) -> (r: AkizukiResult<ModelMiscType>)
        ensures
            match r {
                Ok(m) => {
                    &&& *old(pos) + 1 <= data@.len()
                    &&& *final(pos) == *old(pos) + 1
                    &&& Some(m) == Self::spec_from_byte(data@[*old(pos) as int])
                },
                Err(e) => e == AkizukiError::Io && (*old(pos) + 1 > data@.len()
                    || Self::spec_from_byte(data@[*old(pos) as int]) is None),
            },
    {
        if *pos >= data.len() {
            return Err(AkizukiError::Io);
        }
        let b = data[*pos];
        let m = if b == 0 {
            ModelMiscType::Structure
        } else if b == 1 {
            ModelMiscType::Necessary
        } else if b == 2 {
            ModelMiscType::Optional
        } else if b == 3 {
            ModelMiscType::Redundant
        } else if b == 4 {
            ModelMiscType::Undefined
        } else {
            return Err(AkizukiError::Io);
        };
        *pos = *pos + 1;
        Ok(m)
    }
}

} // verus!
