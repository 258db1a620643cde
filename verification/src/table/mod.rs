//! The typed record tables and their version dispatch.

pub mod material;
pub mod model;
pub mod visual;
pub mod v14;

use vstd::prelude::*;

verus! {

/// One decoded record of any table kind.
#[derive(Clone, Debug)]
pub enum BigWorldTableRecord {
    /// A visual record.
    VisualPrototype(visual::VisualPrototypeVersion),
    /// A stand-alone skeleton record.
    SkeletonPrototype(visual::SkeletonPrototypeVersion),
    /// A model record.
    ModelPrototype(model::ModelPrototypeVersion),
    /// A material record.
    MaterialPrototype(material::MaterialPrototypeVersion),
}

} // verus!
