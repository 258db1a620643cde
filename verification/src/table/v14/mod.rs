//! Generation-14 record layouts.

pub mod material;
pub mod model;
pub mod visual;
