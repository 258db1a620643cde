//! Decoder stack for a sharded game-asset distribution: a package file
//! system described by `.idx` manifests, and an embedded metadata database
//! holding interned names, a prototype lookup and versioned record tables.

pub mod bigworld;
pub mod bin_wrap;
pub mod error;
pub mod format;
pub mod identifiers;
pub mod manager;
pub mod mmh3;
pub mod names;
pub mod pfs;
pub mod reader;
pub mod table;
