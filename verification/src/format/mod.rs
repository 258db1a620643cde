//! Wire-format records: the framed file header, the database section
//! descriptors, the package index records and the block-stream header.

pub mod bigworld;
pub mod bigworld_data;
pub mod oodle;
pub mod bigworld_table;
pub mod pfs;
