use akizuki::bigworld::BigWorldDatabase;
use akizuki::error::{AkizukiError, OodleError};
use akizuki::format::bigworld::{
    BigWorldFileHeader, BigWorldMagic, ASSET_DB_MAGIC, PFS_INDEX_MAGIC,
};
use akizuki::format::pfs::PackageDataStreamHeader;
use akizuki::format::oodle::oodle_block_spans;
use akizuki::identifiers::{ResourceId, ResourceLookup, StringId, StringLookup};
use akizuki::manager::{find_install_version, ResourceManager};
use akizuki::mmh3::mmh3_32;
use akizuki::pfs::PackageFileSystem;
use akizuki::table::model::ModelPrototypeVersion;
use akizuki::table::visual::{VISUAL_PROTOTYPE_ID, VISUAL_PROTOTYPE_V14};
use akizuki::table::BigWorldTableRecord;
use flate2::write::DeflateEncoder;
use flate2::Compression;
use std::io::Write;

fn p8(v: &mut Vec<u8>, x: u8) {
    v.push(x);
}

fn p16(v: &mut Vec<u8>, x: u16) {
    v.extend_from_slice(&x.to_le_bytes());
}

fn p32(v: &mut Vec<u8>, x: u32) {
    v.extend_from_slice(&x.to_le_bytes());
}

fn p64(v: &mut Vec<u8>, x: u64) {
    v.extend_from_slice(&x.to_le_bytes());
}

fn pad(v: &mut Vec<u8>, n: usize) {
    for _ in 0..n {
        v.push(0);
    }
}

/// The framed 16-byte header; the version is stored byte-swapped.
fn framed_header(magic: u32, version: u32, hash: u32, pointer_size: u32) -> Vec<u8> {
    let mut v = Vec::new();
    p32(&mut v, magic);
    p32(&mut v, version.swap_bytes());
    p32(&mut v, hash);
    p32(&mut v, pointer_size);
    v
}

const MODEL_ID: u32 = 0xa9576f28;
const MODEL_V14: u32 = 0xd6b11569;

#[test]
fn test_framed_header_endianness_and_version() {
    // A version that reads higher when swapped comes from the other
    // endianness; an equal-width but wrong version is a version error.
    let data = framed_header(PFS_INDEX_MAGIC, 2, 0, 64);
    let mut pos = 0;
    let header = BigWorldFileHeader::read(&data, &mut pos).unwrap();
    assert!(header
        .is_valid(BigWorldMagic::PFSIndex, 2, false, &data)
        .is_ok());
    assert_eq!(
        header.is_valid(BigWorldMagic::PFSIndex, 3, false, &data),
        Err(AkizukiError::InvalidVersion {
            expected: 3,
            present: 2
        })
    );

    // Stored without swapping, the version reads as swapped-greater.
    let mut wrong = Vec::new();
    p32(&mut wrong, PFS_INDEX_MAGIC);
    p32(&mut wrong, 2);
    p32(&mut wrong, 0);
    p32(&mut wrong, 64);
    let mut pos = 0;
    let header = BigWorldFileHeader::read(&wrong, &mut pos).unwrap();
    assert_eq!(
        header.is_valid(BigWorldMagic::PFSIndex, 2, false, &wrong),
        Err(AkizukiError::InvalidEndianness)
    );
}

#[test]
fn test_framed_header_palindromic_version() {
    // A version whose bytes read the same either way can never fail the
    // endian step; it passes the version step only on exact match.
    let data = framed_header(PFS_INDEX_MAGIC, 0, 0, 64);
    let mut pos = 0;
    let header = BigWorldFileHeader::read(&data, &mut pos).unwrap();
    assert!(header
        .is_valid(BigWorldMagic::PFSIndex, 0, false, &data)
        .is_ok());
    assert_eq!(
        header.is_valid(BigWorldMagic::PFSIndex, 5, false, &data),
        Err(AkizukiError::InvalidVersion {
            expected: 5,
            present: 0
        })
    );
}

#[test]
fn test_framed_header_magic_and_pointer_size() {
    let data = framed_header(ASSET_DB_MAGIC, 2, 0, 64);
    let mut pos = 0;
    let header = BigWorldFileHeader::read(&data, &mut pos).unwrap();
    assert_eq!(
        header.is_valid(BigWorldMagic::PFSIndex, 2, false, &data),
        Err(AkizukiError::InvalidIdentifier)
    );

    let data = framed_header(PFS_INDEX_MAGIC, 2, 0, 32);
    let mut pos = 0;
    let header = BigWorldFileHeader::read(&data, &mut pos).unwrap();
    assert_eq!(
        header.is_valid(BigWorldMagic::PFSIndex, 2, false, &data),
        Err(AkizukiError::InvalidPointerSize)
    );
}

#[test]
fn test_framed_header_checksum() {
    let payload: &[u8] = &[1, 2, 3, 4, 5];
    let mut data = framed_header(PFS_INDEX_MAGIC, 2, mmh3_32(payload), 64);
    data.extend_from_slice(payload);
    let mut pos = 0;
    let header = BigWorldFileHeader::read(&data, &mut pos).unwrap();
    assert!(header
        .is_valid(BigWorldMagic::PFSIndex, 2, true, &data)
        .is_ok());

    let mut bad = framed_header(PFS_INDEX_MAGIC, 2, 1234, 64);
    bad.extend_from_slice(payload);
    let mut pos = 0;
    let header = BigWorldFileHeader::read(&bad, &mut pos).unwrap();
    assert_eq!(
        header.is_valid(BigWorldMagic::PFSIndex, 2, true, &bad),
        Err(AkizukiError::ChecksumMismatch)
    );
}

/// A package index whose framed header declares `htobe32(2)` opens on a
/// little-endian host for expected version 2.
#[test]
fn test_open_minimal_index() {
    let mut idx = framed_header(PFS_INDEX_MAGIC, 2, 0, 64);
    // Section header: no names, no files, no packages.
    p32(&mut idx, 0);
    p32(&mut idx, 0);
    p32(&mut idx, 0);
    pad(&mut idx, 4);
    p64(&mut idx, 0);
    p64(&mut idx, 0);
    p64(&mut idx, 0);

    let mut resources = ResourceLookup::new();
    let pfs = PackageFileSystem::new("test".to_string(), &idx, false, &mut resources).unwrap();
    assert_eq!(pfs.file_ids.len(), 0);
    assert!(pfs.package_names.is_empty());
}

const PKG_ID: u64 = 0x9999;
const FILE_A: u64 = 0x1111;
const FILE_B: u64 = 0x2222;
const FILE_C: u64 = 0x3333;

fn crc32(data: &[u8]) -> u32 {
    crc::Crc::<u32>::new(&crc::CRC_32_ISO_HDLC).checksum(data)
}

/// An index over one blob package holding three stored-as-is files, with
/// a small name forest for two of them.
fn build_test_index(file_entries: &[(u64, u64, u32, u32, u32, u32, u64)]) -> Vec<u8> {
    // entry: (id, offset, ctype, flags, csize, hash, size); package is PKG_ID.
    let nf = file_entries.len();
    let names_at = 56usize;
    let files_at = names_at + 2 * 32;
    let pkgs_at = files_at + nf * 48;
    let pkg_text_at = pkgs_at + 24;
    let name0_text_at = pkg_text_at + 8; // "pkg.bin\0"
    let name1_text_at = name0_text_at + 8; // "content\0"

    let mut idx = framed_header(PFS_INDEX_MAGIC, 2, 0, 64);
    // Section header at 16.
    p32(&mut idx, 2); // name_count
    p32(&mut idx, nf as u32); // file_count
    p32(&mut idx, 1); // pkgs_count
    pad(&mut idx, 4);
    p64(&mut idx, (names_at - 16) as u64);
    p64(&mut idx, (files_at - 16) as u64);
    p64(&mut idx, (pkgs_at - 16) as u64);
    assert_eq!(idx.len(), names_at);

    // Name 0: "content" under no parent; name 1: "a.bin" under "content".
    let dir_id: u64 = 0xD1D1;
    p64(&mut idx, 7); // length
    p64(&mut idx, (name0_text_at - names_at) as u64); // text offset, relative to this record
    p64(&mut idx, dir_id);
    p64(&mut idx, 0); // parent: invalid, chain root
    p64(&mut idx, 5);
    p64(&mut idx, (name1_text_at - (names_at + 32)) as u64);
    p64(&mut idx, FILE_A);
    p64(&mut idx, dir_id);
    assert_eq!(idx.len(), files_at);

    for (id, offset, ctype, flags, csize, hash, size) in file_entries {
        p64(&mut idx, *id);
        p64(&mut idx, PKG_ID);
        p64(&mut idx, *offset);
        p32(&mut idx, *ctype);
        p32(&mut idx, *flags);
        p32(&mut idx, *csize);
        p32(&mut idx, *hash);
        p64(&mut idx, *size);
    }
    assert_eq!(idx.len(), pkgs_at);

    p64(&mut idx, 7); // length
    p64(&mut idx, (pkg_text_at - pkgs_at) as u64);
    p64(&mut idx, PKG_ID);
    assert_eq!(idx.len(), pkg_text_at);
    idx.extend_from_slice(b"pkg.bin\0");
    idx.extend_from_slice(b"content\0");
    idx.extend_from_slice(b"a.bin\0");
    idx
}

#[test]
fn test_pfs_three_stored_files() {
    let a = b"alpha".to_vec();
    let b = b"bravo-data".to_vec();
    let c = b"charlie".to_vec();
    let mut blob = Vec::new();
    let a_off = blob.len() as u64;
    blob.extend_from_slice(&a);
    let b_off = blob.len() as u64;
    blob.extend_from_slice(&b);
    let c_off = blob.len() as u64;
    blob.extend_from_slice(&c);

    let entries = [
        (FILE_A, a_off, 0, 0, a.len() as u32, crc32(&a), a.len() as u64),
        (FILE_B, b_off, 0, 0, b.len() as u32, crc32(&b), b.len() as u64),
        (FILE_C, c_off, 0, 0, c.len() as u32, crc32(&c), c.len() as u64),
    ];
    let idx = build_test_index(&entries);

    let mut resources = ResourceLookup::new();
    let mut pfs =
        PackageFileSystem::new("shard".to_string(), &idx, false, &mut resources).unwrap();
    pfs.add_stream(ResourceId(PKG_ID), blob);

    assert_eq!(pfs.open(&ResourceId(FILE_A), true).unwrap(), a);
    assert_eq!(pfs.open(&ResourceId(FILE_B), true).unwrap(), b);
    assert_eq!(pfs.open(&ResourceId(FILE_C), true).unwrap(), c);
    assert_eq!(
        pfs.open(&ResourceId(0x7777), true),
        Err(AkizukiError::AssetNotFound(ResourceId(0x7777)))
    );

    // The package name was interned, and the file with a name chain got
    // its full path.
    assert_eq!(ResourceId(PKG_ID).text(&resources).unwrap(), "pkg.bin");
    assert_eq!(
        ResourceId(FILE_A).text(&resources).unwrap(),
        "content/a.bin"
    );
    assert!(ResourceId(FILE_B).text(&resources).is_none());
}

#[test]
fn test_pfs_checksum_mismatch() {
    let a = b"alpha".to_vec();
    let entries = [(FILE_A, 0u64, 0, 0, a.len() as u32, 0xdeadbeef, a.len() as u64)];
    let idx = build_test_index(&entries);

    let mut resources = ResourceLookup::new();
    let mut pfs =
        PackageFileSystem::new("shard".to_string(), &idx, false, &mut resources).unwrap();
    pfs.add_stream(ResourceId(PKG_ID), a.clone());
    assert_eq!(
        pfs.open(&ResourceId(FILE_A), true),
        Err(AkizukiError::ChecksumMismatch)
    );
    // Without validation the bytes come back regardless of the stored hash.
    assert_eq!(pfs.open(&ResourceId(FILE_A), false).unwrap(), a);
}

#[test]
fn test_pfs_deflate_file() {
    let plain = b"the quick brown fox jumps over the lazy dog".to_vec();
    let mut enc = DeflateEncoder::new(Vec::new(), Compression::default());
    enc.write_all(&plain).unwrap();
    let packed = enc.finish().unwrap();

    let entries = [(
        FILE_A,
        0u64,
        5,
        1,
        packed.len() as u32,
        crc32(&plain),
        plain.len() as u64,
    )];
    let idx = build_test_index(&entries);

    let mut resources = ResourceLookup::new();
    let mut pfs =
        PackageFileSystem::new("shard".to_string(), &idx, false, &mut resources).unwrap();
    pfs.add_stream(ResourceId(PKG_ID), packed);
    assert_eq!(pfs.open(&ResourceId(FILE_A), true).unwrap(), plain);
}

#[test]
fn test_pfs_deflate_garbage_fails() {
    // A stored block whose length and its complement disagree is
    // malformed.
    let garbage = vec![0x01u8, 0x11, 0x00, 0x12, 0x00];
    let entries = [(FILE_A, 0u64, 5, 1, 5, 0, 64)];
    let idx = build_test_index(&entries);

    let mut resources = ResourceLookup::new();
    let mut pfs =
        PackageFileSystem::new("shard".to_string(), &idx, false, &mut resources).unwrap();
    pfs.add_stream(ResourceId(PKG_ID), garbage);
    assert_eq!(
        pfs.open(&ResourceId(FILE_A), false),
        Err(AkizukiError::Deflate)
    );
}

#[test]
fn test_pfs_oodle_needs_library() {
    let entries = [(FILE_A, 0u64, 6, 1, 4, 0, 4)];
    let idx = build_test_index(&entries);

    let mut resources = ResourceLookup::new();
    let mut pfs =
        PackageFileSystem::new("shard".to_string(), &idx, false, &mut resources).unwrap();
    pfs.add_stream(ResourceId(PKG_ID), vec![0u8; 4]);
    assert_eq!(
        pfs.open(&ResourceId(FILE_A), false),
        Err(AkizukiError::Oodle(OodleError::LibraryUnavailable))
    );
}

#[test]
fn test_pfs_truncated_index() {
    let idx = framed_header(PFS_INDEX_MAGIC, 2, 0, 64);
    let mut resources = ResourceLookup::new();
    assert_eq!(
        PackageFileSystem::new("shard".to_string(), &idx, false, &mut resources).err(),
        Some(AkizukiError::Io)
    );
}

#[test]
fn test_oodle_block_walk_is_total() {
    // Three blocks of 16 output bytes cover a 40-byte stream: 16+16+8.
    let header = PackageDataStreamHeader {
        data_offset: 64,
        relative_position: 8,
        compression_type: 6,
        compression_flags: 1,
        size: 40,
        decompressed_size: 40,
        block_count: 3,
        block_size: 16,
        reserved: 0,
        blocks: vec![10, 12, 7],
    };
    let spans = oodle_block_spans(&header).unwrap();
    assert_eq!(spans.len(), 3);
    // Sources are contiguous and sum to the compressed payload.
    assert_eq!(spans[0].src_start, 72);
    assert_eq!(spans[1].src_start, 82);
    assert_eq!(spans[2].src_start, 94);
    assert_eq!(spans.iter().map(|s| s.src_len).sum::<u64>(), 29);
    // Outputs are chunk-sized with the remainder last and sum to the size.
    assert_eq!(spans[0].dst_len, 16);
    assert_eq!(spans[1].dst_len, 16);
    assert_eq!(spans[2].dst_len, 8);
    assert_eq!(spans.iter().map(|s| s.dst_len).sum::<u64>(), 40);
    assert_eq!(spans[2].dst_start, 32);

    let bad = PackageDataStreamHeader { reserved: 1, ..header };
    assert_eq!(
        oodle_block_spans(&bad),
        Err(AkizukiError::Oodle(OodleError::InvalidData))
    );
}

const SHIP: u64 = 0x0df5a921212a899e;
const DELETED: u64 = 0xBBBB;
const MODEL_REC: u64 = 0xDDDD;
const BAD_TABLE: u64 = 0xEEEE;
const UNKNOWN_TABLE_REC: u64 = 0xABAB;
const BAD_RECORD: u64 = 0xCDCD;

/// A database blob: one interned string, one path record, six prototype
/// references, and four tables (visual v14, model v14, visual with an
/// unknown version, and an unknown identifier).
fn build_test_db() -> Vec<u8> {
    let sk = 112usize; // strings keys
    let sv = sk + 8; // strings values
    let st = sv + 4; // string text "Akizuki\0"
    let pn = st + 8; // path records
    let pt = pn + 32; // path text "Akizuki.model\0"
    let pk = pt + 14; // prototype keys
    let pv = pk + 16 * 6; // prototype values
    let th = pv + 4 * 6; // table headers
    let npv = th + 24 * 4; // nested pointer, visual
    let npm = npv + 16; // nested pointer, model
    let vr = npm + 16; // visual record
    let mr = vr + 112; // model record
    let dh = mr + 32; // dye header
    let tn = dh + 32; // tint names
    let tm = tn + 4; // tint materials

    let mut v = framed_header(ASSET_DB_MAGIC, 257, 0, 64);
    // Database header at 16.
    p64(&mut v, 1); // strings.count
    p64(&mut v, (sk - 16) as u64);
    p64(&mut v, (sv - 16) as u64);
    p64(&mut v, 0); // string_data.count
    p64(&mut v, (st - 16) as u64);
    p64(&mut v, 6); // prototypes.count
    p64(&mut v, (pk - 56) as u64);
    p64(&mut v, (pv - 56) as u64);
    p64(&mut v, 1); // paths.count
    p64(&mut v, (pn - 80) as u64);
    p64(&mut v, 4); // tables.count
    p64(&mut v, (th - 16) as u64);
    assert_eq!(v.len(), sk);

    p32(&mut v, 0x8d949450);
    p32(&mut v, 0x8000_0000);
    p32(&mut v, 0); // value: offset 0 into the string data
    v.extend_from_slice(b"Akizuki\0");
    assert_eq!(v.len(), pn);

    // One path record: a single segment with no valid parent.
    p64(&mut v, SHIP);
    p64(&mut v, 0);
    p64(&mut v, 0); // pointer.count
    p64(&mut v, (pt - (pn + 16)) as u64);
    v.extend_from_slice(b"Akizuki.model\0");
    assert_eq!(v.len(), pk);

    let protos: [(u64, u32); 6] = [
        (SHIP, 0x0000_0000),          // visual table 0, record 0
        (DELETED, 0x0000_0003),       // deleted
        (MODEL_REC, 0x0000_0004),     // model table 1, record 0
        (BAD_TABLE, 0x0000_0014),     // table 5: past every table
        (UNKNOWN_TABLE_REC, 0x0000_000C), // table 3: unknown identifier
        (BAD_RECORD, 0x0000_0700),    // table 0, record 7: past its records
    ];
    for (id, _) in &protos {
        p64(&mut v, *id);
        pad(&mut v, 4);
        p32(&mut v, 0x8000_0000);
    }
    assert_eq!(v.len(), pv);
    for (_, r) in &protos {
        p32(&mut v, *r);
    }
    assert_eq!(v.len(), th);

    // Table 0: visual v14.
    p32(&mut v, VISUAL_PROTOTYPE_ID);
    p32(&mut v, VISUAL_PROTOTYPE_V14);
    p64(&mut v, 0);
    p64(&mut v, (npv - th) as u64);
    // Table 1: model v14.
    p32(&mut v, MODEL_ID);
    p32(&mut v, MODEL_V14);
    p64(&mut v, 0);
    p64(&mut v, (npm - (th + 24)) as u64);
    // Table 2: known identifier, unknown version.
    p32(&mut v, VISUAL_PROTOTYPE_ID);
    p32(&mut v, 0x99);
    p64(&mut v, 0);
    p64(&mut v, 0);
    // Table 3: unknown identifier.
    p32(&mut v, 0x12345678);
    p32(&mut v, 1);
    p64(&mut v, 0);
    p64(&mut v, 0);
    assert_eq!(v.len(), npv);

    p64(&mut v, 1); // one visual record
    p64(&mut v, (vr - npv) as u64);
    p64(&mut v, 1); // one model record
    p64(&mut v, (mr - npm) as u64);
    assert_eq!(v.len(), vr);

    // Visual record: empty skeleton, no render sets, no levels of detail.
    pad(&mut v, 48); // skeleton header, zero nodes
    p64(&mut v, 0x5555); // merged geometry
    p8(&mut v, 0); // underwater
    p8(&mut v, 1); // abovewater
    p16(&mut v, 0); // render set count
    p8(&mut v, 0); // lod count
    pad(&mut v, 3);
    pad(&mut v, 32); // bounding box
    p64(&mut v, 0);
    p64(&mut v, 0);
    assert_eq!(v.len(), mr);

    // Model record: one dye with one tint, no animations.
    p64(&mut v, 0x5555); // visual resource
    p8(&mut v, 1); // necessary
    p8(&mut v, 0); // animation count
    p8(&mut v, 1); // dye count
    pad(&mut v, 5);
    p64(&mut v, 0); // animation offset
    p64(&mut v, (dh - mr) as u64);
    assert_eq!(v.len(), dh);

    p32(&mut v, 0x8d949450); // matter
    p32(&mut v, 0x11111111); // replaces
    p32(&mut v, 1); // tint count
    pad(&mut v, 4);
    p64(&mut v, (tn - dh) as u64);
    p64(&mut v, (tm - dh) as u64);
    assert_eq!(v.len(), tn);
    p32(&mut v, 0x22222222);
    p64(&mut v, 0x3333333333333333);

    // Patch in the integrity hash over the payload.
    let hash = mmh3_32(&v[16..]);
    v[8..12].copy_from_slice(&hash.to_le_bytes());
    v
}

#[test]
fn test_db_two_decoded_tables() {
    let blob = build_test_db();
    let mut strings = StringLookup::new();
    let mut resources = ResourceLookup::new();
    let db = BigWorldDatabase::new(blob, 257, true, &mut strings, &mut resources).unwrap();

    assert_eq!(db.tables.len(), 4);
    assert_eq!(db.tables[0].len(), 1);
    assert_eq!(db.tables[1].len(), 1);
    assert_eq!(db.tables[2].len(), 0);
    assert_eq!(db.tables[3].len(), 0);

    // The interned string and the reconstructed path are visible.
    assert_eq!(StringId(0x8d949450).text(&strings).unwrap(), "Akizuki");
    assert_eq!(ResourceId(SHIP).text(&resources).unwrap(), "Akizuki.model");

    // A visual opens as a visual.
    let rec = db.open(ResourceId(SHIP)).unwrap();
    match rec {
        BigWorldTableRecord::VisualPrototype(v) => {
            assert_eq!(v.merged_geometry_path().value(), 0x5555);
            assert!(!v.is_underwater_model());
            assert!(v.is_abovewater_model());
            assert_eq!(v.skeleton_prototype().names().len(), 0);
            assert_eq!(v.lods().len(), 0);
        }
        _ => panic!("expected a visual record"),
    }

    // A model opens as a model, dye and tint included.
    let rec = db.open(ResourceId(MODEL_REC)).unwrap();
    match rec {
        BigWorldTableRecord::ModelPrototype(ModelPrototypeVersion::V14(m)) => {
            assert_eq!(m.visual_resource.value(), 0x5555);
            assert_eq!(m.animations.len(), 0);
            assert_eq!(m.dyes.len(), 1);
            let dye = &m.dyes[0];
            assert_eq!(dye.matter().value(), 0x8d949450);
            assert_eq!(dye.tints().get(&0x22222222), Some(&ResourceId(0x3333333333333333)));
        }
        _ => panic!("expected a model record"),
    }
}

#[test]
fn test_db_lookup_errors() {
    let blob = build_test_db();
    let mut strings = StringLookup::new();
    let mut resources = ResourceLookup::new();
    let db = BigWorldDatabase::new(blob, 257, false, &mut strings, &mut resources).unwrap();

    // The construction pass keeps only live references, so a deleted
    // identifier is simply absent from a decoded database.
    assert!(matches!(
        db.open(ResourceId(DELETED)),
        Err(AkizukiError::AssetNotFound(_))
    ));
    assert!(matches!(
        db.open(ResourceId(0xF0F0)),
        Err(AkizukiError::AssetNotFound(_))
    ));
    assert!(matches!(
        db.open(ResourceId(BAD_TABLE)),
        Err(AkizukiError::InvalidTable(_))
    ));
    assert!(matches!(
        db.open(ResourceId(BAD_RECORD)),
        Err(AkizukiError::InvalidRecord(_))
    ));
    assert!(matches!(
        db.open(ResourceId(UNKNOWN_TABLE_REC)),
        Err(AkizukiError::UnsupportedTable(StringId(0x12345678)))
    ));
}

#[test]
fn test_db_unknown_version_is_reported_as_such() {
    // A prototype pointing at the known-identifier table with the
    // unknown version must name the version, not fail decoding.
    let mut blob = build_test_db();
    // Rewrite the BAD_TABLE reference to point at table 2 instead.
    let pv = 112 + 8 + 4 + 8 + 32 + 14 + 16 * 6;
    let slot = pv + 4 * 3;
    blob[slot..slot + 4].copy_from_slice(&(2u32 << 2).to_le_bytes());
    let hash = mmh3_32(&blob[16..]);
    blob[8..12].copy_from_slice(&hash.to_le_bytes());

    let mut strings = StringLookup::new();
    let mut resources = ResourceLookup::new();
    let db = BigWorldDatabase::new(blob, 257, true, &mut strings, &mut resources).unwrap();
    assert!(matches!(
        db.open(ResourceId(BAD_TABLE)),
        Err(AkizukiError::UnsupportedTableVersion(StringId(VISUAL_PROTOTYPE_ID), 0x99))
    ));
}

#[test]
fn test_db_wrong_magic_and_version() {
    let mut strings = StringLookup::new();
    let mut resources = ResourceLookup::new();

    let mut blob = build_test_db();
    blob[4..8].copy_from_slice(&3u32.swap_bytes().to_le_bytes());
    assert_eq!(
        BigWorldDatabase::new(blob, 257, false, &mut strings, &mut resources).err(),
        Some(AkizukiError::InvalidVersion {
            expected: 257,
            present: 3
        })
    );
}

#[test]
fn test_find_install_version() {
    assert_eq!(find_install_version(&vec![3, 9, 7]), Ok(9));
    assert_eq!(
        find_install_version(&vec![]),
        Err(AkizukiError::InvalidInstall)
    );
    assert_eq!(
        find_install_version(&vec![0, -4]),
        Err(AkizukiError::InvalidInstall)
    );
}

#[test]
fn test_manager_loads_database() {
    // One package whose only file is the asset database blob itself.
    let blob = build_test_db();
    let assets_id = ResourceId::new("content/assets.bin").value();
    let entries = [(
        assets_id,
        0u64,
        0,
        0,
        blob.len() as u32,
        crc32(&blob),
        blob.len() as u64,
    )];
    let idx = build_test_index(&entries);

    let mut strings = StringLookup::new();
    let mut resources = ResourceLookup::new();
    let mut pfs =
        PackageFileSystem::new("shard".to_string(), &idx, false, &mut resources).unwrap();
    pfs.add_stream(ResourceId(PKG_ID), blob);

    let mut manager = ResourceManager::new("install".to_string(), 9, vec![pfs]);
    assert_eq!(
        manager.load_asset(ResourceId(assets_id), true).unwrap().len() > 0,
        true
    );
    assert!(manager.big_world_database.is_none());
    manager
        .load_asset_database(true, &mut strings, &mut resources)
        .unwrap();
    let db = manager.big_world_database.as_ref().unwrap();
    assert!(db.open(ResourceId(SHIP)).is_ok());
    assert!(matches!(
        manager.load_asset(ResourceId(0x4242), false),
        Err(AkizukiError::AssetNotFound(_))
    ));
}

#[test]
fn test_open_rejects_deleted_reference() {
    // A reference in the deleted state is rejected as deleted whatever
    // its record index says.
    let mut lookup = std::collections::HashMap::new();
    lookup.insert(
        0x4242u64,
        akizuki::format::bigworld_data::BigWorldPrototypeRef(0x0000_7703),
    ); // state 3, huge record index
    let db = BigWorldDatabase {
        prototype_lookup: lookup,
        tables: Vec::new(),
        table_headers: Vec::new(),
        table_state: Vec::new(),
    };
    assert!(matches!(
        db.open(ResourceId(0x4242)),
        Err(AkizukiError::DeletedAsset(_))
    ));
}
