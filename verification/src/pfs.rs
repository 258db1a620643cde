//! The package file system: one `.idx` manifest describing a name
//! forest, file records and blob packages. The application memory-maps
//! each referenced blob and hands its bytes in; `open` then unpacks a
//! file and optionally checks its CRC32.

use vstd::prelude::*;

verus! {

use std::collections::HashMap;
use crate::error::AkizukiError;
use crate::error::AkizukiResult;
use crate::error::OodleError;
use crate::format::bigworld::BigWorldFileHeader;
use crate::format::bigworld::BigWorldMagic;
use crate::format::pfs::PackageCompressionType;
use crate::format::pfs::PackageFile;
use crate::format::pfs::PackageFileHeader;
use crate::format::pfs::PackageFileName;
use crate::format::pfs::PackageName;
use crate::identifiers::ResourceId;
use crate::identifiers::ResourceLookup;
use crate::identifiers::spec_lookup_insert;
use crate::names::NameMap;
use crate::names::intern_paths;
use crate::names::spec_intern_paths;
use crate::reader::abs_offset;
use crate::reader::bytes_to_string_lossy;
use crate::reader::read_byte_array;
use crate::reader::read_null_string;
use crate::reader::spec_le32_at;
use crate::reader::spec_le64_at;
use crate::reader::spec_lossy;
use crate::reader::spec_nul_end;

broadcast use vstd::std_specs::hash::group_hash_axioms;

/// The version a package index's framed header must carry.
pub const PFS_INDEX_VERSION: u32 = 2;

/// CRC-32 (ISO-HDLC polynomial) of a byte sequence, a pure function of
/// the bytes alone.
pub uninterp spec fn spec_crc32(s: Seq<u8>) -> u32;

/// Relies on the crc crate's `CRC_32_ISO_HDLC` checksum: a pure function
/// of the bytes alone.
#[verifier::external_body]
fn crc32(data: &[u8]) -> (r: u32)
    ensures
        r == spec_crc32(data@),
{
    crc::Crc::<u32>::new(&crc::CRC_32_ISO_HDLC).checksum(data)
}

/// What a raw deflate stream inflates to inside a buffer of the given
/// size, a pure function of both.
pub uninterp spec fn spec_inflate(src: Seq<u8>, out_len: nat) -> Seq<u8>;

/// Whether a raw deflate stream decodes without error into a buffer of
/// the given size, a pure function of both.
pub uninterp spec fn spec_inflate_ok(src: Seq<u8>, out_len: nat) -> bool;

/// Relies on flate2's raw deflate decoder, writing into a buffer of
/// exactly `out_len` bytes which is returned whole; whether the decode
/// succeeds depends on the two arguments alone.
#[verifier::external_body]
fn inflate_into(src: &[u8], out_len: usize) -> (r: AkizukiResult<Vec<u8>>)
    ensures
        r is Ok <==> spec_inflate_ok(src@, out_len as nat),
        match r {
            Ok(v) => v@.len() == out_len && v@ == spec_inflate(src@, out_len as nat),
            Err(e) => e == AkizukiError::Deflate,
        },
{
    let mut out = vec![0u8; out_len];
    let mut flate = flate2::Decompress::new(false);
    match flate.decompress(src, out.as_mut_slice(), flate2::FlushDecompress::Finish) {
        Ok(_) => Ok(out),
        Err(_) => Err(AkizukiError::Deflate),
    }
}

/// What the name pass of a package index yields for the first `n`
/// records at `ps`.
pub open spec fn spec_pfs_names_fold(d: Seq<u8>, ps: int, m: Map<u64, (Seq<u8>, u64)>, n: int) -> Map<
    u64,
    (Seq<u8>, u64),
>
    decreases n,
{
    if n <= 0 {
        m
    } else {
        let m1 = spec_pfs_names_fold(d, ps, m, n - 1);
        let q = ps + 32 * (n - 1);
        let id = spec_le64_at(d, q + 16);
        let parent = spec_le64_at(d, q + 24);
        let tstart = q + spec_le64_at(d, q + 8);
        let seg = d.subrange(tstart, spec_nul_end(d, tstart));
        m1.insert(id, (seg, parent))
    }
}

/// The file record stored at `q`; an unknown compression word reads as
/// stored-as-is but fails the decoder before it is ever used.
pub open spec fn spec_package_file_at(d: Seq<u8>, q: int) -> PackageFile {
    PackageFile {
        id: ResourceId(spec_le64_at(d, q)),
        package_id: ResourceId(spec_le64_at(d, q + 8)),
        offset: spec_le64_at(d, q + 16),
        compression_type: match PackageCompressionType::spec_from_u32(spec_le32_at(d, q + 24)) {
            Some(c) => c,
            None => PackageCompressionType::Uncompressed,
        },
        compression_flags: spec_le32_at(d, q + 28),
        compressed_size: spec_le32_at(d, q + 32),
        hash: spec_le32_at(d, q + 36),
        size: spec_le64_at(d, q + 40),
    }
}

/// What the file pass yields for the first `n` records at `fs`.
pub open spec fn spec_files_fold(d: Seq<u8>, fs: int, m: Map<u64, PackageFile>, n: int) -> Map<
    u64,
    PackageFile,
>
    decreases n,
{
    if n <= 0 {
        m
    } else {
        spec_files_fold(d, fs, m, n - 1).insert(
            spec_le64_at(d, fs + 48 * (n - 1)),
            spec_package_file_at(d, fs + 48 * (n - 1)),
        )
    }
}

/// What the package pass adds to a resource lookup whose content is
/// `m`: each package's name under its identifier.
pub open spec fn spec_packages_fold(d: Seq<u8>, ps: int, m: Map<u64, Seq<char>>, n: int) -> Map<
    u64,
    Seq<char>,
>
    decreases n,
{
    if n <= 0 {
        m
    } else {
        let m1 = spec_packages_fold(d, ps, m, n - 1);
        let q = ps + 24 * (n - 1);
        let id = spec_le64_at(d, q + 16);
        let tstart = q + spec_le64_at(d, q + 8);
        let text = spec_lossy(d.subrange(tstart, spec_nul_end(d, tstart)));
        spec_lookup_insert(m1, ResourceId(id).spec_is_valid(), id, text)
    }
}

/// Whether the name pass of a package index can finish: the record
/// array and every terminated segment lie inside the data.
pub open spec fn spec_pfs_names_wf(d: Seq<u8>, ps: int, n: int) -> bool {
    &&& ps + 32 * n <= d.len()
    &&& forall|j: int|
        0 <= j < n ==> {
            let tstart = (ps + 32 * j) + #[trigger] spec_le64_at(d, ps + 32 * j + 8);
            &&& tstart <= d.len()
            &&& spec_nul_end(d, tstart) >= 0
        }
}

/// Read the name records of a package index into a forest.
fn read_names(data: &[u8], header: &PackageFileHeader) -> (r: AkizukiResult<NameMap>)
    ensures
        ({
            let ps = header.relative_position + header.name_offset;
            let n = header.name_count as int;
            &&& (spec_pfs_names_wf(data@, ps, n) ==> r is Ok)
            &&& match r {
                Ok(names) => names@ == spec_pfs_names_fold(data@, ps, Map::empty(), n),
                Err(e) => e == AkizukiError::Io,
            }
        }),
{
    let len = data.len();
    let ghost d = data@;

    let ps = abs_offset(header.relative_position, header.name_offset)?;
    let ghost gps = ps as int;
    let ghost n = header.name_count as int;

    let count64 = header.name_count as u64;
    if count64 > (u64::MAX - ps) / 32 || ps + 32 * count64 > len as u64 {
        proof {
            assert(32 * ((u64::MAX - ps) / 32) + 32 > u64::MAX - ps);
        }
        return Err(AkizukiError::Io);
    }
    let count = header.name_count as usize;

    let mut names = NameMap::new();
    proof {
        assert(names@ =~= spec_pfs_names_fold(d, gps, Map::empty(), 0));
    }
    let mut j: usize = 0;
    while j < count
        invariant
            j <= count,
            d == data@,
            len == d.len(),
            gps == ps,
            gps == header.relative_position + header.name_offset,
            n == count,
            n == header.name_count as int,
            ps + 32 * count <= len,
            names@ == spec_pfs_names_fold(d, gps, Map::empty(), j as int),
        decreases count - j,
    {
        let mut rp: usize = (ps as usize) + 32 * j;
        let name = PackageFileName::read(data, &mut rp)?;
        proof {
            if spec_pfs_names_wf(d, gps, n) {
                assert((gps + 32 * (j as int)) + spec_le64_at(d, gps + 32 * (j as int) + 8)
                    <= d.len());
            }
        }
        let tstart = abs_offset(name.name.relative_position, name.name.offset)?;
        let segment = read_null_string(data, tstart)?;
        names.insert(name.name.id, segment, name.parent_id);
        proof {
            assert(names@ =~= spec_pfs_names_fold(d, gps, Map::empty(), j as int + 1));
        }
        j = j + 1;
    }
    Ok(names)
}

/// Whether the file pass can finish: the record array lies inside the
/// data and every compression word names a known kind.
pub open spec fn spec_files_wf(d: Seq<u8>, fs: int, n: int) -> bool {
    &&& fs + 48 * n <= d.len()
    &&& forall|j: int|
        0 <= j < n ==> PackageCompressionType::spec_from_u32(
            #[trigger] spec_le32_at(d, fs + 48 * j + 24),
        ) is Some
}

/// Read the file records of a package index, keyed by identifier, and
/// also hand back the identifiers in stored order.
fn read_files(data: &[u8], header: &PackageFileHeader) -> (r: AkizukiResult<
    (HashMap<u64, PackageFile>, Vec<ResourceId>),
>)
    ensures
        ({
            let fs = header.relative_position + header.file_offset;
            let n = header.file_count as int;
            &&& (spec_files_wf(data@, fs, n) ==> r is Ok)
            &&& match r {
                Ok((files, ids)) => {
                    &&& files@ == spec_files_fold(data@, fs, Map::empty(), n)
                    &&& ids@.len() == n
                    &&& forall|j: int|
                        0 <= j < n ==> (#[trigger] ids@[j]).0 == spec_le64_at(data@, fs + 48 * j)
                },
                Err(e) => e == AkizukiError::Io,
            }
        }),
{
    let len = data.len();
    let ghost d = data@;

    let fs = abs_offset(header.relative_position, header.file_offset)?;
    let ghost gfs = fs as int;
    let ghost n = header.file_count as int;

    let count64 = header.file_count as u64;
    if count64 > (u64::MAX - fs) / 48 || fs + 48 * count64 > len as u64 {
        proof {
            assert(48 * ((u64::MAX - fs) / 48) + 48 > u64::MAX - fs);
        }
        return Err(AkizukiError::Io);
    }
    let count = header.file_count as usize;

    let mut files: HashMap<u64, PackageFile> = HashMap::new();
    let mut ids: Vec<ResourceId> = Vec::new();
    proof {
        assert(files@ =~= spec_files_fold(d, gfs, Map::empty(), 0));
    }
    let mut j: usize = 0;
    while j < count
        invariant
            j <= count,
            d == data@,
            len == d.len(),
            gfs == fs,
            gfs == header.relative_position + header.file_offset,
            n == count,
            n == header.file_count as int,
            fs + 48 * count <= len,
            files@ == spec_files_fold(d, gfs, Map::empty(), j as int),
            ids@.len() == j,
            forall|k: int| 0 <= k < j ==> (#[trigger] ids@[k]).0 == spec_le64_at(d, gfs + 48 * k),
        decreases count - j,
    {
        let mut rp: usize = (fs as usize) + 48 * j;
        proof {
            if spec_files_wf(d, gfs, n) {
                assert(PackageCompressionType::spec_from_u32(
                    spec_le32_at(d, gfs + 48 * (j as int) + 24),
                ) is Some);
            }
        }
        let file = PackageFile::read(data, &mut rp)?;
        ids.push(file.id);
        files.insert(file.id.0, file);
        proof {
            assert(spec_package_file_at(d, gfs + 48 * (j as int)) == file);
            assert(files@ =~= spec_files_fold(d, gfs, Map::empty(), j as int + 1));
        }
        j = j + 1;
    }
    Ok((files, ids))
}

/// Whether the package pass can finish: the record array and every
/// terminated name lie inside the data.
pub open spec fn spec_pkgs_wf(d: Seq<u8>, ps: int, n: int) -> bool {
    &&& ps + 24 * n <= d.len()
    &&& forall|j: int|
        0 <= j < n ==> {
            let tstart = (ps + 24 * j) + #[trigger] spec_le64_at(d, ps + 24 * j + 8);
            &&& tstart <= d.len()
            &&& spec_nul_end(d, tstart) >= 0
        }
}

/// Read the package names of a package index, intern each under its
/// identifier, and hand back the list for the application to load.
fn read_packages(data: &[u8], header: &PackageFileHeader, resources: &mut ResourceLookup) -> (r:
    AkizukiResult<Vec<(ResourceId, String)>>)
    ensures
        ({
            let ps = header.relative_position + header.pkgs_offset;
            let n = header.pkgs_count as int;
            &&& (spec_pkgs_wf(data@, ps, n) ==> r is Ok)
            &&& match r {
                Ok(pkgs) => {
                    &&& final(resources)@ == spec_packages_fold(data@, ps, old(resources)@, n)
                    &&& pkgs@.len() == n
                    &&& forall|j: int|
                        0 <= j < n ==> (#[trigger] pkgs@[j]).0.0 == spec_le64_at(
                            data@,
                            ps + 24 * j + 16,
                        )
                },
                Err(e) => e == AkizukiError::Io && exists|k: int|
                    0 <= k <= n && final(resources)@ == #[trigger] spec_packages_fold(
                        data@,
                        ps,
                        old(resources)@,
                        k,
                    ),
            }
        }),
{
    let len = data.len();
    let ghost d = data@;
    let ghost m0 = resources@;

    let ps = match abs_offset(header.relative_position, header.pkgs_offset) {
        Ok(v) => v,
        Err(e) => {
            proof {
                assert(resources@ == spec_packages_fold(
                    d,
                    header.relative_position + header.pkgs_offset,
                    m0,
                    0,
                ));
            }
            return Err(e);
        },
    };
    let ghost gps = ps as int;
    let ghost n = header.pkgs_count as int;

    let count64 = header.pkgs_count as u64;
    if count64 > (u64::MAX - ps) / 24 || ps + 24 * count64 > len as u64 {
        proof {
            assert(24 * ((u64::MAX - ps) / 24) + 24 > u64::MAX - ps);
            assert(resources@ == spec_packages_fold(d, gps, m0, 0));
        }
        return Err(AkizukiError::Io);
    }
    let count = header.pkgs_count as usize;

    let mut pkgs: Vec<(ResourceId, String)> = Vec::new();
    let mut j: usize = 0;
    while j < count
        invariant
            j <= count,
            d == data@,
            len == d.len(),
            m0 == old(resources)@,
            gps == ps,
            gps == header.relative_position + header.pkgs_offset,
            n == count,
            n == header.pkgs_count as int,
            ps + 24 * count <= len,
            resources@ == spec_packages_fold(d, gps, m0, j as int),
            pkgs@.len() == j,
            forall|k: int|
                0 <= k < j ==> (#[trigger] pkgs@[k]).0.0 == spec_le64_at(d, gps + 24 * k + 16),
        decreases count - j,
    {
        let mut rp: usize = (ps as usize) + 24 * j;
        let name = match PackageName::read(data, &mut rp) {
            Ok(v) => v,
            Err(e) => {
                proof {
                    assert(resources@ == spec_packages_fold(d, gps, m0, j as int));
                }
                return Err(e);
            },
        };
        proof {
            if spec_pkgs_wf(d, gps, n) {
                assert((gps + 24 * (j as int)) + spec_le64_at(d, gps + 24 * (j as int) + 8)
                    <= d.len());
            }
        }
        let tstart = match abs_offset(name.relative_position, name.offset) {
            Ok(v) => v,
            Err(e) => {
                proof {
                    assert(resources@ == spec_packages_fold(d, gps, m0, j as int));
                }
                return Err(e);
            },
        };
        let bytes = match read_null_string(data, tstart) {
            Ok(v) => v,
            Err(e) => {
                proof {
                    assert(resources@ == spec_packages_fold(d, gps, m0, j as int));
                }
                return Err(e);
            },
        };
        let text = bytes_to_string_lossy(&bytes);
        ResourceId::insert(resources, name.id, text.as_str());
        pkgs.push((name.id, text));
        proof {
            assert(resources@ == spec_packages_fold(d, gps, m0, j as int + 1));
        }
        j = j + 1;
    }
    Ok(pkgs)
}

/// A decoded package index together with the blob bytes the application
/// has handed in.
pub struct PackageFileSystem {
    /// The stem of the index file this system was decoded from.
    pub name: String,
    /// File identifier to its record.
    pub files: HashMap<u64, PackageFile>,
    /// The file identifiers in stored order.
    pub file_ids: Vec<ResourceId>,
    /// The blob packages the index references, for the application to
    /// load.
    pub package_names: Vec<(ResourceId, String)>,
    /// Package identifier to its loaded blob bytes.
    pub streams: HashMap<u64, Vec<u8>>,
}

/// Whether a file record can be unpacked from its blob at all: its
/// stored range must lie inside the blob and, for a deflate record, the
/// stream must inflate. A block-stream record has no pure unpacking;
/// the dynamically loaded codec handles it outside this crate.
pub open spec fn spec_can_unpack(stream: Seq<u8>, info: PackageFile) -> bool {
    if info.compression_flags == 0 || info.compression_type
        == PackageCompressionType::Uncompressed {
        info.offset + info.size <= stream.len()
    } else if info.compression_type == PackageCompressionType::Deflate {
        &&& info.offset + info.compressed_size <= stream.len()
        &&& info.size <= usize::MAX
        &&& spec_inflate_ok(
            stream.subrange(info.offset as int, info.offset + info.compressed_size),
            info.size as nat,
        )
    } else {
        false
    }
}

/// The bytes a file record unpacks to: the stored range as it is when
/// the record is flagged or typed as stored, its inflation when typed
/// deflate.
pub open spec fn spec_unpacked(stream: Seq<u8>, info: PackageFile) -> Seq<u8> {
    if info.compression_flags == 0 || info.compression_type
        == PackageCompressionType::Uncompressed {
        stream.subrange(info.offset as int, info.offset + info.size)
    } else {
        spec_inflate(
            stream.subrange(info.offset as int, info.offset + info.compressed_size),
            info.size as nat,
        )
    }
}

/// The error unpacking yields when it cannot finish: an out-of-range
/// record fails the read, an in-range deflate record that does not
/// inflate is a deflate failure, and a block-stream record needs the
/// loaded codec.
pub open spec fn spec_unpack_err(stream: Seq<u8>, info: PackageFile) -> AkizukiError {
    if info.compression_flags == 0 || info.compression_type
        == PackageCompressionType::Uncompressed {
        AkizukiError::Io
    } else if info.compression_type == PackageCompressionType::Deflate {
        if info.offset + info.compressed_size > stream.len() || info.size > usize::MAX {
            AkizukiError::Io
        } else {
            AkizukiError::Deflate
        }
    } else {
        AkizukiError::Oodle(OodleError::LibraryUnavailable)
    }
}

/// Unpack one file record from its blob bytes: the result is exactly
/// the record's unpacking, success exactly when one exists.
pub fn read_data_from_stream(stream: &[u8], info: &PackageFile) -> (r: AkizukiResult<Vec<u8>>)
    ensures
        r is Ok <==> spec_can_unpack(stream@, *info),
        match r {
            Ok(v) => v@ == spec_unpacked(stream@, *info),
            Err(e) => e == spec_unpack_err(stream@, *info),
        },
{
    let len = stream.len();
    if info.compression_flags == 0 || matches!(info.compression_type, PackageCompressionType::Uncompressed) {
        if info.size > u64::MAX - info.offset {
            return Err(AkizukiError::Io);
        }
        if info.size > usize::MAX as u64 {
            return Err(AkizukiError::Io);
        }
        let data = read_byte_array(stream, info.offset, info.size as usize)?;
        return Ok(data);
    }
    match info.compression_type {
        PackageCompressionType::Deflate => {
            if info.compressed_size as u64 > u64::MAX - info.offset {
                return Err(AkizukiError::Io);
            }
            if info.offset + info.compressed_size as u64 > len as u64 {
                return Err(AkizukiError::Io);
            }
            if info.size > usize::MAX as u64 {
                return Err(AkizukiError::Io);
            }
            let src = vstd::slice::slice_subrange(
                stream,
                info.offset as usize,
                (info.offset + info.compressed_size as u64) as usize,
            );
            let out = inflate_into(src, info.size as usize)?;
            Ok(out)
        },
        PackageCompressionType::Oodle => Err(
            AkizukiError::Oodle(OodleError::LibraryUnavailable),
        ),
        PackageCompressionType::Uncompressed => Err(AkizukiError::Io),
    }
}

/// Whether unpacking `id` from `pfs` succeeds: the file and its blob
/// are known, the record unpacks, and the checksum holds when asked
/// for.
pub open spec fn spec_open_ok(pfs: PackageFileSystem, id: ResourceId, validate: bool) -> bool {
    &&& pfs.files@.contains_key(id.0)
    &&& pfs.streams@.contains_key(pfs.files@[id.0].package_id.0)
    &&& spec_can_unpack(pfs.streams@[pfs.files@[id.0].package_id.0]@, pfs.files@[id.0])
    &&& (validate ==> spec_crc32(
        spec_unpacked(pfs.streams@[pfs.files@[id.0].package_id.0]@, pfs.files@[id.0]),
    ) == pfs.files@[id.0].hash)
}

/// The error `open` yields when it fails, following its checks in
/// order: the file, then its blob, then the unpacking, then the
/// checksum.
pub open spec fn spec_open_failure(
    pfs: PackageFileSystem,
    id: ResourceId,
    validate: bool,
) -> AkizukiError {
    if !pfs.files@.contains_key(id.0) {
        AkizukiError::AssetNotFound(id)
    } else if !pfs.streams@.contains_key(pfs.files@[id.0].package_id.0) {
        AkizukiError::AssetNotFound(pfs.files@[id.0].package_id)
    } else if !spec_can_unpack(pfs.streams@[pfs.files@[id.0].package_id.0]@, pfs.files@[id.0]) {
        spec_unpack_err(pfs.streams@[pfs.files@[id.0].package_id.0]@, pfs.files@[id.0])
    } else {
        AkizukiError::ChecksumMismatch
    }
}

/// Whether a package index decodes to the end: its framed header
/// validates and its three sections are well formed.
pub open spec fn spec_index_wf(d: Seq<u8>, validate: bool) -> bool {
    &&& d.len() >= 56
    &&& spec_le32_at(d, 0) == crate::format::bigworld::PFS_INDEX_MAGIC
    &&& crate::format::bigworld::spec_file_header_at(d).spec_validate(
        BigWorldMagic::PFSIndex,
        PFS_INDEX_VERSION,
        validate,
        d,
    ) is Ok
    &&& spec_pfs_names_wf(d, 16 + spec_le64_at(d, 32int), spec_le32_at(d, 16int) as int)
    &&& spec_files_wf(d, 16 + spec_le64_at(d, 40int), spec_le32_at(d, 20int) as int)
    &&& spec_pkgs_wf(d, 16 + spec_le64_at(d, 48int), spec_le32_at(d, 24int) as int)
}

impl PackageFileSystem {
    /// Decode a package index: validate the framed header, read the name
    /// forest, the file records and the package names, intern each
    /// package name and each reconstructible file path. A well-formed
    /// index always decodes; a failed header validation leaves the
    /// lookup untouched.
    pub fn new(name: String, idx: &[u8], validate: bool, resources: &mut ResourceLookup) -> (r:
        AkizukiResult<PackageFileSystem>)
        ensures
            spec_index_wf(idx@, validate) ==> r is Ok,
            crate::format::bigworld::spec_file_header_at(idx@).spec_validate(
                BigWorldMagic::PFSIndex,
                PFS_INDEX_VERSION,
                validate,
                idx@,
            ) is Err ==> r is Err && final(resources)@ == old(resources)@,
            r is Err ==> final(resources)@ == old(resources)@ || exists|k: int|
                0 <= k <= spec_le32_at(idx@, 16 + 8int) as int && final(resources)@
                    == #[trigger] spec_packages_fold(
                    idx@,
                    16 + spec_le64_at(idx@, 16 + 32int),
                    old(resources)@,
                    k,
                ),
            match r {
                Ok(pfs) => {
                    let d = idx@;
                    let fs = 16 + spec_le64_at(d, 16 + 24int);
                    let nf = spec_le32_at(d, 16 + 4int) as int;
                    &&& d.len() >= 56
                    &&& spec_le32_at(d, 0) == crate::format::bigworld::PFS_INDEX_MAGIC
                    &&& crate::format::bigworld::spec_file_header_at(d).spec_validate(
                        BigWorldMagic::PFSIndex,
                        PFS_INDEX_VERSION,
                        validate,
                        d,
                    ) is Ok
                    &&& spec_le32_at(d, 12) == 64
                    &&& pfs.name == name
                    &&& pfs.files@ == spec_files_fold(d, fs, Map::empty(), nf)
                    &&& pfs.file_ids@.len() == nf
                    &&& pfs.streams@ == Map::<u64, Vec<u8>>::empty()
                    &&& final(resources)@ == spec_intern_paths(
                        spec_pfs_names_fold(
                            d,
                            16 + spec_le64_at(d, 16 + 16int),
                            Map::empty(),
                            spec_le32_at(d, 16int) as int,
                        ),
                        Seq::new(nf as nat, |j: int| ResourceId(spec_le64_at(d, fs + 48 * j))),
                        spec_packages_fold(
                            d,
                            16 + spec_le64_at(d, 16 + 32int),
                            old(resources)@,
                            spec_le32_at(d, 16 + 8int) as int,
                        ),
                        nf,
                    )
                },
                Err(e) => {
                    ||| e == AkizukiError::Io
                    ||| Err::<(), AkizukiError>(e)
                        == crate::format::bigworld::spec_file_header_at(idx@).spec_validate(
                        BigWorldMagic::PFSIndex,
                        PFS_INDEX_VERSION,
                        validate,
                        idx@,
                    )
                },
            },
    {
        let mut pos: usize = 0;
        let bw_header = BigWorldFileHeader::read(idx, &mut pos)?;
        proof {
            assert(bw_header == crate::format::bigworld::spec_file_header_at(idx@));
        }
        match bw_header.is_valid(BigWorldMagic::PFSIndex, PFS_INDEX_VERSION, validate, idx) {
            Ok(()) => (),
            Err(e) => {
                return Err(e);
            },
        }

        let header = PackageFileHeader::read(idx, &mut pos)?;

        let names = read_names(idx, &header)?;
        let (files, file_ids) = read_files(idx, &header)?;
        let package_names = match read_packages(idx, &header, resources) {
            Ok(v) => v,
            Err(_) => {
                return Err(AkizukiError::Io);
            },
        };
        intern_paths(&names, &file_ids, resources);

        proof {
            let d = idx@;
            assert(file_ids@ =~= Seq::new(
                header.file_count as nat,
                |j: int|
                    ResourceId(
                        spec_le64_at(d, header.relative_position + header.file_offset + 48 * j),
                    ),
            ));
        }

        Ok(PackageFileSystem { name, files, file_ids, package_names, streams: HashMap::new() })
    }

    /// Hand in the bytes of one referenced blob package.
    pub fn add_stream(&mut self, id: ResourceId, bytes: Vec<u8>)
        ensures
            final(self).streams@ == old(self).streams@.insert(id.0, bytes),
            final(self).files == old(self).files,
            final(self).file_ids == old(self).file_ids,
            final(self).package_names == old(self).package_names,
            final(self).name == old(self).name,
    {
        self.streams.insert(id.0, bytes);
    }

    /// Unpack one file by identifier; with `validate`, also check its
    /// CRC32 against the record. The call succeeds exactly when the file
    /// and its blob are known, the record unpacks, and any requested
    /// checksum holds; on failure the error is the first check that
    /// failed.
    pub fn open(&self, id: &ResourceId, validate: bool) -> (r: AkizukiResult<Vec<u8>>)
        ensures
            r is Ok <==> spec_open_ok(*self, *id, validate),
            match r {
                Ok(v) => v@ == spec_unpacked(
                    self.streams@[self.files@[id.0].package_id.0]@,
                    self.files@[id.0],
                ),
                Err(e) => e == spec_open_failure(*self, *id, validate),
            },
    {
        let info = match self.files.get(&id.0) {
            Some(info) => info,
            None => {
                return Err(AkizukiError::AssetNotFound(*id));
            },
        };
        let stream = match self.streams.get(&info.package_id.0) {
            Some(stream) => stream,
            None => {
                return Err(AkizukiError::AssetNotFound(info.package_id));
            },
        };

        let data = read_data_from_stream(stream.as_slice(), info)?;

        if validate {
            let hash = crc32(data.as_slice());
            if hash != info.hash {
                return Err(AkizukiError::ChecksumMismatch);
            }
        }

        Ok(data)
    }
}

} // verus!
