//! The asset database: interned strings, resource paths, the prototype
//! lookup and the versioned record tables, all decoded from one
//! in-memory blob.

use vstd::prelude::*;

verus! {

use std::collections::HashMap;
use crate::error::AkizukiError;
use crate::error::AkizukiResult;
use crate::format::bigworld::BigWorldFileHeader;
use crate::format::bigworld::BigWorldMagic;
use crate::format::bigworld_data::BigWorldDatabaseHeader;
use crate::format::bigworld_data::BigWorldDatabaseKey;
use crate::format::bigworld_data::BigWorldDatabasePointer;
use crate::format::bigworld_data::BigWorldName;
use crate::format::bigworld_data::BigWorldPrototypeRef;
use crate::format::bigworld_data::BigWorldTableHeader;
use crate::format::bigworld_data::spec_bucket_active;
use crate::identifiers::ResourceId;
use crate::identifiers::ResourceLookup;
use crate::identifiers::StringId;
use crate::identifiers::StringLookup;
use crate::identifiers::spec_lookup_insert;
use crate::names::NameMap;
use crate::names::intern_paths;
use crate::names::spec_intern_paths;
use crate::reader::abs_offset;
use crate::reader::bytes_to_string_lossy;
use crate::reader::read_null_string;
use crate::reader::read_u32;
use crate::reader::spec_le32_at;
use crate::reader::spec_le64_at;
use crate::reader::spec_lossy;
use crate::reader::spec_nul_end;
use crate::table::BigWorldTableRecord;
use crate::table::model::MODEL_PROTOTYPE_ID;
use crate::table::model::ModelPrototypeVersion;
use crate::table::v14::model::spec_model_matches;
use crate::table::v14::model::spec_model_wf;
use crate::table::v14::visual::spec_visual_matches;
use crate::table::v14::visual::spec_visual_wf;
use crate::table::visual::VISUAL_PROTOTYPE_ID;
use crate::table::visual::VisualPrototypeVersion;

broadcast use vstd::std_specs::hash::group_hash_axioms;

/// Why a table could not be decoded.
#[derive(Clone, Copy, PartialEq, Eq, Structural, Debug)]
pub enum TableError {
    /// No decoder is registered for this table identifier.
    UnsupportedTable(StringId),
    /// The identifier is known but this version of it is not.
    UnsupportedTableVersion(StringId, u32),
}

/// The version the asset database's framed header usually carries; the
/// reader takes the expected version as a parameter rather than pinning
/// one.
pub const ASSET_DB_VERSION: u32 = 257;

/// What the interned-string pass leaves in a lookup whose content is
/// `m`: for each of the first `n` key slots whose bucket is active, the
/// zero-terminated text at the slot's value offset, decoded lossily.
pub open spec fn spec_strings_fold(
    d: Seq<u8>,
    ks: int,
    vs: int,
    base: int,
    m: Map<u32, Seq<char>>,
    n: int,
) -> Map<u32, Seq<char>>
    decreases n,
{
    if n <= 0 {
        m
    } else {
        let m1 = spec_strings_fold(d, ks, vs, base, m, n - 1);
        let id = spec_le32_at(d, ks + 8 * (n - 1));
        let bucket = spec_le32_at(d, ks + 8 * (n - 1) + 4);
        let off = spec_le32_at(d, vs + 4 * (n - 1));
        if spec_bucket_active(bucket) {
            let start = base + off;
            let text = spec_lossy(d.subrange(start, spec_nul_end(d, start)));
            spec_lookup_insert(m1, StringId(id).spec_is_valid(), id, text)
        } else {
            m1
        }
    }
}

/// Every binding the strings pass adds over `m` comes from a slot whose
/// bucket word has its high bit set (and whose identifier is valid).
pub proof fn lemma_strings_entries_active(
    d: Seq<u8>,
    ks: int,
    vs: int,
    base: int,
    m: Map<u32, Seq<char>>,
    n: int,
    key: u32,
)
    requires
        spec_strings_fold(d, ks, vs, base, m, n).contains_key(key),
        !m.contains_key(key),
    ensures
        exists|i: int|
            {
                &&& 0 <= i < n
                &&& spec_le32_at(d, ks + 8 * i) == key
                &&& spec_bucket_active(#[trigger] spec_le32_at(d, ks + 8 * i + 4))
                &&& StringId(key).spec_is_valid()
            },
    decreases n,
{
    if n > 0 {
        let id = spec_le32_at(d, ks + 8 * (n - 1));
        let bucket = spec_le32_at(d, ks + 8 * (n - 1) + 4);
        if spec_bucket_active(bucket) && StringId(id).spec_is_valid() && id == key {
            assert(0 <= n - 1 < n && spec_le32_at(d, ks + 8 * (n - 1)) == key
                && spec_bucket_active(spec_le32_at(d, ks + 8 * (n - 1) + 4)));
        } else {
            lemma_strings_entries_active(d, ks, vs, base, m, n - 1, key);
        }
    }
}

/// Whether the interned-string pass can finish: both arrays and, for
/// every active slot, the terminated text lie inside the data.
pub open spec fn spec_strings_wf(d: Seq<u8>, ks: int, vs: int, base: int, n: int) -> bool {
    &&& ks + 8 * n <= d.len()
    &&& vs + 4 * n <= d.len()
    &&& forall|i: int|
        0 <= i < n && spec_bucket_active(#[trigger] spec_le32_at(d, ks + 8 * i + 4)) ==> {
            let start = base + spec_le32_at(d, vs + 4 * i);
            &&& start <= d.len()
            &&& spec_nul_end(d, start) >= 0
        }
}

/// Intern every active string of the strings section: keys carry the
/// hashed identifier, values the offset of the text inside the string
/// data.
pub fn read_strings(data: &[u8], header: &BigWorldDatabaseHeader, lookup: &mut StringLookup) -> (r:
    AkizukiResult<()>)
    ensures
        ({
            let ks = header.relative_position + header.strings.key_offset;
            let vs = header.relative_position + header.strings.value_offset;
            let base = header.relative_position + header.string_data.offset;
            let n = header.strings.count as int;
            &&& (spec_strings_wf(data@, ks, vs, base, n) ==> r is Ok)
            &&& match r {
                Ok(()) => final(lookup)@ == spec_strings_fold(
                    data@,
                    ks,
                    vs,
                    base,
                    old(lookup)@,
                    n,
                ),
                Err(e) => e == AkizukiError::Io && exists|k: int|
                    0 <= k <= n && final(lookup)@ == #[trigger] spec_strings_fold(
                        data@,
                        ks,
                        vs,
                        base,
                        old(lookup)@,
                        k,
                    ),
            }
        }),
{
    let len = data.len();
    let ghost d = data@;
    let ghost m0 = lookup@;

    let ks = match header.relative_position.checked_add(header.strings.key_offset) {
        Some(v) => v,
        None => {
            proof {
                assert(lookup@ == spec_strings_fold(
                    d,
                    header.relative_position + header.strings.key_offset,
                    header.relative_position + header.strings.value_offset,
                    header.relative_position + header.string_data.offset,
                    m0,
                    0,
                ));
            }
            return Err(AkizukiError::Io);
        },
    };
    let vs = match header.relative_position.checked_add(header.strings.value_offset) {
        Some(v) => v,
        None => {
            proof {
                assert(lookup@ == spec_strings_fold(
                    d,
                    header.relative_position + header.strings.key_offset,
                    header.relative_position + header.strings.value_offset,
                    header.relative_position + header.string_data.offset,
                    m0,
                    0,
                ));
            }
            return Err(AkizukiError::Io);
        },
    };
    let ghost gks = ks as int;
    let ghost gvs = vs as int;
    let ghost gbase = header.relative_position as int + header.string_data.offset as int;
    let ghost n = header.strings.count as int;

    let count64 = header.strings.count;
    if count64 > (u64::MAX - ks) / 8 || ks + 8 * count64 > len as u64 || count64 > (u64::MAX - vs)
        / 4 || vs + 4 * count64 > len as u64 {
        proof {
            assert(8 * ((u64::MAX - ks) / 8) + 8 > u64::MAX - ks);
            assert(4 * ((u64::MAX - vs) / 4) + 4 > u64::MAX - vs);
            assert(lookup@ == spec_strings_fold(d, gks, gvs, gbase, m0, 0));
        }
        return Err(AkizukiError::Io);
    }
    let count = count64 as usize;

    let mut i: usize = 0;
    while i < count
        invariant
            i <= count,
            d == data@,
            len == d.len(),
            m0 == old(lookup)@,
            gks == ks,
            gvs == vs,
            gks == header.relative_position + header.strings.key_offset,
            gvs == header.relative_position + header.strings.value_offset,
            gbase == header.relative_position as int + header.string_data.offset as int,
            n == count,
            n == header.strings.count as int,
            ks + 8 * count <= len,
            vs + 4 * count <= len,
            lookup@ == spec_strings_fold(d, gks, gvs, gbase, m0, i as int),
        decreases count - i,
    {
        let mut kp: usize = (ks as usize) + 8 * i;
        let key = BigWorldDatabaseKey::<StringId>::read(data, &mut kp)?;
        let mut vp: usize = (vs as usize) + 4 * i;
        let off = read_u32(data, &mut vp)?;

        if key.bucket & 0x8000_0000 != 0 {
            let base = match header.relative_position.checked_add(header.string_data.offset) {
                Some(v) => v,
                None => {
                    proof {
                        assert(lookup@ == spec_strings_fold(d, gks, gvs, gbase, m0, i as int));
                    }
                    return Err(AkizukiError::Io);
                },
            };
            let start = match base.checked_add(off as u64) {
                Some(v) => v,
                None => {
                    proof {
                        assert(lookup@ == spec_strings_fold(d, gks, gvs, gbase, m0, i as int));
                    }
                    return Err(AkizukiError::Io);
                },
            };
            let bytes = match read_null_string(data, start) {
                Ok(bytes) => bytes,
                Err(e) => {
                    proof {
                        assert(lookup@ == spec_strings_fold(d, gks, gvs, gbase, m0, i as int));
                    }
                    return Err(e);
                },
            };
            let text = bytes_to_string_lossy(&bytes);
            StringId::insert(lookup, key.id, text.as_str());
        }
        proof {
            assert(lookup@ == spec_strings_fold(d, gks, gvs, gbase, m0, i as int + 1));
        }
        i = i + 1;
    }
    Ok(())
}

/// What the name pass yields for the first `n` records at `ps`: each
/// record's identifier bound to its segment bytes and parent.
pub open spec fn spec_names_fold(d: Seq<u8>, ps: int, m: Map<u64, (Seq<u8>, u64)>, n: int) -> Map<
    u64,
    (Seq<u8>, u64),
>
    decreases n,
{
    if n <= 0 {
        m
    } else {
        let m1 = spec_names_fold(d, ps, m, n - 1);
        let q = ps + 32 * (n - 1);
        let id = spec_le64_at(d, q);
        let parent = spec_le64_at(d, q + 8);
        let tstart = (q + 16) + spec_le64_at(d, q + 24);
        let seg = d.subrange(tstart, spec_nul_end(d, tstart));
        m1.insert(id, (seg, parent))
    }
}

/// Whether the name pass can finish: the record array and every
/// terminated segment lie inside the data.
pub open spec fn spec_names_wf(d: Seq<u8>, ps: int, n: int) -> bool {
    &&& ps + 32 * n <= d.len()
    &&& forall|j: int|
        0 <= j < n ==> {
            let tstart = (ps + 32 * j + 16) + #[trigger] spec_le64_at(d, ps + 32 * j + 24);
            &&& tstart <= d.len()
            &&& spec_nul_end(d, tstart) >= 0
        }
}

/// Read the name records of the paths section into a forest, and also
/// hand back the identifiers in stored order.
pub fn read_names(data: &[u8], header: &BigWorldDatabaseHeader) -> (r: AkizukiResult<
    (NameMap, Vec<ResourceId>),
>)
    ensures
        ({
            let ps = header.paths.relative_position + header.paths.offset;
            let n = header.paths.count as int;
            &&& (spec_names_wf(data@, ps, n) ==> r is Ok)
            &&& match r {
                Ok((names, ids)) => {
                    &&& names@ == spec_names_fold(data@, ps, Map::empty(), n)
                    &&& ids@.len() == n
                    &&& forall|j: int|
                        0 <= j < n ==> (#[trigger] ids@[j]).0 == spec_le64_at(data@, ps + 32 * j)
                },
                Err(e) => e == AkizukiError::Io,
            }
        }),
{
    let len = data.len();
    let ghost d = data@;

    let ps = abs_offset(header.paths.relative_position, header.paths.offset)?;
    let ghost gps = ps as int;
    let ghost n = header.paths.count as int;

    let count64 = header.paths.count;
    if count64 > (u64::MAX - ps) / 32 || ps + 32 * count64 > len as u64 {
        proof {
            assert(32 * ((u64::MAX - ps) / 32) + 32 > u64::MAX - ps);
        }
        return Err(AkizukiError::Io);
    }
    let count = count64 as usize;

    let mut names = NameMap::new();
    let mut ids: Vec<ResourceId> = Vec::new();
    proof {
        assert(names@ =~= spec_names_fold(d, gps, Map::empty(), 0));
    }
    let mut j: usize = 0;
    while j < count
        invariant
            j <= count,
            d == data@,
            len == d.len(),
            gps == ps,
            gps == header.paths.relative_position + header.paths.offset,
            n == count,
            n == header.paths.count as int,
            ps + 32 * count <= len,
            names@ == spec_names_fold(d, gps, Map::empty(), j as int),
            ids@.len() == j,
            forall|k: int| 0 <= k < j ==> (#[trigger] ids@[k]).0 == spec_le64_at(d, gps + 32 * k),
        decreases count - j,
    {
        let mut rp: usize = (ps as usize) + 32 * j;
        let name = BigWorldName::read(data, &mut rp)?;
        proof {
            if spec_names_wf(d, gps, n) {
                assert((gps + 32 * (j as int) + 16) + spec_le64_at(d, gps + 32 * (j as int) + 24)
                    <= d.len());
            }
        }
        let tstart = abs_offset(name.pointer.relative_position, name.pointer.offset)?;
        let segment = read_null_string(data, tstart)?;
        names.insert(name.id, segment, name.parent_id);
        ids.push(name.id);
        proof {
            assert(names@ =~= spec_names_fold(d, gps, Map::empty(), j as int + 1));
        }
        j = j + 1;
    }
    Ok((names, ids))
}

/// What the prototype pass yields for the first `n` slots: every
/// reference stored under an active bucket and itself live, keyed by its
/// resource identifier.
pub open spec fn spec_proto_fold(
    d: Seq<u8>,
    ks: int,
    vs: int,
    m: Map<u64, BigWorldPrototypeRef>,
    n: int,
) -> Map<u64, BigWorldPrototypeRef>
    decreases n,
{
    if n <= 0 {
        m
    } else {
        let m1 = spec_proto_fold(d, ks, vs, m, n - 1);
        let id = spec_le64_at(d, ks + 16 * (n - 1));
        let bucket = spec_le32_at(d, ks + 16 * (n - 1) + 12);
        let refv = BigWorldPrototypeRef(spec_le32_at(d, vs + 4 * (n - 1)));
        if spec_bucket_active(bucket) && refv.spec_is_valid() {
            m1.insert(id, refv)
        } else {
            m1
        }
    }
}

/// Every reference the prototype pass keeps was stored under a bucket
/// word with its high bit set, and is itself live.
pub proof fn lemma_proto_entries_active(
    d: Seq<u8>,
    ks: int,
    vs: int,
    m: Map<u64, BigWorldPrototypeRef>,
    n: int,
    key: u64,
)
    requires
        spec_proto_fold(d, ks, vs, m, n).contains_key(key),
        !m.contains_key(key),
    ensures
        exists|i: int|
            {
                &&& 0 <= i < n
                &&& spec_le64_at(d, ks + 16 * i) == key
                &&& spec_bucket_active(#[trigger] spec_le32_at(d, ks + 16 * i + 12))
                &&& BigWorldPrototypeRef(spec_le32_at(d, vs + 4 * i)).spec_is_valid()
            },
    decreases n,
{
    if n > 0 {
        let id = spec_le64_at(d, ks + 16 * (n - 1));
        let bucket = spec_le32_at(d, ks + 16 * (n - 1) + 12);
        let refv = BigWorldPrototypeRef(spec_le32_at(d, vs + 4 * (n - 1)));
        if spec_bucket_active(bucket) && refv.spec_is_valid() && id == key {
            assert(0 <= n - 1 < n && spec_le64_at(d, ks + 16 * (n - 1)) == key
                && spec_bucket_active(spec_le32_at(d, ks + 16 * (n - 1) + 12))
                && BigWorldPrototypeRef(spec_le32_at(d, vs + 4 * (n - 1))).spec_is_valid());
        } else {
            lemma_proto_entries_active(d, ks, vs, m, n - 1, key);
        }
    }
}

/// Build the prototype lookup: a slot takes part only when its bucket is
/// active and its reference is live.
pub fn read_prototype_lookup(data: &[u8], header: &BigWorldDatabaseHeader) -> (r: AkizukiResult<
    HashMap<u64, BigWorldPrototypeRef>,
>)
    ensures
        ({
            let ks = header.prototypes.relative_position + header.prototypes.key_offset;
            let vs = header.prototypes.relative_position + header.prototypes.value_offset;
            let n = header.prototypes.count as int;
            match r {
                Ok(m) => ks + 16 * n <= data@.len() && vs + 4 * n <= data@.len() && m@
                    == spec_proto_fold(data@, ks, vs, Map::empty(), n),
                Err(e) => e == AkizukiError::Io && (ks + 16 * n > data@.len() || vs + 4 * n
                    > data@.len()),
            }
        }),
{
    let len = data.len();
    let ghost d = data@;

    let ks = abs_offset(header.prototypes.relative_position, header.prototypes.key_offset)?;
    let vs = abs_offset(header.prototypes.relative_position, header.prototypes.value_offset)?;
    let ghost gks = ks as int;
    let ghost gvs = vs as int;
    let ghost n = header.prototypes.count as int;

    let count64 = header.prototypes.count;
    if count64 > (u64::MAX - ks) / 16 || ks + 16 * count64 > len as u64 || count64 > (u64::MAX
        - vs) / 4 || vs + 4 * count64 > len as u64 {
        proof {
            assert(16 * ((u64::MAX - ks) / 16) + 16 > u64::MAX - ks);
            assert(4 * ((u64::MAX - vs) / 4) + 4 > u64::MAX - vs);
        }
        return Err(AkizukiError::Io);
    }
    let count = count64 as usize;

    let mut lookup: HashMap<u64, BigWorldPrototypeRef> = HashMap::new();
    proof {
        assert(lookup@ =~= spec_proto_fold(d, gks, gvs, Map::empty(), 0));
    }
    let mut i: usize = 0;
    while i < count
        invariant
            i <= count,
            d == data@,
            len == d.len(),
            gks == ks,
            gvs == vs,
            gks == header.prototypes.relative_position + header.prototypes.key_offset,
            gvs == header.prototypes.relative_position + header.prototypes.value_offset,
            n == count,
            n == header.prototypes.count as int,
            ks + 16 * count <= len,
            vs + 4 * count <= len,
            lookup@ == spec_proto_fold(d, gks, gvs, Map::empty(), i as int),
        decreases count - i,
    {
        let mut kp: usize = (ks as usize) + 16 * i;
        let key = BigWorldDatabaseKey::<ResourceId>::read(data, &mut kp)?;
        let mut vp: usize = (vs as usize) + 4 * i;
        let refv = BigWorldPrototypeRef(read_u32(data, &mut vp)?);

        if key.bucket & 0x8000_0000 != 0 && refv.is_valid() {
            lookup.insert(key.id.0, refv);
        }
        proof {
            assert(lookup@ =~= spec_proto_fold(d, gks, gvs, Map::empty(), i as int + 1));
        }
        i = i + 1;
    }
    Ok(lookup)
}

/// Whether a decoder is registered for exactly this identifier and
/// version.
pub open spec fn spec_table_supported(id: u32, version: u32) -> bool {
    ||| (id == VISUAL_PROTOTYPE_ID && version == crate::table::visual::VISUAL_PROTOTYPE_V14)
    ||| (id == MODEL_PROTOTYPE_ID && version == crate::table::model::MODEL_PROTOTYPE_V14)
}

/// Whether any decoder is registered for this identifier.
pub open spec fn spec_table_known(id: u32) -> bool {
    id == VISUAL_PROTOTYPE_ID || id == MODEL_PROTOTYPE_ID
}

/// Whether `recs` are exactly the records of the table under `hdr`: the
/// table body is one further pointer, whose target holds the packed
/// record array.
pub open spec fn spec_table_records_match(
    d: Seq<u8>,
    hdr: BigWorldTableHeader,
    recs: Seq<BigWorldTableRecord>,
) -> bool {
    let pp = hdr.relative_position + hdr.pointer.offset;
    let cnt = spec_le64_at(d, pp) as int;
    let rstart = pp + spec_le64_at(d, pp + 8);
    &&& recs.len() == cnt
    &&& if hdr.id.0 == VISUAL_PROTOTYPE_ID {
        forall|k: int|
            0 <= k < cnt ==> match #[trigger] recs[k] {
                BigWorldTableRecord::VisualPrototype(VisualPrototypeVersion::V14(v)) =>
                    spec_visual_matches(d, rstart + 112 * k, v),
                _ => false,
            }
    } else {
        forall|k: int|
            0 <= k < cnt ==> match #[trigger] recs[k] {
                BigWorldTableRecord::ModelPrototype(ModelPrototypeVersion::V14(m)) =>
                    spec_model_matches(d, rstart + 32 * k, m),
                _ => false,
            }
    }
}

/// Whether a supported table's body can be decoded to the end: the
/// nested pointer, the record array and every record lie inside the
/// data.
pub open spec fn spec_table_body_wf(d: Seq<u8>, hdr: BigWorldTableHeader) -> bool {
    let pp = hdr.relative_position + hdr.pointer.offset;
    let cnt = spec_le64_at(d, pp) as int;
    let rstart = pp + spec_le64_at(d, pp + 8);
    let stride: int = if hdr.id.0 == VISUAL_PROTOTYPE_ID {
        112
    } else {
        32
    };
    &&& pp + 16 <= d.len()
    &&& rstart + stride * cnt <= d.len()
    &&& if hdr.id.0 == VISUAL_PROTOTYPE_ID {
        forall|k: int| 0 <= k < cnt ==> #[trigger] spec_visual_wf(d, rstart + 112 * k)
    } else {
        forall|k: int| 0 <= k < cnt ==> #[trigger] spec_model_wf(d, rstart + 32 * k)
    }
}

/// Decode the packed record array of a supported table: follow the
/// table's pointer to a nested pointer, then read the records one after
/// another.
fn construct_table(data: &[u8], header: &BigWorldTableHeader) -> (r: AkizukiResult<
    Vec<BigWorldTableRecord>,
>)
    requires
        spec_table_supported(header.id.0, header.version),
    ensures
        spec_table_body_wf(data@, *header) ==> r is Ok,
        match r {
            Ok(t) => spec_table_records_match(data@, *header, t@),
            Err(e) => e == AkizukiError::Io,
        },
{
    let len = data.len();
    let ghost d = data@;

    let pp = abs_offset(header.relative_position, header.pointer.offset)?;
    if len < 16 || pp > len as u64 - 16 {
        return Err(AkizukiError::Io);
    }
    let mut np_pos: usize = pp as usize;
    let pointer = BigWorldDatabasePointer::read(data, &mut np_pos)?;
    let rstart = abs_offset(pointer.relative_position, pointer.offset)?;

    let stride: usize = if header.id.0 == VISUAL_PROTOTYPE_ID {
        112
    } else {
        32
    };
    let count64 = pointer.count;
    if count64 > (u64::MAX - rstart) / (stride as u64) || rstart + (stride as u64) * count64
        > len as u64 {
        proof {
            if stride == 112 {
                assert(112 * ((u64::MAX - rstart) / 112) + 112 > u64::MAX - rstart);
            } else {
                assert(32 * ((u64::MAX - rstart) / 32) + 32 > u64::MAX - rstart);
            }
        }
        return Err(AkizukiError::Io);
    }
    let count = count64 as usize;

    let ghost grstart = rstart as int;
    let ghost gstride = stride as int;
    let mut records: Vec<BigWorldTableRecord> = Vec::new();
    let mut pos: usize = rstart as usize;
    let mut k: usize = 0;
    while k < count
        invariant
            k <= count,
            d == data@,
            len == d.len(),
            grstart == rstart,
            gstride == stride,
            stride == if header.id.0 == VISUAL_PROTOTYPE_ID {
                112int
            } else {
                32int
            },
            spec_table_supported(header.id.0, header.version),
            grstart + gstride * count <= len,
            pos == grstart + gstride * k,
            records@.len() == k,
            count == spec_le64_at(d, header.relative_position + header.pointer.offset),
            grstart == (header.relative_position + header.pointer.offset) + spec_le64_at(
                d,
                header.relative_position + header.pointer.offset + 8,
            ),
            spec_table_body_wf(d, *header) ==> (if header.id.0 == VISUAL_PROTOTYPE_ID {
                forall|j: int| 0 <= j < count ==> #[trigger] spec_visual_wf(d, grstart + 112 * j)
            } else {
                forall|j: int| 0 <= j < count ==> #[trigger] spec_model_wf(d, grstart + 32 * j)
            }),
            header.id.0 == VISUAL_PROTOTYPE_ID ==> forall|j: int|
                0 <= j < k ==> match #[trigger] records@[j] {
                    BigWorldTableRecord::VisualPrototype(VisualPrototypeVersion::V14(v)) =>
                        spec_visual_matches(d, grstart + 112 * j, v),
                    _ => false,
                },
            header.id.0 != VISUAL_PROTOTYPE_ID ==> forall|j: int|
                0 <= j < k ==> match #[trigger] records@[j] {
                    BigWorldTableRecord::ModelPrototype(ModelPrototypeVersion::V14(m)) =>
                        spec_model_matches(d, grstart + 32 * j, m),
                    _ => false,
                },
        decreases count - k,
    {
        if header.id.0 == VISUAL_PROTOTYPE_ID {
            let v = match crate::table::v14::visual::VisualPrototype14::new(data, &mut pos) {
                Ok(v) => v,
                Err(e) => {
                    proof {
                        if spec_table_body_wf(d, *header) {
                            assert(spec_visual_wf(d, grstart + 112 * (k as int)));
                        }
                    }
                    return Err(e);
                },
            };
            records.push(
                BigWorldTableRecord::VisualPrototype(
                    crate::table::visual::VisualPrototypeVersion::V14(v),
                ),
            );
        } else {
            let m = match crate::table::v14::model::ModelPrototype14::new(data, &mut pos) {
                Ok(m) => m,
                Err(e) => {
                    proof {
                        if spec_table_body_wf(d, *header) {
                            assert(spec_model_wf(d, grstart + 32 * (k as int)));
                        }
                    }
                    return Err(e);
                },
            };
            records.push(
                BigWorldTableRecord::ModelPrototype(
                    crate::table::model::ModelPrototypeVersion::V14(m),
                ),
            );
        }
        k = k + 1;
    }
    Ok(records)
}

/// The table header stored at `q`.
pub open spec fn spec_table_header_at(d: Seq<u8>, q: int) -> BigWorldTableHeader {
    BigWorldTableHeader {
        relative_position: q as u64,
        id: StringId(spec_le32_at(d, q)),
        version: spec_le32_at(d, q + 4),
        pointer: BigWorldDatabasePointer {
            relative_position: (q + 8) as u64,
            count: spec_le64_at(d, q + 8),
            offset: spec_le64_at(d, q + 16),
        },
    }
}

/// Whether the whole tables section can be decoded: the header array
/// lies inside the data and every supported table's body does too.
pub open spec fn spec_tables_wf(d: Seq<u8>, ts: int, n: int) -> bool {
    &&& ts + 24 * n <= d.len()
    &&& forall|j: int|
        0 <= j < n && spec_table_supported(
            (#[trigger] spec_table_header_at(d, ts + 24 * j)).id.0,
            spec_table_header_at(d, ts + 24 * j).version,
        ) ==> spec_table_body_wf(d, spec_table_header_at(d, ts + 24 * j))
}

/// The per-table outcome the tables pass must record for header `hdr`:
/// no error and the decoded records for a supported table, the exact
/// error kind and an empty table otherwise.
pub open spec fn spec_table_outcome(
    d: Seq<u8>,
    hdr: BigWorldTableHeader,
    state: Option<TableError>,
    recs: Seq<BigWorldTableRecord>,
) -> bool {
    if spec_table_supported(hdr.id.0, hdr.version) {
        state is None && spec_table_records_match(d, hdr, recs)
    } else if spec_table_known(hdr.id.0) {
        state == Some(TableError::UnsupportedTableVersion(hdr.id, hdr.version)) && recs.len() == 0
    } else {
        state == Some(TableError::UnsupportedTable(hdr.id)) && recs.len() == 0
    }
}

/// Read every table header and decode each supported table; an
/// unsupported table is recorded as such rather than failing the whole
/// database.
pub fn read_tables(data: &[u8], header: &BigWorldDatabaseHeader) -> (r: AkizukiResult<
    (Vec<Vec<BigWorldTableRecord>>, Vec<Option<TableError>>, Vec<BigWorldTableHeader>),
>)
    ensures
        ({
            let ts = header.relative_position + header.tables.offset;
            let n = header.tables.count as int;
            &&& (spec_tables_wf(data@, ts, n) ==> r is Ok)
            &&& match r {
                Ok((tables, states, headers)) => {
                    &&& tables@.len() == n
                    &&& states@.len() == n
                    &&& headers@.len() == n
                    &&& forall|j: int|
                        0 <= j < n ==> #[trigger] headers@[j] == spec_table_header_at(
                            data@,
                            ts + 24 * j,
                        )
                    &&& forall|j: int|
                        0 <= j < n ==> spec_table_outcome(
                            data@,
                            #[trigger] headers@[j],
                            states@[j],
                            tables@[j]@,
                        )
                },
                Err(e) => e == AkizukiError::Io,
            }
        }),
{
    let len = data.len();
    let ghost d = data@;

    let ts = match header.relative_position.checked_add(header.tables.offset) {
        Some(v) => v,
        None => {
            return Err(AkizukiError::Io);
        },
    };
    let ghost gts = ts as int;
    let ghost n = header.tables.count as int;

    let count64 = header.tables.count;
    if count64 > (u64::MAX - ts) / 24 || ts + 24 * count64 > len as u64 {
        proof {
            assert(24 * ((u64::MAX - ts) / 24) + 24 > u64::MAX - ts);
        }
        return Err(AkizukiError::Io);
    }
    let count = count64 as usize;

    let mut tables: Vec<Vec<BigWorldTableRecord>> = Vec::new();
    let mut states: Vec<Option<TableError>> = Vec::new();
    let mut headers: Vec<BigWorldTableHeader> = Vec::new();

    let mut j: usize = 0;
    while j < count
        invariant
            j <= count,
            d == data@,
            len == d.len(),
            gts == ts,
            gts == header.relative_position + header.tables.offset,
            n == count,
            n == header.tables.count as int,
            ts + 24 * count <= len,
            tables@.len() == j,
            states@.len() == j,
            headers@.len() == j,
            forall|k: int|
                0 <= k < j ==> #[trigger] headers@[k] == spec_table_header_at(d, gts + 24 * k),
            forall|k: int|
                0 <= k < j ==> spec_table_outcome(
                    d,
                    #[trigger] headers@[k],
                    states@[k],
                    tables@[k]@,
                ),
        decreases count - j,
    {
        let mut hp: usize = (ts as usize) + 24 * j;
        let th = BigWorldTableHeader::read(data, &mut hp)?;
        proof {
            assert(th == spec_table_header_at(d, gts + 24 * (j as int)));
        }

        if VisualPrototypeVersion::is_supported(&th) || ModelPrototypeVersion::is_supported(&th) {
            let recs = match construct_table(data, &th) {
                Ok(recs) => recs,
                Err(e) => {
                    proof {
                        if spec_tables_wf(d, gts, n) {
                            assert(spec_table_body_wf(
                                d,
                                spec_table_header_at(d, gts + 24 * (j as int)),
                            ));
                        }
                    }
                    return Err(e);
                },
            };
            states.push(None);
            tables.push(recs);
        } else if th.id.0 == VISUAL_PROTOTYPE_ID || th.id.0 == MODEL_PROTOTYPE_ID {
            states.push(Some(TableError::UnsupportedTableVersion(th.id, th.version)));
            tables.push(Vec::new());
        } else {
            states.push(Some(TableError::UnsupportedTable(th.id)));
            tables.push(Vec::new());
        }
        headers.push(th);
        j = j + 1;
    }
    Ok((tables, states, headers))
}

/// The database header stored just after the framed header.
pub open spec fn spec_db_header_at(d: Seq<u8>) -> BigWorldDatabaseHeader {
    BigWorldDatabaseHeader {
        relative_position: 16,
        strings: crate::format::bigworld_data::BigWorldDatabaseMap {
            relative_position: 16,
            count: spec_le64_at(d, 16),
            key_offset: spec_le64_at(d, 24),
            value_offset: spec_le64_at(d, 32),
        },
        string_data: BigWorldDatabasePointer {
            relative_position: 40,
            count: spec_le64_at(d, 40),
            offset: spec_le64_at(d, 48),
        },
        prototypes: crate::format::bigworld_data::BigWorldDatabaseMap {
            relative_position: 56,
            count: spec_le64_at(d, 56),
            key_offset: spec_le64_at(d, 64),
            value_offset: spec_le64_at(d, 72),
        },
        paths: BigWorldDatabasePointer {
            relative_position: 80,
            count: spec_le64_at(d, 80),
            offset: spec_le64_at(d, 88),
        },
        tables: BigWorldDatabasePointer {
            relative_position: 96,
            count: spec_le64_at(d, 96),
            offset: spec_le64_at(d, 104),
        },
    }
}

/// Whether a database blob decodes to the end: its framed header
/// validates and every section is well formed.
pub open spec fn spec_db_wf(d: Seq<u8>, version: u32, validate: bool) -> bool {
    let h = spec_db_header_at(d);
    &&& d.len() >= 112
    &&& spec_le32_at(d, 0) == crate::format::bigworld::ASSET_DB_MAGIC
    &&& crate::format::bigworld::spec_file_header_at(d).spec_validate(
        BigWorldMagic::AssetDb,
        version,
        validate,
        d,
    ) is Ok
    &&& spec_strings_wf(
        d,
        h.relative_position + h.strings.key_offset,
        h.relative_position + h.strings.value_offset,
        h.relative_position + h.string_data.offset,
        h.strings.count as int,
    )
    &&& spec_names_wf(d, h.paths.relative_position + h.paths.offset, h.paths.count as int)
    &&& h.prototypes.relative_position + h.prototypes.key_offset + 16 * (
    h.prototypes.count as int) <= d.len()
    &&& h.prototypes.relative_position + h.prototypes.value_offset + 4 * (
    h.prototypes.count as int) <= d.len()
    &&& spec_tables_wf(d, h.relative_position + h.tables.offset, h.tables.count as int)
}

/// The asset database, decoded and read-only.
pub struct BigWorldDatabase {
    /// Resource identifier to its packed prototype reference.
    pub prototype_lookup: HashMap<u64, BigWorldPrototypeRef>,
    /// The decoded records of each table, in header order.
    pub tables: Vec<Vec<BigWorldTableRecord>>,
    /// The header of each table, in stored order.
    pub table_headers: Vec<BigWorldTableHeader>,
    /// Why a table has no records, where it has none.
    pub table_state: Vec<Option<TableError>>,
}

/// Whether looking `id` up in `db` succeeds: the reference exists and
/// is live, its table decoded, and its record index lies inside the
/// table.
pub open spec fn spec_db_open_ok(db: BigWorldDatabase, id: ResourceId) -> bool {
    let refv = db.prototype_lookup@[id.0];
    let ti = refv.spec_table_index() as int;
    &&& db.prototype_lookup@.contains_key(id.0)
    &&& refv.spec_is_valid()
    &&& refv.spec_table_index() < db.table_state@.len()
    &&& db.table_state@[ti] is None
    &&& refv.spec_table_index() < db.tables@.len()
    &&& refv.spec_record_index() < db.tables@[ti]@.len()
}

/// The error `open` yields when it fails, following its checks in
/// order: the lookup, the reference's state, the table index against
/// the recorded outcomes, any stored table error, the table index
/// against the decoded tables, and finally the record index.
pub open spec fn spec_db_open_err(db: BigWorldDatabase, id: ResourceId) -> AkizukiError {
    let refv = db.prototype_lookup@[id.0];
    let ti = refv.spec_table_index() as int;
    if !db.prototype_lookup@.contains_key(id.0) {
        AkizukiError::AssetNotFound(id)
    } else if !refv.spec_is_valid() {
        AkizukiError::DeletedAsset(id)
    } else if refv.spec_table_index() >= db.table_state@.len() {
        AkizukiError::InvalidTable(id)
    } else {
        match db.table_state@[ti] {
            Some(TableError::UnsupportedTable(tid)) => AkizukiError::UnsupportedTable(tid),
            Some(TableError::UnsupportedTableVersion(tid, v)) =>
                AkizukiError::UnsupportedTableVersion(tid, v),
            None => if refv.spec_table_index() >= db.tables@.len() {
                AkizukiError::InvalidTable(id)
            } else {
                AkizukiError::InvalidRecord(id)
            },
        }
    }
}

impl BigWorldDatabase {
    /// Decode a database blob: validate the framed header against the
    /// caller's expected version, then read the strings, the paths, the
    /// prototype lookup and the tables. Interned names go to the two
    /// lookups.
    pub fn new(
        asset_bin: Vec<u8>,
        version: u32,
        validate: bool,
        strings: &mut StringLookup,
        resources: &mut ResourceLookup,
    ) -> (r: AkizukiResult<BigWorldDatabase>)
        ensures
            spec_db_wf(asset_bin@, version, validate) ==> r is Ok,
            crate::format::bigworld::spec_file_header_at(asset_bin@).spec_validate(
                BigWorldMagic::AssetDb,
                version,
                validate,
                asset_bin@,
            ) is Err ==> r is Err && final(strings)@ == old(strings)@ && final(resources)@ == old(
                resources,
            )@,
            r is Err ==> ({
                let h = spec_db_header_at(asset_bin@);
                final(strings)@ == old(strings)@ || exists|k: int|
                    0 <= k <= h.strings.count as int && final(strings)@
                        == #[trigger] spec_strings_fold(
                        asset_bin@,
                        h.relative_position + h.strings.key_offset,
                        h.relative_position + h.strings.value_offset,
                        h.relative_position + h.string_data.offset,
                        old(strings)@,
                        k,
                    )
            }),
            r is Err ==> ({
                let d = asset_bin@;
                let h = spec_db_header_at(d);
                final(resources)@ == old(resources)@ || final(resources)@ == spec_intern_paths(
                    spec_names_fold(
                        d,
                        h.paths.relative_position + h.paths.offset,
                        Map::empty(),
                        h.paths.count as int,
                    ),
                    Seq::new(
                        h.paths.count as nat,
                        |j: int|
                            ResourceId(
                                spec_le64_at(
                                    d,
                                    h.paths.relative_position + h.paths.offset + 32 * j,
                                ),
                            ),
                    ),
                    old(resources)@,
                    h.paths.count as int,
                )
            }),
            ({
                let d = asset_bin@;
                let h = spec_db_header_at(d);
                match r {
                    Ok(db) => {
                        &&& d.len() >= 112
                        &&& spec_le32_at(d, 0) == crate::format::bigworld::ASSET_DB_MAGIC
                        &&& crate::format::bigworld::spec_file_header_at(d).spec_validate(
                            BigWorldMagic::AssetDb,
                            version,
                            validate,
                            d,
                        ) is Ok
                        &&& spec_le32_at(d, 12) == 64
                        &&& final(strings)@ == spec_strings_fold(
                            d,
                            h.relative_position + h.strings.key_offset,
                            h.relative_position + h.strings.value_offset,
                            h.relative_position + h.string_data.offset,
                            old(strings)@,
                            h.strings.count as int,
                        )
                        &&& db.prototype_lookup@ == spec_proto_fold(
                            d,
                            h.prototypes.relative_position + h.prototypes.key_offset,
                            h.prototypes.relative_position + h.prototypes.value_offset,
                            Map::empty(),
                            h.prototypes.count as int,
                        )
                        &&& final(resources)@ == spec_intern_paths(
                            spec_names_fold(
                                d,
                                h.paths.relative_position + h.paths.offset,
                                Map::empty(),
                                h.paths.count as int,
                            ),
                            Seq::new(
                                h.paths.count as nat,
                                |j: int|
                                    ResourceId(
                                        spec_le64_at(
                                            d,
                                            h.paths.relative_position + h.paths.offset + 32 * j,
                                        ),
                                    ),
                            ),
                            old(resources)@,
                            h.paths.count as int,
                        )
                        &&& db.tables@.len() == h.tables.count
                        &&& db.table_state@.len() == h.tables.count
                        &&& db.table_headers@.len() == h.tables.count
                        &&& forall|j: int|
                            0 <= j < h.tables.count as int ==> #[trigger] db.table_headers@[j]
                                == spec_table_header_at(
                                d,
                                h.relative_position + h.tables.offset + 24 * j,
                            )
                        &&& forall|j: int|
                            0 <= j < h.tables.count as int ==> spec_table_outcome(
                                d,
                                #[trigger] db.table_headers@[j],
                                db.table_state@[j],
                                db.tables@[j]@,
                            )
                    },
                    Err(e) => {
                        ||| e == AkizukiError::Io
                        ||| Err::<(), AkizukiError>(e) == crate::format::bigworld::spec_file_header_at(d).spec_validate(
                            BigWorldMagic::AssetDb,
                            version,
                            validate,
                            d,
                        )
                    },
                }
            }),
    {
        let data = asset_bin.as_slice();
        let mut pos: usize = 0;
        let bw_header = BigWorldFileHeader::read(data, &mut pos)?;
        proof {
            assert(bw_header == crate::format::bigworld::spec_file_header_at(asset_bin@));
        }
        match bw_header.is_valid(BigWorldMagic::AssetDb, version, validate, data) {
            Ok(()) => (),
            Err(e) => {
                return Err(e);
            },
        }

        let bwdb_header = BigWorldDatabaseHeader::read(data, &mut pos)?;
        proof {
            assert(bwdb_header == spec_db_header_at(asset_bin@));
        }

        read_strings(data, &bwdb_header, strings)?;
        let (names, name_ids) = read_names(data, &bwdb_header)?;
        let prototype_lookup = read_prototype_lookup(data, &bwdb_header)?;
        proof {
            let d = asset_bin@;
            let h = spec_db_header_at(d);
            assert(name_ids@ =~= Seq::new(
                h.paths.count as nat,
                |j: int|
                    ResourceId(
                        spec_le64_at(d, h.paths.relative_position + h.paths.offset + 32 * j),
                    ),
            ));
        }
        intern_paths(&names, &name_ids, resources);
        let (tables, table_state, table_headers) = read_tables(data, &bwdb_header)?;

        Ok(BigWorldDatabase { prototype_lookup, tables, table_headers, table_state })
    }

    /// Look a record up by its resource identifier: the reference must
    /// exist and be live, its table must have decoded, and its record
    /// index must lie inside the table. On failure the error names the
    /// first check that failed, in that order.
    pub fn open(&self, id: ResourceId) -> (r: AkizukiResult<&BigWorldTableRecord>)
        ensures
            r is Ok <==> spec_db_open_ok(*self, id),
            match r {
                Ok(rec) => {
                    let refv = self.prototype_lookup@[id.0];
                    rec == self.tables@[refv.spec_table_index() as int]@[refv.spec_record_index() as int]
                },
                Err(e) => e == spec_db_open_err(*self, id),
            },
    {
        let info = match self.prototype_lookup.get(&id.0) {
            Some(info) => *info,
            None => {
                return Err(AkizukiError::AssetNotFound(id));
            },
        };
        if !info.is_valid() {
            return Err(AkizukiError::DeletedAsset(id));
        }

        let table_index = info.table_index();

        if table_index >= self.table_state.len() {
            return Err(AkizukiError::InvalidTable(id));
        }
        match &self.table_state[table_index] {
            Some(TableError::UnsupportedTable(tid)) => {
                return Err(AkizukiError::UnsupportedTable(*tid));
            },
            Some(TableError::UnsupportedTableVersion(tid, v)) => {
                return Err(AkizukiError::UnsupportedTableVersion(*tid, *v));
            },
            None => (),
        }

        if table_index >= self.tables.len() {
            return Err(AkizukiError::InvalidTable(id));
        }
        let records = &self.tables[table_index];
        let record_index = info.record_index();
        if record_index >= records.len() {
            return Err(AkizukiError::InvalidRecord(id));
        }
        Ok(&records[record_index])
    }

    /// The raw bytes of a table's body inside the blob: from the table's
    /// anchored pointer target, as many bytes as the pointer counts.
    pub fn load_table_slice<'a>(&self, data: &'a [u8], header: &BigWorldTableHeader) -> (r: &'a [u8])
        requires
            header.relative_position + header.pointer.offset + header.pointer.count
                <= data@.len(),
        ensures
            r@ == data@.subrange(
                header.relative_position + header.pointer.offset,
                header.relative_position + header.pointer.offset + header.pointer.count,
            ),
    {
        let len = data.len();
        let start = (header.relative_position + header.pointer.offset) as usize;
        vstd::slice::slice_subrange(data, start, start + header.pointer.count as usize)
    }
}

} // verus!
