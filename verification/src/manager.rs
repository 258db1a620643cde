//! The resource manager: every package file system of one install,
//! a file-to-package lookup over all of them, and the lazily decoded
//! asset database.

use vstd::prelude::*;

verus! {

use std::collections::HashMap;
use crate::bigworld::BigWorldDatabase;
use crate::error::AkizukiError;
use crate::error::AkizukiResult;
use crate::identifiers::ResourceId;
use crate::identifiers::ResourceLookup;
use crate::identifiers::StringLookup;
use crate::identifiers::spec_city64;
use crate::pfs::PackageFileSystem;
use crate::pfs::spec_open_failure;
use crate::pfs::spec_open_ok;
use crate::pfs::spec_unpacked;

broadcast use vstd::std_specs::hash::group_hash_axioms;

/// The highest folder number of an install, with zero standing for
/// none.
pub open spec fn spec_max_version(s: Seq<i64>, n: int) -> i64
    decreases n,
{
    if n <= 0 {
        0
    } else {
        let m = spec_max_version(s, n - 1);
        if s[n - 1] > m {
            s[n - 1]
        } else {
            m
        }
    }
}

/// The install version is the highest numeric build folder; an install
/// without a positive one is invalid.
pub fn find_install_version(folder_numbers: &Vec<i64>) -> (r: AkizukiResult<i64>)
    ensures
        ({
            let m = spec_max_version(folder_numbers@, folder_numbers@.len() as int);
            if m == 0 {
                r == Err::<i64, AkizukiError>(AkizukiError::InvalidInstall)
            } else {
                r == Ok::<i64, AkizukiError>(m)
            }
        }),
{
    let ghost s = folder_numbers@;
    let n = folder_numbers.len();
    let mut max_number: i64 = 0;
    let mut i: usize = 0;
    while i < n
        invariant
            i <= n,
            s == folder_numbers@,
            n == s.len(),
            max_number == spec_max_version(s, i as int),
        decreases n - i,
    {
        let v = folder_numbers[i];
        if v > max_number {
            max_number = v;
        }
        i = i + 1;
    }
    if max_number == 0 {
        Err(AkizukiError::InvalidInstall)
    } else {
        Ok(max_number)
    }
}

/// The lookup entries one package contributes: each of its file
/// identifiers bound to the package's identifier.
pub open spec fn spec_lookup_inner(pkg_id: u64, ids: Seq<ResourceId>, m: Map<u64, u64>, k: int) -> Map<
    u64,
    u64,
>
    decreases k,
{
    if k <= 0 {
        m
    } else {
        spec_lookup_inner(pkg_id, ids, m, k - 1).insert(ids[k - 1].0, pkg_id)
    }
}

/// The package map over the first `n` given systems, each keyed by the
/// hash of its name.
pub open spec fn spec_packages_map(pkgs: Seq<PackageFileSystem>, n: int) -> Map<
    u64,
    PackageFileSystem,
>
    decreases n,
{
    if n <= 0 {
        Map::empty()
    } else {
        spec_packages_map(pkgs, n - 1).insert(spec_city64(pkgs[n - 1].name@), pkgs[n - 1])
    }
}

/// The file lookup over the first `n` given systems.
pub open spec fn spec_lookup_map(pkgs: Seq<PackageFileSystem>, n: int) -> Map<u64, u64>
    decreases n,
{
    if n <= 0 {
        Map::empty()
    } else {
        spec_lookup_inner(
            spec_city64(pkgs[n - 1].name@),
            pkgs[n - 1].file_ids@,
            spec_lookup_map(pkgs, n - 1),
            pkgs[n - 1].file_ids@.len() as int,
        )
    }
}

/// Whether `load_asset` succeeds for `id`: the lookup knows its
/// package, the package is loaded, and unpacking it succeeds.
pub open spec fn spec_load_ok(m: ResourceManager, id: ResourceId, validate: bool) -> bool {
    &&& m.lookup@.contains_key(id.0)
    &&& m.packages@.contains_key(m.lookup@[id.0])
    &&& spec_open_ok(m.packages@[m.lookup@[id.0]], id, validate)
}

/// The error `load_asset` yields when it fails, following its checks in
/// order: the lookup, then the package, then the package's own checks.
pub open spec fn spec_load_failure(m: ResourceManager, id: ResourceId, validate: bool) -> AkizukiError {
    if !m.lookup@.contains_key(id.0) {
        AkizukiError::AssetNotFound(id)
    } else if !m.packages@.contains_key(m.lookup@[id.0]) {
        AkizukiError::AssetNotFound(ResourceId(m.lookup@[id.0]))
    } else {
        spec_open_failure(m.packages@[m.lookup@[id.0]], id, validate)
    }
}

/// One install's package file systems and its lazily decoded asset
/// database.
pub struct ResourceManager {
    /// Package identifier to its file system.
    pub packages: HashMap<u64, PackageFileSystem>,
    /// File identifier to the package that holds it.
    pub lookup: HashMap<u64, u64>,
    /// The asset database, once loaded.
    pub big_world_database: Option<BigWorldDatabase>,
    /// The install directory this manager was built from.
    pub install_path: String,
    /// The numeric build folder in use.
    pub install_version: i64,
}

impl ResourceManager {
    /// Assemble a manager from the decoded package file systems of one
    /// install: key each by the hash of its name and index every file
    /// it holds.
    pub fn new(install_path: String, install_version: i64, pkgs: Vec<PackageFileSystem>) -> (r:
        ResourceManager)
        ensures
            r.packages@ == spec_packages_map(pkgs@, pkgs@.len() as int),
            r.lookup@ == spec_lookup_map(pkgs@, pkgs@.len() as int),
            r.big_world_database is None,
            r.install_path == install_path,
            r.install_version == install_version,
    {
        let ghost s = pkgs@;
        let n = pkgs.len();
        let mut pkgs = pkgs;
        let mut packages: HashMap<u64, PackageFileSystem> = HashMap::new();
        let mut lookup: HashMap<u64, u64> = HashMap::new();
        proof {
            assert(packages@ =~= spec_packages_map(s, 0));
            assert(lookup@ =~= spec_lookup_map(s, 0));
        }
        let mut i: usize = 0;
        while i < n
            invariant
                i <= n,
                n == s.len(),
                pkgs@ == s.skip(i as int),
                packages@ == spec_packages_map(s, i as int),
                lookup@ == spec_lookup_map(s, i as int),
            decreases n - i,
        {
            let pkg = pkgs.remove(0);
            proof {
                assert(pkg == s[i as int]);
                assert(pkgs@ =~= s.skip(i as int + 1));
            }
            let pkg_id = ResourceId::new(pkg.name.as_str());

            let ghost ids = pkg.file_ids@;
            let m = pkg.file_ids.len();
            let mut k: usize = 0;
            while k < m
                invariant
                    k <= m,
                    m == ids.len(),
                    ids == pkg.file_ids@,
                    pkg_id.0 == spec_city64(pkg.name@),
                    lookup@ == spec_lookup_inner(
                        pkg_id.0,
                        ids,
                        spec_lookup_map(s, i as int),
                        k as int,
                    ),
                decreases m - k,
            {
                lookup.insert(pkg.file_ids[k].0, pkg_id.0);
                proof {
                    assert(lookup@ =~= spec_lookup_inner(
                        pkg_id.0,
                        ids,
                        spec_lookup_map(s, i as int),
                        k as int + 1,
                    ));
                }
                k = k + 1;
            }

            packages.insert(pkg_id.0, pkg);
            proof {
                assert(packages@ =~= spec_packages_map(s, i as int + 1));
                assert(lookup@ =~= spec_lookup_map(s, i as int + 1));
            }
            i = i + 1;
        }
        ResourceManager {
            packages,
            lookup,
            big_world_database: None,
            install_path,
            install_version,
        }
    }

    /// Unpack one file by identifier, wherever its package lies. The
    /// call succeeds exactly when the package's own `open` would; on
    /// failure the error is the first check that failed.
    pub fn load_asset(&self, resource_id: ResourceId, validate: bool) -> (r: AkizukiResult<
        Vec<u8>,
    >)
        ensures
            r is Ok <==> spec_load_ok(*self, resource_id, validate),
            match r {
                Ok(v) => {
                    let pkg = self.packages@[self.lookup@[resource_id.0]];
                    v@ == spec_unpacked(
                        pkg.streams@[pkg.files@[resource_id.0].package_id.0]@,
                        pkg.files@[resource_id.0],
                    )
                },
                Err(e) => e == spec_load_failure(*self, resource_id, validate),
            },
    {
        let pkg_id = match self.lookup.get(&resource_id.0) {
            Some(pkg_id) => *pkg_id,
            None => {
                return Err(AkizukiError::AssetNotFound(resource_id));
            },
        };
        let pkg = match self.packages.get(&pkg_id) {
            Some(pkg) => pkg,
            None => {
                return Err(AkizukiError::AssetNotFound(ResourceId(pkg_id)));
            },
        };
        pkg.open(&resource_id, validate)
    }

    /// Decode the asset database from `content/assets.bin` on first use.
    /// When none is loaded yet, the call succeeds whenever that file
    /// loads and its bytes are a well-formed database; a load failure
    /// surfaces as the exact lookup error.
    pub fn load_asset_database(
        &mut self,
        validate: bool,
        strings: &mut StringLookup,
        resources: &mut ResourceLookup,
    ) -> (r: AkizukiResult<()>)
        ensures
            r is Ok ==> final(self).big_world_database is Some,
            r is Err ==> final(self).big_world_database is None,
            old(self).big_world_database is Some ==> r is Ok && *final(self) == *old(self)
                && *final(strings) == *old(strings) && *final(resources) == *old(resources),
            old(self).big_world_database is None ==> ({
                let rid = ResourceId(spec_city64("content/assets.bin"@));
                let pkg = old(self).packages@[old(self).lookup@[rid.0]];
                let bytes = spec_unpacked(
                    pkg.streams@[pkg.files@[rid.0].package_id.0]@,
                    pkg.files@[rid.0],
                );
                &&& (spec_load_ok(*old(self), rid, false) && crate::bigworld::spec_db_wf(
                    bytes,
                    crate::bigworld::ASSET_DB_VERSION,
                    validate,
                ) ==> r is Ok)
                &&& (!spec_load_ok(*old(self), rid, false) ==> r == Err::<(), AkizukiError>(
                    spec_load_failure(*old(self), rid, false),
                ))
            }),
            final(self).packages == old(self).packages,
            final(self).lookup == old(self).lookup,
            final(self).install_path == old(self).install_path,
            final(self).install_version == old(self).install_version,
    {
        if self.big_world_database.is_none() {
            let asset_bin = self.load_asset(ResourceId::new("content/assets.bin"), false)?;
            let db = BigWorldDatabase::new(
                asset_bin,
                crate::bigworld::ASSET_DB_VERSION,
                validate,
                strings,
                resources,
            )?;
            self.big_world_database = Some(db);
        }
        Ok(())
    }
}

} // verus!
