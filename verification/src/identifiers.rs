//! Content-addressed identifiers and the lookups that bind them to names.
//!
//! A `StringId` is the MurmurHash3-32 of a name; a `ResourceId` is its
//! CityHash64. Decoders populate a `StringLookup` and a `ResourceLookup`
//! so that consumers can turn an identifier back into its canonical name.

use vstd::prelude::*;

verus! {

use std::collections::HashMap;
use crate::mmh3::mmh3_32;
use crate::mmh3::spec_mmh3_32;
use vstd::string::StringSliceAdditionalSpecFns;

broadcast use vstd::std_specs::hash::group_hash_axioms;

/// CityHash64 of a string, a function of its characters alone.
pub uninterp spec fn spec_city64(s: Seq<char>) -> u64;

/// A 32-bit string identifier: the MurmurHash3-32 of the name it stands for.
#[derive(Clone, Copy, PartialEq, Eq, Structural, Hash, Debug)]
pub struct StringId(pub u32);

/// A 64-bit resource identifier: the CityHash64 of the path it stands for.
#[derive(Clone, Copy, PartialEq, Eq, Structural, Hash, Debug)]
pub struct ResourceId(pub u64);

/// Binds 32-bit string identifiers to their canonical names.
pub struct StringLookup {
    map: HashMap<u32, String>,
}

/// Binds 64-bit resource identifiers to their canonical paths.
pub struct ResourceLookup {
    map: HashMap<u64, String>,
}

impl View for StringLookup {
    type V = Map<u32, Seq<char>>;

    closed spec fn view(&self) -> Map<u32, Seq<char>> {
        self.map@.map_values(|s: String| s@)
    }
}

impl View for ResourceLookup {
    type V = Map<u64, Seq<char>>;

    closed spec fn view(&self) -> Map<u64, Seq<char>> {
        self.map@.map_values(|s: String| s@)
    }
}

/// What an insert of `(id, s)` leaves in a lookup whose content is `m`:
/// a binding for every valid identifier, nothing for an invalid one.
pub open spec fn spec_lookup_insert<K>(m: Map<K, Seq<char>>, valid: bool, key: K, s: Seq<char>) -> Map<K, Seq<char>> {
    if valid {
        m.insert(key, s)
    } else {
        m
    }
}

/// Inserting a pair a second time leaves a lookup exactly as the first
/// insert left it, whether or not the identifier is valid.
pub proof fn lemma_lookup_insert_idempotent<K>(m: Map<K, Seq<char>>, valid: bool, key: K, s: Seq<char>)
    ensures
        spec_lookup_insert(spec_lookup_insert(m, valid, key, s), valid, key, s) == spec_lookup_insert(m, valid, key, s),
{
    if valid {
        assert(m.insert(key, s).insert(key, s) =~= m.insert(key, s));
    }
}

impl StringLookup {
    /// An empty lookup.
    pub fn new() -> (r: Self)
        ensures
            r@ == Map::<u32, Seq<char>>::empty(),
    {
        let r = StringLookup { map: HashMap::new() };
        proof {
            assert(r@ =~= Map::<u32, Seq<char>>::empty());
        }
        r
    }
}

impl ResourceLookup {
    /// An empty lookup.
    pub fn new() -> (r: Self)
        ensures
            r@ == Map::<u64, Seq<char>>::empty(),
    {
        let r = ResourceLookup { map: HashMap::new() };
        proof {
            assert(r@ =~= Map::<u64, Seq<char>>::empty());
        }
        r
    }
}

impl StringLookup {
    /// A snapshot of every binding, in no particular order: as many
    /// entries as the lookup holds, each a true binding, no identifier
    /// twice.
    pub fn entries(&self) -> (r: Vec<(u32, String)>)
        ensures
            r@.len() == self@.dom().len(),
            forall|j: int|
                0 <= j < r@.len() ==> self@.contains_key(#[trigger] r@[j].0) && self@[r@[j].0]
                    == r@[j].1@,
            forall|j1: int, j2: int|
                0 <= j1 < j2 < r@.len() ==> (#[trigger] r@[j1]).0 != (#[trigger] r@[j2]).0,
    {
        let ghost m = self.map@;
        let mut out: Vec<(u32, String)> = Vec::new();
        for kv in it: self.map.iter()
            invariant
                m == self.map@,
                out@.len() == it.index(),
                it.seq().no_duplicates(),
                it.seq().len() == m.dom().len(),
                forall|j: int|
                    0 <= j < it.seq().len() ==> m.contains_key(*(#[trigger] it.seq()[j]).0)
                        && m[*it.seq()[j].0] == *it.seq()[j].1,
                forall|j: int|
                    0 <= j < out@.len() ==> (#[trigger] out@[j]).0 == *it.seq()[j].0 && out@[j].1@
                        == (*it.seq()[j].1)@,
                forall|j1: int, j2: int|
                    0 <= j1 < j2 < out@.len() ==> (#[trigger] out@[j1]).0 != (#[trigger] out@[j2]).0,
        {
            let ghost idx = it.index() as int;
            out.push((*kv.0, kv.1.clone()));
            proof {
                assert forall|j: int| 0 <= j < idx implies *(it.seq()[j]).0 != *(it.seq()[idx]).0 by {
                    if *(it.seq()[j]).0 == *(it.seq()[idx]).0 {
                        assert(*it.seq()[j].1 == m[*it.seq()[j].0]);
                        assert(*it.seq()[idx].1 == m[*it.seq()[idx].0]);
                        assert(it.seq()[j] == it.seq()[idx]);
                    }
                }
            }
        }
        proof {
            assert(self@.dom() =~= m.dom());
        }
        out
    }
}

impl ResourceLookup {
    /// A snapshot of every binding, in no particular order: as many
    /// entries as the lookup holds, each a true binding, no identifier
    /// twice.
    pub fn entries(&self) -> (r: Vec<(u64, String)>)
        ensures
            r@.len() == self@.dom().len(),
            forall|j: int|
                0 <= j < r@.len() ==> self@.contains_key(#[trigger] r@[j].0) && self@[r@[j].0]
                    == r@[j].1@,
            forall|j1: int, j2: int|
                0 <= j1 < j2 < r@.len() ==> (#[trigger] r@[j1]).0 != (#[trigger] r@[j2]).0,
    {
        let ghost m = self.map@;
        let mut out: Vec<(u64, String)> = Vec::new();
        for kv in it: self.map.iter()
            invariant
                m == self.map@,
                out@.len() == it.index(),
                it.seq().no_duplicates(),
                it.seq().len() == m.dom().len(),
                forall|j: int|
                    0 <= j < it.seq().len() ==> m.contains_key(*(#[trigger] it.seq()[j]).0)
                        && m[*it.seq()[j].0] == *it.seq()[j].1,
                forall|j: int|
                    0 <= j < out@.len() ==> (#[trigger] out@[j]).0 == *it.seq()[j].0 && out@[j].1@
                        == (*it.seq()[j].1)@,
                forall|j1: int, j2: int|
                    0 <= j1 < j2 < out@.len() ==> (#[trigger] out@[j1]).0 != (#[trigger] out@[j2]).0,
        {
            let ghost idx = it.index() as int;
            out.push((*kv.0, kv.1.clone()));
            proof {
                assert forall|j: int| 0 <= j < idx implies *(it.seq()[j]).0 != *(it.seq()[idx]).0 by {
                    if *(it.seq()[j]).0 == *(it.seq()[idx]).0 {
                        assert(*it.seq()[j].1 == m[*it.seq()[j].0]);
                        assert(*it.seq()[idx].1 == m[*it.seq()[idx].0]);
                        assert(it.seq()[j] == it.seq()[idx]);
                    }
                }
            }
        }
        proof {
            assert(self@.dom() =~= m.dom());
        }
        out
    }
}

impl StringId {
    /// The identifier of a name: its MurmurHash3-32.
    pub fn new(s: &str) -> (r: Self)
        ensures
            r.0 == spec_mmh3_32(s.spec_bytes()),
    {
        StringId(mmh3_32(s.as_bytes()))
    }

    /// An identifier participates in lookups only when it is neither zero
    /// nor all-ones.
    pub open spec fn spec_is_valid(&self) -> bool {
        self.0 > 0 && self.0 < 0xFFFF_FFFF
    }

    /// Whether the identifier is neither zero nor all-ones.
    pub fn is_valid(&self) -> (r: bool)
        ensures
            r == self.spec_is_valid(),
    {
        self.0 > 0 && self.0 < 0xFFFF_FFFF
    }

    /// The raw hash, or all-ones for an invalid identifier.
    pub fn value(&self) -> (r: u32)
        ensures
            r == if self.spec_is_valid() {
                self.0
            } else {
                0xFFFF_FFFFu32
            },
    {
        if self.is_valid() {
            self.0
        } else {
            0xFFFF_FFFF
        }
    }

    /// The name bound to this identifier, if one was interned.
    pub fn text(&self, lookup: &StringLookup) -> (r: Option<String>)
        ensures
            match r {
                Some(s) => self.spec_is_valid() && lookup@.contains_key(self.0) && s@ == lookup@[self.0],
                None => !self.spec_is_valid() || !lookup@.contains_key(self.0),
            },
    {
        if self.is_valid() {
            match lookup.map.get(&self.0) {
                Some(s) => Some(s.clone()),
                None => None,
            }
        } else {
            None
        }
    }

    /// Bind `id` to `s`. An invalid identifier is silently ignored.
    pub fn insert(lookup: &mut StringLookup, id: StringId, s: &str)
        ensures
            final(lookup)@ == spec_lookup_insert(old(lookup)@, id.spec_is_valid(), id.0, s@),
    {
        if !id.is_valid() {
            return;
        }
        lookup.map.insert(id.0, s.to_owned());
        proof {
            assert(lookup@ =~= old(lookup)@.insert(id.0, s@));
        }
    }
}

impl ResourceId {
    /// The identifier of a path: its CityHash64.
    ///
    /// Relies on `cityhasher::hash::<u64>` for the hash itself; see
    /// [`city_hash_64`].
    pub fn new(s: &str) -> (r: Self)
        ensures
            r.0 == spec_city64(s@),
    {
        ResourceId(city_hash_64(s))
    }

    /// An identifier participates in lookups only when it is neither zero
    /// nor all-ones.
    pub open spec fn spec_is_valid(&self) -> bool {
        self.0 > 0 && self.0 < 0xFFFF_FFFF_FFFF_FFFF
    }

    /// Whether the identifier is neither zero nor all-ones.
    pub fn is_valid(&self) -> (r: bool)
        ensures
            r == self.spec_is_valid(),
    {
        self.0 > 0 && self.0 < 0xFFFF_FFFF_FFFF_FFFF
    }

    /// The raw hash, or all-ones for an invalid identifier.
    pub fn value(&self) -> (r: u64)
        ensures
            r == if self.spec_is_valid() {
                self.0
            } else {
                0xFFFF_FFFF_FFFF_FFFFu64
            },
    {
        if self.is_valid() {
            self.0
        } else {
            0xFFFF_FFFF_FFFF_FFFF
        }
    }

    /// The path bound to this identifier, if one was interned.
    pub fn text(&self, lookup: &ResourceLookup) -> (r: Option<String>)
        ensures
            match r {
                Some(s) => self.spec_is_valid() && lookup@.contains_key(self.0) && s@ == lookup@[self.0],
                None => !self.spec_is_valid() || !lookup@.contains_key(self.0),
            },
    {
        if self.is_valid() {
            match lookup.map.get(&self.0) {
                Some(s) => Some(s.clone()),
                None => None,
            }
        } else {
            None
        }
    }

    /// Bind `id` to `s`. An invalid identifier is silently ignored.
    pub fn insert(lookup: &mut ResourceLookup, id: ResourceId, s: &str)
        ensures
            final(lookup)@ == spec_lookup_insert(old(lookup)@, id.spec_is_valid(), id.0, s@),
    {
        if !id.is_valid() {
            return;
        }
        lookup.map.insert(id.0, s.to_owned());
        proof {
            assert(lookup@ =~= old(lookup)@.insert(id.0, s@));
        }
    }
}

/// A fresh identifier carries its name's hash through unchanged: when
/// the hash is neither zero nor all-ones the identifier is valid, so
/// `value` reports exactly the hash that `new` stored.
pub proof fn lemma_new_id_reports_hash(s: Seq<u8>)
    requires
        spec_mmh3_32(s) != 0,
        spec_mmh3_32(s) != 0xFFFF_FFFF,
    ensures
        StringId(spec_mmh3_32(s)).spec_is_valid(),
{
}

/// Relies on `cityhasher::hash::<u64>`: CityHash64 of the string's bytes,
/// a pure function of its contents alone.
#[verifier::external_body]
fn city_hash_64(s: &str) -> (r: u64)
    ensures
        r == spec_city64(s@),
{
    cityhasher::hash::<u64>(s)
}

} // verus!
