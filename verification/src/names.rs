//! The name forest: every file or resource carries a name segment and a
//! parent, and a full path is the chain of segments from the root down,
//! joined with `/`.
//!
//! Corrupted input can tie the parent chain into a cycle, so the walk is
//! bounded: it gives up after a fixed number of steps instead of
//! recursing or spinning.

use vstd::prelude::*;

verus! {

use std::collections::HashMap;
use crate::identifiers::ResourceId;

broadcast use vstd::std_specs::hash::group_hash_axioms;

/// The byte that joins path segments.
pub const PATH_SEPARATOR: u8 = 47;

/// Whether a raw 64-bit identifier can take part in a chain.
pub open spec fn spec_id_valid(id: u64) -> bool {
    0 < id && id < 0xFFFF_FFFF_FFFF_FFFF
}

/// A name forest: each identifier maps to its segment bytes and the
/// identifier of its parent.
pub struct NameMap {
    map: HashMap<u64, (Vec<u8>, ResourceId)>,
}

impl View for NameMap {
    type V = Map<u64, (Seq<u8>, u64)>;

    closed spec fn view(&self) -> Map<u64, (Seq<u8>, u64)> {
        self.map@.map_values(|v: (Vec<u8>, ResourceId)| (v.0@, v.1.0))
    }
}

impl NameMap {
    /// An empty forest.
    pub fn new() -> (r: Self)
        ensures
            r@ == Map::<u64, (Seq<u8>, u64)>::empty(),
    {
        let r = NameMap { map: HashMap::new() };
        proof {
            assert(r@ =~= Map::<u64, (Seq<u8>, u64)>::empty());
        }
        r
    }

    /// How many names the forest holds.
    pub fn len(&self) -> (r: usize)
        ensures
            r == self@.dom().len(),
    {
        proof {
            assert(self@.dom() =~= self.map@.dom());
        }
        self.map.len()
    }

    /// Record `id`'s segment and parent, replacing any earlier entry.
    pub fn insert(&mut self, id: ResourceId, segment: Vec<u8>, parent: ResourceId)
        ensures
            final(self)@ == old(self)@.insert(id.0, (segment@, parent.0)),
    {
        let ghost seg = segment@;
        self.map.insert(id.0, (segment, parent));
        proof {
            assert(self@ =~= old(self)@.insert(id.0, (seg, parent.0)));
        }
    }

    /// The segment and parent of `id`, if the forest knows it.
    pub fn get(&self, id: u64) -> (r: Option<(&Vec<u8>, ResourceId)>)
        ensures
            match r {
                Some((seg, parent)) => self@.contains_key(id) && seg@ == self@[id].0 && parent.0
                    == self@[id].1,
                None => !self@.contains_key(id),
            },
    {
        match self.map.get(&id) {
            Some(v) => Some((&v.0, v.1)),
            None => None,
        }
    }

    /// The full path of `id`: its chain of segments joined root-first
    /// with the separator, or nothing when the chain yields no segment.
    /// The walk stops after `self@.dom().len() + 1` steps.
    pub fn full_path(&self, id: ResourceId) -> (r: Option<Vec<u8>>)
        ensures
            match r {
                Some(p) => Some(p@) == spec_chain_path(self@, id.0, self@.dom().len() as int + 1),
                None => spec_chain_path(self@, id.0, self@.dom().len() as int + 1) is None,
            },
    {
        let limit: u128 = self.len() as u128 + 1;
        let ghost m = self@;
        let ghost fuel0 = self@.dom().len() as int + 1;

        let mut target: u64 = id.0;
        let mut acc: Option<Vec<u8>> = None;
        let mut steps: u128 = 0;

        loop
            invariant
                m == self@,
                fuel0 == m.dom().len() as int + 1,
                limit as int == fuel0,
                steps <= limit,
                match acc {
                    Some(p) => steps >= 1 && spec_chain_path(m, id.0, fuel0) == (
                    match spec_chain_path(m, target, fuel0 - steps) {
                        Some(pre) => Some(pre + seq![PATH_SEPARATOR] + p@),
                        None => Some(p@),
                    }),
                    None => steps == 0 && target == id.0,
                },
            decreases limit - steps,
        {
            if steps >= limit {
                proof {
                    lemma_chain_fuel_cap(m, target, fuel0 - steps);
                }
                return acc;
            }
            if !(target > 0 && target < 0xFFFF_FFFF_FFFF_FFFF) {
                return acc;
            }
            match self.get(target) {
                None => {
                    return acc;
                },
                Some((seg, parent)) => {
                    let mut piece = seg.clone();
                    let new_acc = match acc {
                        Some(p) => {
                            let mut joined = piece;
                            joined.push(PATH_SEPARATOR);
                            let mut tail = p;
                            joined.append(&mut tail);
                            joined
                        },
                        None => piece,
                    };
                    acc = Some(new_acc);
                    target = parent.0;
                    steps = steps + 1;
                },
            }
        }
    }
}

/// The path that the bounded chain walk yields for `id`: the walk
/// follows parents while the identifier is valid, known and fuel
/// remains; the path is the segments met, joined root-first.
pub open spec fn spec_chain_path(m: Map<u64, (Seq<u8>, u64)>, id: u64, fuel: int) -> Option<
    Seq<u8>,
>
    decreases fuel,
{
    if fuel <= 0 {
        None
    } else if !spec_id_valid(id) {
        None
    } else if !m.contains_key(id) {
        None
    } else {
        let seg = m[id].0;
        let parent = m[id].1;
        match spec_chain_path(m, parent, fuel - 1) {
            Some(pre) => Some(pre + seq![PATH_SEPARATOR] + seg),
            None => Some(seg),
        }
    }
}

/// With no fuel left the walk yields nothing.
proof fn lemma_chain_fuel_cap(m: Map<u64, (Seq<u8>, u64)>, id: u64, fuel: int)
    requires
        fuel <= 0,
    ensures
        spec_chain_path(m, id, fuel) is None,
{
}

/// When every stored segment is non-empty, every path the walk yields is
/// non-empty.
pub proof fn lemma_chain_path_nonempty(m: Map<u64, (Seq<u8>, u64)>, id: u64, fuel: int)
    requires
        forall|k: u64| #[trigger] m.contains_key(k) ==> m[k].0.len() > 0,
    ensures
        match spec_chain_path(m, id, fuel) {
            Some(p) => p.len() > 0,
            None => true,
        },
    decreases fuel,
{
    if fuel > 0 && spec_id_valid(id) && m.contains_key(id) {
        lemma_chain_path_nonempty(m, m[id].1, fuel - 1);
    }
}

/// What interning the full paths of `ids[0..n)` adds to a resource
/// lookup whose content is `m`: for every identifier whose chain yields
/// a path, the lossy decode of that path, under the walk's own fuel.
pub open spec fn spec_intern_paths(
    names: Map<u64, (Seq<u8>, u64)>,
    ids: Seq<crate::identifiers::ResourceId>,
    m: Map<u64, Seq<char>>,
    n: int,
) -> Map<u64, Seq<char>>
    decreases n,
{
    if n <= 0 {
        m
    } else {
        let m1 = spec_intern_paths(names, ids, m, n - 1);
        let id = ids[n - 1];
        match spec_chain_path(names, id.0, names.dom().len() as int + 1) {
            Some(p) => crate::identifiers::spec_lookup_insert(
                m1,
                id.spec_is_valid(),
                id.0,
                crate::reader::spec_lossy(p),
            ),
            None => m1,
        }
    }
}

/// Walk the chain of every identifier in `ids` and intern each full path
/// that the forest yields. When every stored segment is non-empty, every
/// valid identifier whose chain yields a path ends up bound to a
/// non-empty name.
pub fn intern_paths(
    names: &NameMap,
    ids: &Vec<crate::identifiers::ResourceId>,
    lookup: &mut crate::identifiers::ResourceLookup,
)
    ensures
        final(lookup)@ == spec_intern_paths(names@, ids@, old(lookup)@, ids@.len() as int),
        (forall|k: u64| #[trigger] names@.contains_key(k) ==> names@[k].0.len() > 0) ==> forall|
            j: int,
        |
            0 <= j < ids@.len() && (#[trigger] ids@[j]).spec_is_valid() && spec_chain_path(
                names@,
                ids@[j].0,
                names@.dom().len() as int + 1,
            ) is Some ==> final(lookup)@.contains_key(ids@[j].0) && final(lookup)@[ids@[j].0].len()
                > 0,
{
    let ghost m_names = names@;
    let ghost m0 = lookup@;
    let n = ids.len();
    let mut j: usize = 0;
    while j < n
        invariant
            j <= n,
            n == ids@.len(),
            m_names == names@,
            lookup@ == spec_intern_paths(m_names, ids@, m0, j as int),
            (forall|k: u64| #[trigger] m_names.contains_key(k) ==> m_names[k].0.len() > 0)
                ==> forall|i: int|
                0 <= i < j && (#[trigger] ids@[i]).spec_is_valid() && spec_chain_path(
                    m_names,
                    ids@[i].0,
                    m_names.dom().len() as int + 1,
                ) is Some ==> lookup@.contains_key(ids@[i].0) && lookup@[ids@[i].0].len() > 0,
        decreases n - j,
    {
        let id = ids[j];
        match names.full_path(id) {
            Some(path) => {
                proof {
                    if forall|k: u64| #[trigger] m_names.contains_key(k) ==> m_names[k].0.len()
                        > 0 {
                        lemma_chain_path_nonempty(
                            m_names,
                            id.0,
                            m_names.dom().len() as int + 1,
                        );
                    }
                }
                let text = crate::reader::bytes_to_string_lossy(&path);
                crate::identifiers::ResourceId::insert(lookup, id, text.as_str());
            },
            None => (),
        }
        j = j + 1;
    }
}

} // verus!
