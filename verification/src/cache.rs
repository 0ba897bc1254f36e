//! The parameter cache: an insertion-ordered map from parameter name to
//! parameter, kept in an `indexmap::IndexMap`.

use vstd::prelude::*;
use indexmap::IndexMap;
use crate::parameters::{Parameter, ParameterView};

verus! {

/// One entry of the map: the key's text and the parameter stored under it.
pub type Entry = (Seq<char>, ParameterView);

/// The entries that a parameter map holds, in the order of their insertion.
pub uninterp spec fn map_entries(m: IndexMap<String, Parameter>) -> Seq<Entry>;

/// The first position at which `entries` holds the key, if any.
pub open spec fn key_position(entries: Seq<Entry>, key: Seq<char>) -> Option<int>
    decreases entries.len(),
{
    if entries.len() == 0 {
        None
    } else {
        match key_position(entries.drop_last(), key) {
            Some(i) => Some(i),
            None => if entries.last().0 == key {
                Some(entries.len() - 1)
            } else {
                None
            },
        }
    }
}

/// `IndexMap::new`: a map without entries.
#[verifier::external_body]
fn map_new() -> (m: IndexMap<String, Parameter>)
    ensures
        map_entries(m) == Seq::<Entry>::empty(),
{
    IndexMap::new()
}

/// `IndexMap::len`: the number of entries.
#[verifier::external_body]
fn map_len(m: &IndexMap<String, Parameter>) -> (n: usize)
    ensures
        n == map_entries(*m).len(),
{
    m.len()
}

/// `IndexMap::get`: the parameter stored under the key, or nothing where
/// the map has no such key.
#[verifier::external_body]
fn map_get<'a>(m: &'a IndexMap<String, Parameter>, key: &str) -> (r: Option<&'a Parameter>)
    ensures
        match key_position(map_entries(*m), key@) {
            Some(i) => r matches Some(p) && p@ == map_entries(*m)[i].1,
            None => r is None,
        },
{
    m.get(key)
}

/// `IndexMap::insert`: under a key that the map holds, the value is replaced
/// in place and the old value returned; a new key goes to the end of the
/// order and nothing is returned.
#[verifier::external_body]
fn map_insert(m: &mut IndexMap<String, Parameter>, key: String, value: Parameter) -> (r: Option<
    Parameter,
>)
    ensures
        match key_position(map_entries(*old(m)), key@) {
            Some(i) => {
                &&& map_entries(*final(m)) == map_entries(*old(m)).update(i, (key@, value@))
                &&& r matches Some(p) && p@ == map_entries(*old(m))[i].1
            },
            None => {
                &&& map_entries(*final(m)) == map_entries(*old(m)).push((key@, value@))
                &&& r is None
            },
        },
{
    m.insert(key, value)
}

/// The parameter with the given name in a sequence of parameters, if any:
/// the first one, where several have the name.
pub open spec fn lookup(params: Seq<ParameterView>, name: Seq<char>) -> Option<ParameterView>
    decreases params.len(),
{
    if params.len() == 0 {
        None
    } else {
        match lookup(params.drop_last(), name) {
            Some(p) => Some(p),
            None => if params.last().name == name {
                Some(params.last())
            } else {
                None
            },
        }
    }
}

/// The position of the parameter that `lookup` finds.
pub open spec fn position(params: Seq<ParameterView>, name: Seq<char>) -> Option<int>
    decreases params.len(),
{
    if params.len() == 0 {
        None
    } else {
        match position(params.drop_last(), name) {
            Some(i) => Some(i),
            None => if params.last().name == name {
                Some(params.len() - 1)
            } else {
                None
            },
        }
    }
}

/// The sequence with `p` stored under its name: in the place of the
/// parameter that had the name, or at the end where none had it.
pub open spec fn upsert(params: Seq<ParameterView>, p: ParameterView) -> Seq<ParameterView> {
    match position(params, p.name) {
        Some(i) => params.update(i, p),
        None => params.push(p),
    }
}

/// No two parameters of the sequence have the same name.
pub open spec fn names_distinct(params: Seq<ParameterView>) -> bool {
    forall|i: int, j: int|
        0 <= i < params.len() && 0 <= j < params.len() && i != j ==> params[i].name
            != params[j].name
}

/// What `position` says of its result.
pub proof fn lemma_position(params: Seq<ParameterView>, name: Seq<char>)
    ensures
        match position(params, name) {
            Some(i) => 0 <= i < params.len() && params[i].name == name && lookup(params, name)
                == Some(params[i]),
            None => lookup(params, name) is None && forall|j: int|
                0 <= j < params.len() ==> params[j].name != name,
        },
    decreases params.len(),
{
    if params.len() > 0 {
        let front = params.drop_last();
        lemma_position(front, name);
        match position(front, name) {
            Some(i) => {
                assert(front[i] == params[i]);
            },
            None => {
                assert forall|j: int| 0 <= j < params.len() implies params[j].name != name
                    || j == params.len() - 1 by {
                    if j < front.len() {
                        assert(front[j] == params[j]);
                    }
                }
            },
        }
    }
}

/// Under distinct names, a parameter at some position is the one that
/// `lookup` finds under its name.
pub proof fn lemma_lookup_at(params: Seq<ParameterView>, i: int)
    requires
        names_distinct(params),
        0 <= i < params.len(),
    ensures
        position(params, params[i].name) == Some(i),
        lookup(params, params[i].name) == Some(params[i]),
{
    lemma_position(params, params[i].name);
}

/// Storing a parameter keeps the names distinct, makes it the one found
/// under its name, and leaves the parameters of other names as they were.
pub proof fn lemma_upsert(params: Seq<ParameterView>, p: ParameterView)
    requires
        names_distinct(params),
    ensures
        names_distinct(upsert(params, p)),
        lookup(upsert(params, p), p.name) == Some(p),
        forall|name: Seq<char>| name != p.name ==> lookup(upsert(params, p), name) == lookup(params, name),
        upsert(params, p).len() == params.len() + (if lookup(params, p.name) is Some {
            0int
        } else {
            1int
        }),
{
    lemma_position(params, p.name);
    let after = upsert(params, p);
    match position(params, p.name) {
        Some(i) => {
            assert(after[i] == p);
            lemma_lookup_at(after, i);
        },
        None => {
            assert(after[params.len() as int] == p);
            lemma_lookup_at(after, params.len() as int);
        },
    }
    assert forall|name: Seq<char>| name != p.name implies lookup(after, name) == lookup(
        params,
        name,
    ) by {
        lemma_position(params, name);
        lemma_position(after, name);
        match position(params, name) {
            Some(j) => {
                assert(after[j] == params[j]);
                lemma_lookup_at(after, j);
            },
            None => {
                match position(after, name) {
                    Some(k) => {
                        if k < params.len() {
                            assert(after[k].name == params[k].name);
                        }
                    },
                    None => {},
                }
            },
        }
    }
}

/// The cache of the autopilot's parameters, in the order in which they were
/// first seen, one entry per name.
pub struct ParamCache {
    map: IndexMap<String, Parameter>,
}

impl View for ParamCache {
    type V = Seq<ParameterView>;

    closed spec fn view(&self) -> Seq<ParameterView> {
        Seq::new(map_entries(self.map).len(), |i: int| map_entries(self.map)[i].1)
    }
}

impl ParamCache {
    /// Well-formedness: every entry is stored under its own name, and no
    /// name occurs twice.
    pub closed spec fn wf(&self) -> bool {
        &&& forall|i: int|
            0 <= i < map_entries(self.map).len() ==> (#[trigger] map_entries(self.map)[i]).0
                == map_entries(self.map)[i].1.name
        &&& names_distinct(self@)
    }

    /// In a well-formed cache no name occurs twice.
    pub proof fn lemma_wf(&self)
        requires
            self.wf(),
        ensures
            names_distinct(self@),
    {
    }

    proof fn lemma_positions(entries: Seq<Entry>, params: Seq<ParameterView>, key: Seq<char>)
        requires
            entries.len() == params.len(),
            forall|i: int|
                0 <= i < entries.len() ==> (#[trigger] entries[i]).0 == params[i].name
                    && entries[i].1 == params[i],
        ensures
            key_position(entries, key) == position(params, key),
        decreases entries.len(),
    {
        if entries.len() > 0 {
            ParamCache::lemma_positions(entries.drop_last(), params.drop_last(), key);
        }
    }

    /// A cache without parameters.
    pub fn new() -> (c: ParamCache)
        ensures
            c.wf(),
            c@ == Seq::<ParameterView>::empty(),
    {
        let c = ParamCache { map: map_new() };
        assert(c@ =~= Seq::<ParameterView>::empty());
        c
    }

    /// The number of parameters in the cache.
    pub fn len(&self) -> (n: usize)
        ensures
            n == self@.len(),
    {
        map_len(&self.map)
    }

    /// A copy of the parameter with the given name, if the cache has one.
    pub fn get(&self, name: &str) -> (r: Option<Parameter>)
        requires
            self.wf(),
        ensures
            match lookup(self@, name@) {
                Some(p) => r matches Some(q) && q@ == p,
                None => r is None,
            },
    {
        proof {
            ParamCache::lemma_positions(map_entries(self.map), self@, name@);
            lemma_position(self@, name@);
        }
        match map_get(&self.map, name) {
            Some(p) => Some(p.clone()),
            None => None,
        }
    }

    /// Stores the parameter under its name and returns the one that was
    /// stored there before, if any. A new name goes to the end of the order;
    /// a known name keeps its place.
    pub fn insert(&mut self, parameter: Parameter) -> (r: Option<Parameter>)
        requires
            old(self).wf(),
        ensures
            final(self).wf(),
            final(self)@ == upsert(old(self)@, parameter@),
            match lookup(old(self)@, parameter@.name) {
                Some(p) => r matches Some(q) && q@ == p,
                None => r is None,
            },
    {
        proof {
            ParamCache::lemma_positions(map_entries(self.map), self@, parameter@.name);
            lemma_position(self@, parameter@.name);
            lemma_upsert(self@, parameter@);
        }
        let ghost before = map_entries(self.map);
        let ghost params = self@;
        let key = parameter.name.clone();
        let r = map_insert(&mut self.map, key, parameter);
        proof {
            let after = map_entries(self.map);
            assert(self@ =~= upsert(params, parameter@));
            assert forall|i: int| 0 <= i < after.len() implies (#[trigger] after[i]).0
                == after[i].1.name by {
                if i < before.len() {
                    assert(before[i].0 == before[i].1.name);
                }
            }
        }
        r
    }
}

} // verus!
