//! The per-camera record of actuator configuration and the insertion-ordered
//! store of those records, kept in an `indexmap::IndexMap` under the camera's
//! 128-bit identifier.

use vstd::prelude::*;
use indexmap::IndexMap;
use crate::api::{
    ActuatorsConfig, ActuatorsConfigView, ActuatorsState, FocusZoomPoint, FocusZoomPoints,
};
use crate::parameters::ActuatorsParameters;

verus! {

/// The calibration table for the closest focus distance of a camera that
/// was never calibrated.
pub open spec fn closest_points() -> Seq<FocusZoomPoint> {
    seq![
        FocusZoomPoint { zoom: 900, focus: 882 },
        FocusZoomPoint { zoom: 1100, focus: 1253 },
        FocusZoomPoint { zoom: 1300, focus: 1498 },
        FocusZoomPoint { zoom: 1500, focus: 1669 },
        FocusZoomPoint { zoom: 1700, focus: 1759 },
        FocusZoomPoint { zoom: 1900, focus: 1862 },
        FocusZoomPoint { zoom: 2100, focus: 1883 },
    ]
}

/// The calibration table for the furthest focus distance of a camera that
/// was never calibrated.
pub open spec fn furthest_points() -> Seq<FocusZoomPoint> {
    seq![
        FocusZoomPoint { zoom: 900, focus: 935 },
        FocusZoomPoint { zoom: 1100, focus: 1305 },
        FocusZoomPoint { zoom: 1300, focus: 1520 },
        FocusZoomPoint { zoom: 1500, focus: 1696 },
        FocusZoomPoint { zoom: 1700, focus: 1811 },
        FocusZoomPoint { zoom: 1900, focus: 1911 },
        FocusZoomPoint { zoom: 2100, focus: 1930 },
    ]
}

/// The default table for the closest focus distance.
pub fn default_closest_points() -> (r: FocusZoomPoints)
    ensures
        r@ == closest_points(),
{
    let mut v: Vec<FocusZoomPoint> = Vec::new();
    v.push(FocusZoomPoint { zoom: 900, focus: 882 });
    v.push(FocusZoomPoint { zoom: 1100, focus: 1253 });
    v.push(FocusZoomPoint { zoom: 1300, focus: 1498 });
    v.push(FocusZoomPoint { zoom: 1500, focus: 1669 });
    v.push(FocusZoomPoint { zoom: 1700, focus: 1759 });
    v.push(FocusZoomPoint { zoom: 1900, focus: 1862 });
    v.push(FocusZoomPoint { zoom: 2100, focus: 1883 });
    assert(v@ =~= closest_points());
    FocusZoomPoints(v)
}

/// The default table for the furthest focus distance.
pub fn default_furthest_points() -> (r: FocusZoomPoints)
    ensures
        r@ == furthest_points(),
{
    let mut v: Vec<FocusZoomPoint> = Vec::new();
    v.push(FocusZoomPoint { zoom: 900, focus: 935 });
    v.push(FocusZoomPoint { zoom: 1100, focus: 1305 });
    v.push(FocusZoomPoint { zoom: 1300, focus: 1520 });
    v.push(FocusZoomPoint { zoom: 1500, focus: 1696 });
    v.push(FocusZoomPoint { zoom: 1700, focus: 1811 });
    v.push(FocusZoomPoint { zoom: 1900, focus: 1911 });
    v.push(FocusZoomPoint { zoom: 2100, focus: 1930 });
    assert(v@ =~= furthest_points());
    FocusZoomPoints(v)
}

/// Everything that is known of one camera's actuators.
#[derive(Debug, PartialEq, Eq)]
pub struct CameraActuators {
    pub parameters: ActuatorsParameters,
    pub closest_points: FocusZoomPoints,
    pub furthest_points: FocusZoomPoints,
    pub state: ActuatorsState,
}

/// The mathematical value of a [`CameraActuators`].
pub struct CameraActuatorsView {
    pub parameters: ActuatorsParameters,
    pub closest_points: Seq<FocusZoomPoint>,
    pub furthest_points: Seq<FocusZoomPoint>,
    pub state: ActuatorsState,
}

impl View for CameraActuators {
    type V = CameraActuatorsView;

    open spec fn view(&self) -> CameraActuatorsView {
        CameraActuatorsView {
            parameters: self.parameters,
            closest_points: self.closest_points@,
            furthest_points: self.furthest_points@,
            state: self.state,
        }
    }
}

impl CameraActuatorsView {
    /// The record of a camera that was never configured.
    pub open spec fn default() -> CameraActuatorsView {
        CameraActuatorsView {
            parameters: ActuatorsParameters::spec_default(),
            closest_points: closest_points(),
            furthest_points: furthest_points(),
            state: ActuatorsState { focus: None, zoom: None, tilt: None },
        }
    }

    /// The patch that names every part of the record with its value.
    pub open spec fn to_config(self) -> ActuatorsConfigView {
        ActuatorsConfigView {
            parameters: Some(self.parameters.spec_to_config()),
            closest_points: Some(self.closest_points),
            furthest_points: Some(self.furthest_points),
        }
    }
}

impl Default for CameraActuators {
    fn default() -> (r: Self)
        ensures
            r@ == CameraActuatorsView::default(),
    {
        CameraActuators {
            parameters: ActuatorsParameters::default(),
            closest_points: default_closest_points(),
            furthest_points: default_furthest_points(),
            state: ActuatorsState::default(),
        }
    }
}

impl Clone for CameraActuators {
    fn clone(&self) -> (r: Self)
        ensures
            r@ == self@,
    {
        CameraActuators {
            parameters: self.parameters,
            closest_points: self.closest_points.clone(),
            furthest_points: self.furthest_points.clone(),
            state: self.state,
        }
    }
}

impl CameraActuators {
    /// The patch that names every part of the record with its value.
    pub fn to_config(&self) -> (r: ActuatorsConfig)
        ensures
            r@ == self@.to_config(),
    {
        ActuatorsConfig {
            parameters: Some(self.parameters.to_config()),
            closest_points: Some(self.closest_points.clone()),
            furthest_points: Some(self.furthest_points.clone()),
        }
    }
}

/// One entry of the store: the camera's identifier and its record.
pub type Entry = (u128, CameraActuatorsView);

/// The entries that a map of camera records holds, in the order of their
/// insertion.
pub uninterp spec fn map_entries(m: IndexMap<u128, CameraActuators>) -> Seq<Entry>;

/// The first position at which `entries` holds the key, if any.
pub open spec fn position(entries: Seq<Entry>, key: u128) -> Option<int>
    decreases entries.len(),
{
    if entries.len() == 0 {
        None
    } else {
        match position(entries.drop_last(), key) {
            Some(i) => Some(i),
            None => if entries.last().0 == key {
                Some(entries.len() - 1)
            } else {
                None
            },
        }
    }
}

/// The record stored under the key, if any.
pub open spec fn lookup(entries: Seq<Entry>, key: u128) -> Option<CameraActuatorsView> {
    match position(entries, key) {
        Some(i) => Some(entries[i].1),
        None => None,
    }
}

/// The entries with `value` stored under `key`: in the place of the record
/// that was stored there, or at the end where the key is new.
pub open spec fn upsert(entries: Seq<Entry>, key: u128, value: CameraActuatorsView) -> Seq<
    Entry,
> {
    match position(entries, key) {
        Some(i) => entries.update(i, (key, value)),
        None => entries.push((key, value)),
    }
}

/// No two entries have the same key.
pub open spec fn keys_distinct(entries: Seq<Entry>) -> bool {
    forall|i: int, j: int|
        0 <= i < entries.len() && 0 <= j < entries.len() && i != j ==> entries[i].0
            != entries[j].0
}

/// What `position` says of its result.
pub proof fn lemma_position(entries: Seq<Entry>, key: u128)
    ensures
        match position(entries, key) {
            Some(i) => 0 <= i < entries.len() && entries[i].0 == key,
            None => forall|j: int| 0 <= j < entries.len() ==> entries[j].0 != key,
        },
    decreases entries.len(),
{
    if entries.len() > 0 {
        let front = entries.drop_last();
        lemma_position(front, key);
        match position(front, key) {
            Some(i) => {
                assert(front[i] == entries[i]);
            },
            None => {
                assert forall|j: int| 0 <= j < entries.len() implies entries[j].0 != key || j
                    == entries.len() - 1 by {
                    if j < front.len() {
                        assert(front[j] == entries[j]);
                    }
                }
            },
        }
    }
}

/// Under distinct keys, the entry at a position is the one found under its
/// key.
pub proof fn lemma_lookup_at(entries: Seq<Entry>, i: int)
    requires
        keys_distinct(entries),
        0 <= i < entries.len(),
    ensures
        position(entries, entries[i].0) == Some(i),
        lookup(entries, entries[i].0) == Some(entries[i].1),
{
    lemma_position(entries, entries[i].0);
}

/// Storing a record keeps the keys distinct, makes it the one found under
/// its key, and leaves the records of other keys as they were.
pub proof fn lemma_upsert(entries: Seq<Entry>, key: u128, value: CameraActuatorsView)
    requires
        keys_distinct(entries),
    ensures
        keys_distinct(upsert(entries, key, value)),
        lookup(upsert(entries, key, value), key) == Some(value),
        forall|other: u128|
            other != key ==> lookup(upsert(entries, key, value), other) == lookup(entries, other),
{
    lemma_position(entries, key);
    let after = upsert(entries, key, value);
    match position(entries, key) {
        Some(i) => {
            assert(after[i] == (key, value));
            lemma_lookup_at(after, i);
        },
        None => {
            assert(after[entries.len() as int] == (key, value));
            lemma_lookup_at(after, entries.len() as int);
        },
    }
    assert forall|other: u128| other != key implies lookup(after, other) == lookup(
        entries,
        other,
    ) by {
        lemma_position(entries, other);
        lemma_position(after, other);
        match position(entries, other) {
            Some(j) => {
                assert(after[j] == entries[j]);
                lemma_lookup_at(after, j);
            },
            None => {
                match position(after, other) {
                    Some(k) => {
                        if k < entries.len() {
                            assert(after[k].0 == entries[k].0);
                        }
                    },
                    None => {},
                }
            },
        }
    }
}

/// `IndexMap::new`: a map without entries.
#[verifier::external_body]
fn map_new() -> (m: IndexMap<u128, CameraActuators>)
    ensures
        map_entries(m) == Seq::<Entry>::empty(),
{
    IndexMap::new()
}

/// `IndexMap::len`: the number of entries.
#[verifier::external_body]
fn map_len(m: &IndexMap<u128, CameraActuators>) -> (n: usize)
    ensures
        n == map_entries(*m).len(),
{
    m.len()
}

/// `IndexMap::get`: the record stored under the key, or nothing where the
/// map has no such key.
#[verifier::external_body]
fn map_get<'a>(m: &'a IndexMap<u128, CameraActuators>, key: &u128) -> (r: Option<
    &'a CameraActuators,
>)
    ensures
        match position(map_entries(*m), *key) {
            Some(i) => r matches Some(p) && p@ == map_entries(*m)[i].1,
            None => r is None,
        },
{
    m.get(key)
}

/// `IndexMap::get_index`: the entry at a position of the insertion order,
/// or nothing past the end.
#[verifier::external_body]
fn map_get_index<'a>(m: &'a IndexMap<u128, CameraActuators>, index: usize) -> (r: Option<
    (&'a u128, &'a CameraActuators),
>)
    ensures
        match r {
            Some((k, v)) => index < map_entries(*m).len() && *k == map_entries(*m)[index as int].0
                && v@ == map_entries(*m)[index as int].1,
            None => index >= map_entries(*m).len(),
        },
{
    m.get_index(index)
}

/// `IndexMap::insert`: under a key that the map holds, the record is
/// replaced in place and the old one returned; a new key goes to the end of
/// the order and nothing is returned.
#[verifier::external_body]
fn map_insert(m: &mut IndexMap<u128, CameraActuators>, key: u128, value: CameraActuators) -> (r:
    Option<CameraActuators>)
    ensures
        match position(map_entries(*old(m)), key) {
            Some(i) => {
                &&& map_entries(*final(m)) == map_entries(*old(m)).update(i, (key, value@))
                &&& r matches Some(p) && p@ == map_entries(*old(m))[i].1
            },
            None => {
                &&& map_entries(*final(m)) == map_entries(*old(m)).push((key, value@))
                &&& r is None
            },
        },
{
    m.insert(key, value)
}

/// `IndexMap::clear`: removes every entry.
#[verifier::external_body]
fn map_clear(m: &mut IndexMap<u128, CameraActuators>)
    ensures
        map_entries(*final(m)) == Seq::<Entry>::empty(),
{
    m.clear()
}

/// The records of all cameras, in the order in which the cameras were first
/// configured, one record per camera.
pub struct State {
    actuators: IndexMap<u128, CameraActuators>,
}

impl View for State {
    type V = Seq<Entry>;

    closed spec fn view(&self) -> Seq<Entry> {
        map_entries(self.actuators)
    }
}

impl State {
    /// Well-formedness: no camera has two records.
    pub open spec fn wf(&self) -> bool {
        keys_distinct(self@)
    }

    /// A store without records.
    pub fn new() -> (s: State)
        ensures
            s.wf(),
            s@ == Seq::<Entry>::empty(),
    {
        State { actuators: map_new() }
    }

    /// The number of cameras with a record.
    pub fn len(&self) -> (n: usize)
        ensures
            n == self@.len(),
    {
        map_len(&self.actuators)
    }

    /// A copy of the camera's record, if it has one.
    pub fn get(&self, camera_uuid: u128) -> (r: Option<CameraActuators>)
        ensures
            match lookup(self@, camera_uuid) {
                Some(v) => r matches Some(a) && a@ == v,
                None => r is None,
            },
    {
        match map_get(&self.actuators, &camera_uuid) {
            Some(a) => Some(a.clone()),
            None => None,
        }
    }

    /// The camera and a copy of its record at a position of the order, or
    /// nothing past the end.
    pub fn get_index(&self, index: usize) -> (r: Option<(u128, CameraActuators)>)
        ensures
            match r {
                Some((k, a)) => index < self@.len() && k == self@[index as int].0 && a@
                    == self@[index as int].1,
                None => index >= self@.len(),
            },
    {
        match map_get_index(&self.actuators, index) {
            Some((k, a)) => Some((*k, a.clone())),
            None => None,
        }
    }

    /// Stores the record under the camera and returns the one that was
    /// stored there before, if any. A new camera goes to the end of the
    /// order; a known camera keeps its place.
    pub fn insert(&mut self, camera_uuid: u128, actuators: CameraActuators) -> (r: Option<
        CameraActuators,
    >)
        requires
            old(self).wf(),
        ensures
            final(self).wf(),
            final(self)@ == upsert(old(self)@, camera_uuid, actuators@),
            lookup(final(self)@, camera_uuid) == Some(actuators@),
            forall|other: u128|
                other != camera_uuid ==> lookup(final(self)@, other) == lookup(old(self)@, other),
            match lookup(old(self)@, camera_uuid) {
                Some(v) => r matches Some(a) && a@ == v,
                None => r is None,
            },
    {
        proof {
            lemma_upsert(self@, camera_uuid, actuators@);
        }
        map_insert(&mut self.actuators, camera_uuid, actuators)
    }

    /// Removes every record.
    pub fn clear(&mut self)
        ensures
            final(self).wf(),
            final(self)@ == Seq::<Entry>::empty(),
    {
        map_clear(&mut self.actuators)
    }

    /// A copy of the store: the same records in the same order.
    pub fn duplicate(&self) -> (r: State)
        requires
            self.wf(),
        ensures
            r.wf(),
            r@ == self@,
    {
        let mut copy = State::new();
        let mut index: usize = 0;
        let count = self.len();
        while index < count
            invariant
                index <= count,
                count == self@.len(),
                self.wf(),
                copy.wf(),
                copy@ == self@.take(index as int),
            decreases count - index,
        {
            match self.get_index(index) {
                Some((camera_uuid, record)) => {
                    proof {
                        let front = self@.take(index as int);
                        lemma_position(front, camera_uuid);
                        assert forall|j: int| 0 <= j < front.len() implies front[j].0
                            != camera_uuid by {
                            assert(front[j] == self@[j]);
                        }
                        assert(position(front, camera_uuid) is None);
                    }
                    copy.insert(camera_uuid, record);
                    assert(copy@ =~= self@.take(index + 1));
                },
                None => {},
            }
            index += 1;
        }
        assert(self@.take(count as int) =~= self@);
        copy
    }

    /// A copy of the camera's record, or of the default record where the
    /// camera has none.
    pub fn get_or_default(&self, camera_uuid: u128) -> (r: CameraActuators)
        ensures
            r@ == (match lookup(self@, camera_uuid) {
                Some(v) => v,
                None => CameraActuatorsView::default(),
            }),
    {
        match self.get(camera_uuid) {
            Some(a) => a,
            None => CameraActuators::default(),
        }
    }
}

} // verus!
