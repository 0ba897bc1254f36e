//! The rules of the persistent settings store: the shape of the versioned
//! document, the migration of old documents, which file a load reads, and
//! when a save writes and rotates.
//!
//! The store itself reads and writes files and turns text into values; that
//! happens around this library. Here are the decisions.

use vstd::prelude::*;
use vstd::string::*;
use crate::actuators::{CameraActuators, CameraActuatorsView, Entry, State};
use crate::api::{ActuatorsState, FocusZoomPoints};
use crate::error::CoreError;
use crate::parameters::ActuatorsParameters;
use crate::text::{
    ends_with, has_prefix, has_suffix, push_signed_decimal, same_text, signed_decimal,
    starts_with,
};

verus! {

/// The first version of the document: an empty placeholder.
#[derive(Debug, Clone, Copy, PartialEq, Eq, Structural)]
pub struct SettingsDataV0;

/// The two calibration tables of a camera, as the document groups them.
#[derive(Debug, PartialEq, Eq)]
pub struct Calibration {
    pub closest_points: FocusZoomPoints,
    pub furthest_points: FocusZoomPoints,
}

/// One camera's record in the shape of the document.
#[derive(Debug, PartialEq, Eq)]
pub struct CameraActuatorsSettings {
    pub parameters: ActuatorsParameters,
    pub calibration: Calibration,
    pub state: ActuatorsState,
}

impl View for CameraActuatorsSettings {
    type V = CameraActuatorsView;

    open spec fn view(&self) -> CameraActuatorsView {
        CameraActuatorsView {
            parameters: self.parameters,
            closest_points: self.calibration.closest_points@,
            furthest_points: self.calibration.furthest_points@,
            state: self.state,
        }
    }
}

impl CameraActuatorsSettings {
    /// The record in the shape of the document.
    pub fn from_actuators(value: &CameraActuators) -> (r: CameraActuatorsSettings)
        ensures
            r@ == value@,
    {
        CameraActuatorsSettings {
            parameters: value.parameters,
            calibration: Calibration {
                closest_points: value.closest_points.clone(),
                furthest_points: value.furthest_points.clone(),
            },
            state: value.state,
        }
    }

    /// The record in the shape that the manager works on.
    pub fn to_actuators(&self) -> (r: CameraActuators)
        ensures
            r@ == self@,
    {
        CameraActuators {
            parameters: self.parameters,
            closest_points: self.calibration.closest_points.clone(),
            furthest_points: self.calibration.furthest_points.clone(),
            state: self.state,
        }
    }
}

/// The current version of the document: the records of all cameras.
pub struct SettingsDataV1 {
    pub actuators: State,
}

/// A document of any version.
pub enum RawSettingsData {
    V0(SettingsDataV0),
    V1(SettingsDataV1),
}

impl SettingsDataV1 {
    /// What the placeholder version becomes: a document without records.
    pub fn from(_v0: SettingsDataV0) -> (r: SettingsDataV1)
        ensures
            r.actuators.wf(),
            r.actuators@ == Seq::<Entry>::empty(),
    {
        SettingsDataV1 { actuators: State::new() }
    }

    /// The document as one of any version: always the current one.
    pub fn to_raw(self) -> (r: RawSettingsData)
        ensures
            r == RawSettingsData::V1(self),
    {
        RawSettingsData::V1(self)
    }
}

impl RawSettingsData {
    /// The version tag of the document.
    pub open spec fn spec_version(&self) -> Seq<char> {
        match self {
            RawSettingsData::V0(_) => "V0"@,
            RawSettingsData::V1(_) => "V1"@,
        }
    }

    /// The version tag of the document.
    pub fn version(&self) -> (tag: &'static str)
        ensures
            tag@ == self.spec_version(),
    {
        match self {
            RawSettingsData::V0(_) => "V0",
            RawSettingsData::V1(_) => "V1",
        }
    }

    /// The document in the current version, and whether it had to be
    /// migrated. A current document is taken as it is; the placeholder
    /// version becomes a document without records.
    pub fn into_current(self) -> (r: (SettingsDataV1, bool))
        requires
            self matches RawSettingsData::V1(v1) ==> v1.actuators.wf(),
        ensures
            r.0.actuators.wf(),
            match self {
                RawSettingsData::V0(_) => r.1 && r.0.actuators@ == Seq::<Entry>::empty(),
                RawSettingsData::V1(v1) => !r.1 && r.0 == v1,
            },
    {
        match self {
            RawSettingsData::V0(v0) => (SettingsDataV1::from(v0), true),
            RawSettingsData::V1(v1) => (v1, false),
        }
    }
}

/// Settings migration: a document of the placeholder version loads as a
/// current document without records, and what is written back is of the
/// current version.
pub proof fn lemma_migration(v1: SettingsDataV1)
    ensures
        RawSettingsData::V1(v1).spec_version() == "V1"@,
        RawSettingsData::V0(SettingsDataV0).spec_version() == "V0"@,
        "V0"@ != "V1"@,
{
    reveal_strlit("V0");
    reveal_strlit("V1");
    assert("V0"@[1] != "V1"@[1]);
}

/// The settings in memory and the path of their file.
pub struct Settings {
    pub path: String,
    pub inner: SettingsDataV1,
}

impl Settings {
    /// Settings with the given records, to be kept at the given path.
    pub fn try_new(path: String, actuators: State) -> (s: Settings)
        ensures
            s.path == path,
            s.inner.actuators == actuators,
    {
        Settings { path, inner: SettingsDataV1 { actuators } }
    }

    /// The settings that a load gives: the document that was read, brought
    /// to the current version, and kept at the path of the settings file,
    /// whichever file the document was read from. So a later save of
    /// settings that came from a backup writes the settings file. Says also
    /// whether the document had to be migrated.
    pub fn read_inner(path: String, raw: RawSettingsData) -> (r: (Settings, bool))
        requires
            raw matches RawSettingsData::V1(v1) ==> v1.actuators.wf(),
        ensures
            r.0.path == path,
            r.0.inner.actuators.wf(),
            match raw {
                RawSettingsData::V0(_) => r.1 && r.0.inner.actuators@ == Seq::<Entry>::empty(),
                RawSettingsData::V1(v1) => !r.1 && r.0.inner == v1,
            },
    {
        let (inner, migrated) = raw.into_current();
        (Settings { path, inner }, migrated)
    }

    /// The records of all cameras.
    pub fn get_actuators(&self) -> (r: &State)
        ensures
            *r == self.inner.actuators,
    {
        &self.inner.actuators
    }

    /// The records of all cameras, to be changed in place.
    pub fn get_actuators_mut(&mut self) -> (r: &mut State)
        ensures
            *r == old(self).inner.actuators,
            final(self).inner.actuators == *final(r),
            final(self).path == old(self).path,
    {
        &mut self.inner.actuators
    }

    /// Forgets every record, as a reset of the store does before the file is
    /// removed.
    pub fn reset(&mut self)
        ensures
            final(self).inner.actuators.wf(),
            final(self).inner.actuators@ == Seq::<Entry>::empty(),
            final(self).path == old(self).path,
    {
        self.inner.actuators = State::new();
    }
}

/// What is known of a file in the directory of the settings file: its name
/// and, where the file system tells, when it was last modified.
#[derive(Debug, PartialEq, Eq)]
pub struct BackupEntry {
    pub file_name: String,
    pub modified: Option<u64>,
}

/// The first part of the name of every backup.
pub const BACKUP_PREFIX: &'static str = "settings.json.";

/// The last part of the name of every backup.
pub const BACKUP_SUFFIX: &'static str = ".bak";

/// Whether a file name is that of a backup: `settings.json.`, anything,
/// `.bak`.
pub open spec fn is_backup_name(name: Seq<char>) -> bool {
    has_prefix(name, BACKUP_PREFIX@) && has_suffix(name, BACKUP_SUFFIX@)
}

/// The age rank of a file: files without a modification time rank below
/// all others.
pub open spec fn rank(modified: Option<u64>) -> int {
    match modified {
        Some(t) => t as int,
        None => -1,
    }
}

/// Whether position `i` holds the backup that a load falls back to: a
/// backup that no other backup outranks, and the last one of that rank.
pub open spec fn is_latest_backup(entries: Seq<(Seq<char>, Option<u64>)>, i: int) -> bool {
    &&& 0 <= i < entries.len()
    &&& is_backup_name(entries[i].0)
    &&& forall|j: int|
        0 <= j < entries.len() && is_backup_name(#[trigger] entries[j].0) ==> rank(entries[j].1)
            <= rank(entries[i].1)
    &&& forall|j: int|
        i < j < entries.len() && is_backup_name(#[trigger] entries[j].0) ==> rank(entries[j].1)
            < rank(entries[i].1)
}

/// The names and times of a list of directory entries.
pub open spec fn entries_view(entries: Seq<BackupEntry>) -> Seq<(Seq<char>, Option<u64>)> {
    Seq::new(entries.len(), |i: int| (entries[i].file_name@, entries[i].modified))
}

/// What a load finds at the path of the settings file.
#[derive(Debug, Clone, Copy, PartialEq, Eq, Structural)]
pub enum PrimaryFile {
    /// There is no such file.
    Missing,
    /// The file holds a settings document.
    Valid,
    /// The file cannot be read as a settings document.
    Corrupt,
}

/// Where a load reads the settings from.
#[derive(Debug, Clone, Copy, PartialEq, Eq, Structural)]
pub enum LoadSource {
    /// The settings file itself.
    Primary,
    /// The backup at this position of the directory listing.
    Backup(usize),
    /// Nothing: there is neither a settings file nor a backup.
    Missing,
}

/// Whether a file name is that of a backup.
pub fn backup_name(name: &str) -> (r: bool)
    ensures
        r == is_backup_name(name@),
{
    starts_with(name, BACKUP_PREFIX) && ends_with(name, BACKUP_SUFFIX)
}

fn outranks(a: Option<u64>, b: Option<u64>) -> (r: bool)
    ensures
        r == (rank(a) >= rank(b)),
{
    match (a, b) {
        (Some(x), Some(y)) => x >= y,
        (Some(_), None) => true,
        (None, Some(_)) => false,
        (None, None) => true,
    }
}

impl Settings {
    /// Which file a load reads: the settings file where it holds a
    /// document; where it is missing or corrupt, the most recently modified
    /// backup in its directory, the later entry of the listing where two are
    /// equally recent; else nothing.
    pub fn from_path(primary: PrimaryFile, entries: &Vec<BackupEntry>) -> (source: LoadSource)
        ensures
            primary == PrimaryFile::Valid ==> source == LoadSource::Primary,
            primary != PrimaryFile::Valid ==> match source {
                LoadSource::Primary => false,
                LoadSource::Backup(i) => is_latest_backup(entries_view(entries@), i as int),
                LoadSource::Missing => forall|j: int|
                    0 <= j < entries@.len() ==> !is_backup_name(
                        #[trigger] entries_view(entries@)[j].0,
                    ),
            },
    {
        if primary == PrimaryFile::Valid {
            return LoadSource::Primary;
        }
        let ghost listing = entries_view(entries@);
        let mut best: Option<usize> = None;
        let mut i: usize = 0;
        while i < entries.len()
            invariant
                i <= entries.len(),
                listing == entries_view(entries@),
                listing.len() == entries@.len(),
                match best {
                    Some(b) => {
                        &&& b < i
                        &&& is_backup_name(listing[b as int].0)
                        &&& forall|j: int|
                            0 <= j < i && is_backup_name(#[trigger] listing[j].0) ==> rank(
                                listing[j].1,
                            ) <= rank(listing[b as int].1)
                        &&& forall|j: int|
                            b < j < i && is_backup_name(#[trigger] listing[j].0) ==> rank(
                                listing[j].1,
                            ) < rank(listing[b as int].1)
                    },
                    None => forall|j: int| 0 <= j < i ==> !is_backup_name(#[trigger] listing[j].0),
                },
            decreases entries.len() - i,
        {
            let entry = &entries[i];
            assert(listing[i as int] == (entry.file_name@, entry.modified));
            if backup_name(entry.file_name.as_str()) {
                match best {
                    Some(b) => {
                        assert(listing[b as int].1 == entries@[b as int].modified);
                        if outranks(entry.modified, entries[b].modified) {
                            best = Some(i);
                        }
                    },
                    None => {
                        best = Some(i);
                    },
                }
            }
            i += 1;
        }
        match best {
            Some(b) => LoadSource::Backup(b),
            None => LoadSource::Missing,
        }
    }
}

/// The name of the backup made at a time, in seconds since the epoch:
/// `settings.json.`, the time, `.bak`.
pub open spec fn backup_name_at(now: int) -> Seq<char> {
    BACKUP_PREFIX@ + signed_decimal(now) + BACKUP_SUFFIX@
}

/// The name of the backup made at a time, in seconds since the epoch.
pub fn backup_file_name(now: i64) -> (name: String)
    ensures
        name@ == backup_name_at(now as int),
{
    let mut name = String::from_str(BACKUP_PREFIX);
    push_signed_decimal(&mut name, now);
    name.append(BACKUP_SUFFIX);
    name
}

/// What a save does to the disk.
#[derive(Debug, PartialEq, Eq)]
pub enum SaveAction {
    /// The file already holds the document: nothing is written and no backup
    /// is made.
    Unchanged,
    /// The document is written, after the old file (where there is one) was
    /// copied to the backup of this name in the same directory.
    Write { backup: Option<String> },
}

/// What a save does, by the content of the file before it.
pub open spec fn save_action(existing: Option<Seq<char>>, document: Seq<char>, now: int)
    -> Option<Option<Seq<char>>> {
    match existing {
        None => Some(None),
        Some(old) => if old == document {
            None
        } else {
            Some(Some(backup_name_at(now)))
        },
    }
}

impl Settings {
    /// What a save does to the disk, given the rendered document, the
    /// content of the file (where it exists) and the time: nothing where the
    /// file holds the document already; else the old file is backed up under
    /// the time's name and the document is written; a missing file is
    /// written without a backup.
    pub fn save(existing: Option<&str>, document: &str, now: i64) -> (action: SaveAction)
        ensures
            match save_action(
                match existing {
                    Some(e) => Some(e@),
                    None => None,
                },
                document@,
                now as int,
            ) {
                None => action is Unchanged,
                Some(None) => action matches SaveAction::Write { backup: None },
                Some(Some(name)) => action matches SaveAction::Write { backup: Some(n) } && n@
                    == name,
            },
    {
        match existing {
            None => SaveAction::Write { backup: None },
            Some(old) => {
                if same_text(old, document) {
                    SaveAction::Unchanged
                } else {
                    SaveAction::Write { backup: Some(backup_file_name(now)) }
                }
            },
        }
    }
}

/// Idempotent save: whatever a first save did, the file then holds the
/// document, and a second save of the same document writes nothing and
/// makes no backup, at whatever time it comes.
pub proof fn lemma_save_idempotent(
    existing: Option<Seq<char>>,
    document: Seq<char>,
    now: int,
    later: int,
)
    ensures
        save_action(Some(document), document, later) is None,
        save_action(existing, document, now) is None ==> existing == Some(document),
{
}

/// What the store starts with: the loaded settings, unless a reset was asked
/// for or nothing could be loaded; then settings without records at the
/// given path, which are to be saved at once.
pub fn init(path: String, reset: bool, loaded: Result<Settings, CoreError>) -> (r: (
    Settings,
    bool,
))
    requires
        loaded matches Ok(s) ==> s.inner.actuators.wf(),
    ensures
        r.0.inner.actuators.wf(),
        match loaded {
            Ok(s) => if reset {
                r.1 && r.0.path == path && r.0.inner.actuators@ == Seq::<Entry>::empty()
            } else {
                !r.1 && r.0 == s
            },
            Err(_) => r.1 && r.0.path == path && r.0.inner.actuators@ == Seq::<Entry>::empty(),
        },
{
    match loaded {
        Ok(s) => {
            if reset {
                (Settings::try_new(path, State::new()), true)
            } else {
                (s, false)
            }
        },
        Err(_) => (Settings::try_new(path, State::new()), true),
    }
}

} // verus!
