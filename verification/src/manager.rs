//! The actuator manager: the records of all cameras and the operations that
//! the outside can ask for. Each operation is split where it has to talk to
//! the autopilot or the disk: the manager says what to send and takes the
//! answer.

use vstd::prelude::*;
use vstd::string::*;
use crate::actuators::{lookup, CameraActuators, CameraActuatorsView, State};
use crate::api::{ActuatorsConfig, ActuatorsState, CameraID};
use crate::error::CoreError;
use crate::frames::{
    CameraSettings, CommandLong, FOCUS_TYPE_RANGE, MAV_CMD_SET_CAMERA_FOCUS,
    MAV_CMD_SET_CAMERA_ZOOM, MAV_COMP_ID_AUTOPILOT1, ZOOM_TYPE_RANGE,
};
use crate::script::{export_outcome, export_script};
use crate::sweep::{
    advanced, parameters_at_start, table_after, ConfigUpdate, Phase, Transaction,
};
use crate::api::points_view;
use crate::wire::{single_from_u32, single_is_nan, single_nan, single_of_nat};

verus! {

/// A reading, or nothing where the word is not a number.
pub open spec fn reading(word: u32) -> Option<u32> {
    if single_is_nan(word) {
        None
    } else {
        Some(word)
    }
}

/// A reading, or nothing where the word is not a number.
pub fn none_if_nan(value: u32) -> (r: Option<u32>)
    ensures
        r == reading(value),
{
    if single_nan(value) {
        None
    } else {
        Some(value)
    }
}

/// The command that moves the focus (`zoom` unset) or the zoom (`zoom` set)
/// to a position in its full range.
pub open spec fn move_command(zoom: bool, position: u32) -> CommandLong {
    CommandLong {
        target_system: 1,
        target_component: MAV_COMP_ID_AUTOPILOT1,
        command: if zoom {
            MAV_CMD_SET_CAMERA_ZOOM
        } else {
            MAV_CMD_SET_CAMERA_FOCUS
        },
        confirmation: 0,
        param1: single_of_nat(2) as u32,
        param2: position,
        param3: 0,
        param4: 0,
        param5: 0,
        param6: 0,
        param7: 0,
    }
}

/// The commands that a requested state asks for: the focus first, then the
/// zoom, each only where the request names it.
pub open spec fn state_commands(new_state: ActuatorsState) -> Seq<CommandLong> {
    let focus = match new_state.focus {
        Some(f) => seq![move_command(false, f)],
        None => Seq::empty(),
    };
    let zoom = match new_state.zoom {
        Some(z) => seq![move_command(true, z)],
        None => Seq::empty(),
    };
    focus + zoom
}

/// The state that a record has after a state request was carried out and
/// the camera settings were read back: focus and zoom are taken from the
/// settings where the request named either; the tilt is left alone.
pub open spec fn state_after(
    current: ActuatorsState,
    new_state: ActuatorsState,
    settings: CameraSettings,
) -> ActuatorsState {
    if new_state.focus is Some || new_state.zoom is Some {
        ActuatorsState {
            focus: reading(settings.focus_level),
            zoom: reading(settings.zoom_level),
            tilt: current.tilt,
        }
    } else {
        current
    }
}

/// The records of all cameras and the path of the control script.
pub struct Manager {
    pub autopilot_scripts_file: String,
    pub settings: State,
}

impl Manager {
    /// Well-formedness: that of the records.
    pub open spec fn wf(&self) -> bool {
        self.settings.wf()
    }

    /// The camera slot of a camera, which every exchange about the camera
    /// needs first. An unknown camera is an error.
    pub fn camera_id(&self, camera_uuid: u128) -> (r: Result<CameraID, CoreError>)
        ensures
            match lookup(self.settings@, camera_uuid) {
                Some(record) => r == Ok::<CameraID, CoreError>(record.parameters.camera_id),
                None => r == Err::<CameraID, CoreError>(CoreError::NotFound),
            },
    {
        match self.settings.get(camera_uuid) {
            Some(record) => Ok(record.parameters.camera_id),
            None => Err(CoreError::NotFound),
        }
    }

    /// Records what the camera settings say and returns it: focus and zoom
    /// as read, not-a-number as no reading, and no tilt. An unknown camera
    /// is an error and changes nothing.
    pub fn get_state(&mut self, camera_uuid: u128, camera_settings: &CameraSettings) -> (r:
        Result<ActuatorsState, CoreError>)
        requires
            old(self).wf(),
        ensures
            final(self).wf(),
            final(self).autopilot_scripts_file == old(self).autopilot_scripts_file,
            match lookup(old(self).settings@, camera_uuid) {
                None => r == Err::<ActuatorsState, CoreError>(CoreError::NotFound) && final(self).settings@ == old(self).settings@,
                Some(record) => {
                    let state = ActuatorsState {
                        focus: reading(camera_settings.focus_level),
                        zoom: reading(camera_settings.zoom_level),
                        tilt: None,
                    };
                    &&& r == Ok::<ActuatorsState, CoreError>(state)
                    &&& lookup(final(self).settings@, camera_uuid) == Some(
                        CameraActuatorsView { state, ..record },
                    )
                    &&& forall|other: u128|
                        other != camera_uuid ==> lookup(final(self).settings@, other) == lookup(
                            old(self).settings@,
                            other,
                        )
                },
            },
    {
        let mut record = match self.settings.get(camera_uuid) {
            Some(record) => record,
            None => {
                return Err(CoreError::NotFound);
            },
        };
        let state = ActuatorsState {
            focus: none_if_nan(camera_settings.focus_level),
            zoom: none_if_nan(camera_settings.zoom_level),
            tilt: None,
        };
        record.state = state;
        self.settings.insert(camera_uuid, record);
        Ok(state)
    }

    /// The commands that carry out a state request: the focus where it is
    /// named, then the zoom where it is named, each as a position in the
    /// full range. The tilt is reserved and moves nothing. An unknown camera
    /// is an error.
    pub fn update_state(&self, camera_uuid: u128, new_state: &ActuatorsState) -> (r: Result<
        Vec<CommandLong>,
        CoreError,
    >)
        ensures
            match lookup(self.settings@, camera_uuid) {
                None => r matches Err(e) && e == CoreError::NotFound,
                Some(_) => r matches Ok(commands) && commands@ == state_commands(*new_state),
            },
    {
        match self.settings.get(camera_uuid) {
            Some(_) => {},
            None => {
                return Err(CoreError::NotFound);
            },
        }
        let mut commands: Vec<CommandLong> = Vec::new();
        match new_state.focus {
            Some(focus) => {
                commands.push(
                    CommandLong {
                        target_system: 1,
                        target_component: MAV_COMP_ID_AUTOPILOT1,
                        command: MAV_CMD_SET_CAMERA_FOCUS,
                        confirmation: 0,
                        param1: single_from_u32(FOCUS_TYPE_RANGE),
                        param2: focus,
                        param3: 0,
                        param4: 0,
                        param5: 0,
                        param6: 0,
                        param7: 0,
                    },
                );
            },
            None => {},
        }
        match new_state.zoom {
            Some(zoom) => {
                commands.push(
                    CommandLong {
                        target_system: 1,
                        target_component: MAV_COMP_ID_AUTOPILOT1,
                        command: MAV_CMD_SET_CAMERA_ZOOM,
                        confirmation: 0,
                        param1: single_from_u32(ZOOM_TYPE_RANGE),
                        param2: zoom,
                        param3: 0,
                        param4: 0,
                        param5: 0,
                        param6: 0,
                        param7: 0,
                    },
                );
            },
            None => {},
        }
        assert(commands@ =~= state_commands(*new_state));
        Ok(commands)
    }

    /// Ends a state request once the camera settings were read back: where
    /// the request named focus or zoom, the record takes both from the
    /// settings, not-a-number as no reading. Returns the requested state. An
    /// unknown camera is an error and changes nothing.
    pub fn record_state(
        &mut self,
        camera_uuid: u128,
        new_state: &ActuatorsState,
        camera_settings: &CameraSettings,
    ) -> (r: Result<ActuatorsState, CoreError>)
        requires
            old(self).wf(),
        ensures
            final(self).wf(),
            final(self).autopilot_scripts_file == old(self).autopilot_scripts_file,
            match lookup(old(self).settings@, camera_uuid) {
                None => r == Err::<ActuatorsState, CoreError>(CoreError::NotFound) && final(self).settings@ == old(self).settings@,
                Some(record) => {
                    &&& r == Ok::<ActuatorsState, CoreError>(*new_state)
                    &&& lookup(final(self).settings@, camera_uuid) == Some(
                        CameraActuatorsView {
                            state: state_after(record.state, *new_state, *camera_settings),
                            ..record
                        },
                    )
                    &&& forall|other: u128|
                        other != camera_uuid ==> lookup(final(self).settings@, other) == lookup(
                            old(self).settings@,
                            other,
                        )
                },
            },
    {
        let mut record = match self.settings.get(camera_uuid) {
            Some(record) => record,
            None => {
                return Err(CoreError::NotFound);
            },
        };
        if new_state.focus.is_some() || new_state.zoom.is_some() {
            record.state.focus = none_if_nan(camera_settings.focus_level);
            record.state.zoom = none_if_nan(camera_settings.zoom_level);
        }
        self.settings.insert(camera_uuid, record);
        Ok(*new_state)
    }

    /// Begins the update of a camera's configuration with a patch. A camera
    /// without a record gets the default record first, which is stored at
    /// once. The update then runs as a sweep; see [`ConfigUpdate`].
    pub fn update_config(&mut self, camera_uuid: u128, new_config: &ActuatorsConfig, overwrite: bool)
        -> (update: ConfigUpdate)
        requires
            old(self).wf(),
        ensures
            final(self).wf(),
            final(self).autopilot_scripts_file == old(self).autopilot_scripts_file,
            ({
                let record = match lookup(old(self).settings@, camera_uuid) {
                    Some(record) => record,
                    None => CameraActuatorsView::default(),
                };
                &&& lookup(final(self).settings@, camera_uuid) == Some(record)
                &&& forall|other: u128|
                    other != camera_uuid ==> lookup(final(self).settings@, other) == lookup(
                        old(self).settings@,
                        other,
                    )
                &&& update.actuators.state == record.state
                &&& update.actuators.parameters == parameters_at_start(
                    record.parameters,
                    new_config.parameters,
                )
                &&& update.actuators.closest_points@ == table_after(
                    record.closest_points,
                    points_view(new_config.closest_points),
                )
                &&& update.actuators.furthest_points@ == table_after(
                    record.furthest_points,
                    points_view(new_config.furthest_points),
                )
                &&& update.reload == (overwrite || update.actuators.closest_points@
                    != record.closest_points || update.actuators.furthest_points@
                    != record.furthest_points)
                &&& (new_config@.is_empty() ==> update.actuators@ == record)
                &&& (record.parameters.spec_channels_distinct()
                    ==> update.actuators.parameters.spec_channels_distinct())
            }),
            update.wf(),
            update.camera_uuid == camera_uuid,
            update.patch == new_config.parameters,
            update.overwrite == overwrite,
            update.cursor == 0,
            update.force == overwrite,
            update.reboot == overwrite,
            update.phase == Phase::Parameters,
            update.pending is None,
            update.failure is None,
    {
        let record = self.settings.get_or_default(camera_uuid);
        let working = record.clone();
        self.settings.insert(camera_uuid, record);
        ConfigUpdate::begin(camera_uuid, working, new_config, overwrite)
    }

    /// Takes the record of an update, as far as the update has brought it,
    /// into the records of the manager: before the script is exported,
    /// before the records are saved, and when the update is over.
    pub fn absorb(&mut self, update: &ConfigUpdate)
        requires
            old(self).wf(),
        ensures
            final(self).wf(),
            final(self).autopilot_scripts_file == old(self).autopilot_scripts_file,
            lookup(final(self).settings@, update.camera_uuid) == Some(update.actuators@),
            update.actuators.parameters.spec_channels_distinct() ==> (lookup(
                final(self).settings@,
                update.camera_uuid,
            ) matches Some(stored) && stored.parameters.spec_channels_distinct()),
            forall|other: u128|
                other != update.camera_uuid ==> lookup(final(self).settings@, other) == lookup(
                    old(self).settings@,
                    other,
                ),
    {
        self.settings.insert(update.camera_uuid, update.actuators.clone());
    }

    /// Begins the reset of a camera's configuration: the record is replaced
    /// by the default record, and an update with the default configuration
    /// and the overwrite flag begins.
    pub fn reset_config(&mut self, camera_uuid: u128) -> (update: ConfigUpdate)
        requires
            old(self).wf(),
        ensures
            final(self).wf(),
            final(self).autopilot_scripts_file == old(self).autopilot_scripts_file,
            lookup(final(self).settings@, camera_uuid) == Some(CameraActuatorsView::default()),
            forall|other: u128|
                other != camera_uuid ==> lookup(final(self).settings@, other) == lookup(
                    old(self).settings@,
                    other,
                ),
            update.wf(),
            update.camera_uuid == camera_uuid,
            update.actuators@ == CameraActuatorsView::default(),
            update.patch == Some(CameraActuatorsView::default().parameters.spec_to_config()),
            update.overwrite,
            update.force,
            update.reboot,
            update.reload,
            update.cursor == 0,
            update.phase == Phase::Parameters,
            update.pending is None,
            update.failure is None,
    {
        let actuators = CameraActuators::default();
        let config = actuators.to_config();
        self.settings.insert(camera_uuid, actuators.clone());
        ConfigUpdate::begin(camera_uuid, actuators, &config, true)
    }

    /// Renders and validates the control script of a camera and says what
    /// has to be written to the script file, given the file's content: the
    /// script, or nothing where the file already holds it and `overwrite` is
    /// not set. An unknown camera and an invalid script are errors.
    /// `margin_gain` is the decimal notation of the record's margin gain.
    pub fn export_script(
        &self,
        camera_uuid: u128,
        margin_gain: &str,
        existing: Option<&str>,
        overwrite: bool,
    ) -> (r: Result<Option<String>, CoreError>)
        ensures
            match lookup(self.settings@, camera_uuid) {
                None => r matches Err(e) && e == CoreError::NotFound,
                Some(record) => match export_outcome(
                    record,
                    margin_gain@,
                    match existing {
                        Some(e) => Some(e@),
                        None => None,
                    },
                    overwrite,
                ) {
                    Err(_) => r matches Err(e) && e is ScriptInvalid,
                    Ok(None) => r matches Ok(None),
                    Ok(Some(text)) => r matches Ok(Some(s)) && s@ == text,
                },
            },
    {
        match self.settings.get(camera_uuid) {
            Some(record) => export_script(&record, margin_gain, existing, overwrite),
            None => Err(CoreError::NotFound),
        }
    }

    /// The next transaction of the camera slot: the release of the old slot
    /// and the binding of the new one. Nothing once the group is done.
    pub fn update_camera_parameters(update: &mut ConfigUpdate) -> (r: Option<Transaction>)
        requires
            old(update).wf(),
        ensures
            final(update).wf(),
            advanced(*old(update), *final(update), r, 0, 2),
            r matches Some(t) ==> !t.target.spec_is_wide(),
    {
        update.advance(0, 2)
    }

    /// The next transaction of the script group: the release of the old
    /// output, the binding of the new one, the three travel limits, the
    /// correlation switch and the margin gain. Nothing once the group is
    /// done.
    pub fn update_script_parameters(update: &mut ConfigUpdate) -> (r: Option<Transaction>)
        requires
            old(update).wf(),
        ensures
            final(update).wf(),
            advanced(*old(update), *final(update), r, 2, 9),
            r matches Some(t) ==> !t.target.spec_is_wide(),
    {
        update.advance(2, 9)
    }

    /// The next transaction among the three travel limits of the script
    /// output. Nothing once they are done.
    pub fn update_script_channel_parameters(update: &mut ConfigUpdate) -> (r: Option<
        Transaction,
    >)
        requires
            old(update).wf(),
        ensures
            final(update).wf(),
            advanced(*old(update), *final(update), r, 4, 7),
            r matches Some(t) ==> !t.target.spec_is_wide(),
    {
        update.advance(4, 7)
    }

    /// The next transaction of the focus group: the release of the old
    /// output, the binding of the new one and the three travel limits.
    /// Nothing once the group is done.
    pub fn update_focus_parameters(update: &mut ConfigUpdate) -> (r: Option<Transaction>)
        requires
            old(update).wf(),
        ensures
            final(update).wf(),
            advanced(*old(update), *final(update), r, 9, 14),
            r matches Some(t) ==> !t.target.spec_is_wide(),
    {
        update.advance(9, 14)
    }

    /// The next transaction of the zoom group: the release of the old
    /// output, the binding of the new one and the three travel limits.
    /// Nothing once the group is done.
    pub fn update_zoom_parameters(update: &mut ConfigUpdate) -> (r: Option<Transaction>)
        requires
            old(update).wf(),
        ensures
            final(update).wf(),
            advanced(*old(update), *final(update), r, 14, 19),
            r matches Some(t) ==> !t.target.spec_is_wide(),
    {
        update.advance(14, 19)
    }

    /// The next transaction among the three travel limits of the zoom
    /// output. Nothing once they are done.
    pub fn update_zoom_channel_parameters(update: &mut ConfigUpdate) -> (r: Option<Transaction>)
        requires
            old(update).wf(),
        ensures
            final(update).wf(),
            advanced(*old(update), *final(update), r, 16, 19),
            r matches Some(t) ==> !t.target.spec_is_wide(),
    {
        update.advance(16, 19)
    }

    /// The next transaction of the tilt group: the release of the old
    /// output, the binding of the new one, the three travel limits, the two
    /// pitch limits of the mount and the mount type. Nothing once the group
    /// is done.
    pub fn update_tilt_parameters(update: &mut ConfigUpdate) -> (r: Option<Transaction>)
        requires
            old(update).wf(),
        ensures
            final(update).wf(),
            advanced(*old(update), *final(update), r, 19, 27),
            r matches Some(t) ==> !t.target.spec_is_wide(),
    {
        update.advance(19, 27)
    }

    /// The next transaction among the three travel limits of the tilt
    /// output and the two pitch limits of the mount. Nothing once they are
    /// done.
    pub fn update_tilt_channel_parameters(update: &mut ConfigUpdate) -> (r: Option<Transaction>)
        requires
            old(update).wf(),
        ensures
            final(update).wf(),
            advanced(*old(update), *final(update), r, 21, 26),
            r matches Some(t) ==> !t.target.spec_is_wide(),
    {
        update.advance(21, 26)
    }

    /// The transaction of the mount type. Nothing once it is done.
    pub fn update_tilt_mnt_type(update: &mut ConfigUpdate) -> (r: Option<Transaction>)
        requires
            old(update).wf(),
        ensures
            final(update).wf(),
            advanced(*old(update), *final(update), r, 26, 27),
            r matches Some(t) ==> !t.target.spec_is_wide(),
    {
        update.advance(26, 27)
    }
}

} // verus!
