//! The request surface of the actuator manager: what can be asked of a
//! camera's actuators, and what the manager has to do for each request.

use vstd::prelude::*;
use crate::actuators::{lookup, CameraActuatorsView};
use crate::api::{ActuatorsConfig, ActuatorsConfigView, ActuatorsState};
use crate::error::CoreError;
use crate::manager::Manager;
use crate::sweep::{ConfigUpdate, Phase};

verus! {

/// What can be asked of a camera's actuators.
#[derive(Debug)]
pub enum Action {
    /// Read the actuator positions.
    GetActuatorsState,
    /// Move the actuators.
    SetActuatorsState(ActuatorsState),
    /// Read the configuration.
    GetActuatorsConfig,
    /// Change the configuration by a patch.
    SetActuatorsConfig(ActuatorsConfig),
    /// Put the configuration back to the defaults.
    ResetActuatorsConfig,
    /// Write the control script anew.
    ExportLuaScript,
}

/// A request: a camera and what is asked of it.
#[derive(Debug)]
pub struct ActuatorsControl {
    pub camera_uuid: u128,
    pub action: Action,
}

/// What the manager has to do for a request.
#[derive(Debug)]
pub enum Operation {
    /// Ask the autopilot for the camera settings, record them, and answer
    /// with the recorded state.
    ReadState,
    /// Send the commands of the state request, read the camera settings
    /// back, record them, and answer with the requested state.
    ApplyState(ActuatorsState),
    /// Answer with this configuration.
    Answer(ActuatorsConfig),
    /// Run this update to its end and answer with the camera's
    /// configuration.
    Update(ConfigUpdate),
    /// Run this export to its end and answer with nothing.
    Export(ExportRun),
}

/// Where the export of the control script on request stands.
#[derive(Debug, Clone, Copy, PartialEq, Eq, Structural)]
pub enum ExportPhase {
    /// The script is to be written, whatever the file holds.
    Export,
    /// The scripting engine is to be restarted, because the file changed.
    Reload,
    /// Scripting is to be switched on, where it is off.
    Enable,
    /// The autopilot is to be rebooted, because the switch was written.
    Reboot,
    /// Nothing is left to do.
    Done,
}

/// The next thing that the caller of an export has to do.
#[derive(Debug, Clone, Copy, PartialEq, Eq, Structural)]
pub enum ExportStep {
    /// Write the script and report with `exported` whether the file changed.
    ExportScript { overwrite: bool },
    /// Send the script reload command and report with `commanded`.
    ReloadScripts,
    /// Switch scripting on and report with `enabled` whether the switch was
    /// written.
    EnableScripting { overwrite: bool },
    /// Send the reboot command and report with `commanded`.
    RebootAutopilot,
    /// The export is over; `into_result` gives its result.
    Finished,
}

/// The export of the control script on request: the script is written with
/// the overwrite flag; the scripting engine is restarted where the file
/// changed; scripting is switched on without the overwrite flag; and the
/// autopilot is rebooted where the switch had to be written. The first
/// failure ends the export and is its result.
#[derive(Debug)]
pub struct ExportRun {
    /// Where the export stands.
    pub phase: ExportPhase,
    /// Why the export failed, once it has.
    pub failure: Option<CoreError>,
}

/// The phase that follows a phase whose step went as reported: `positive`
/// says that the file changed, or that the switch was written.
pub open spec fn phase_after(phase: ExportPhase, positive: bool) -> ExportPhase {
    match phase {
        ExportPhase::Export => if positive {
            ExportPhase::Reload
        } else {
            ExportPhase::Enable
        },
        ExportPhase::Reload => ExportPhase::Enable,
        ExportPhase::Enable => if positive {
            ExportPhase::Reboot
        } else {
            ExportPhase::Done
        },
        _ => ExportPhase::Done,
    }
}

impl ExportRun {
    /// An export that has done nothing yet.
    pub fn new() -> (run: ExportRun)
        ensures
            run.phase == ExportPhase::Export,
            run.failure is None,
    {
        ExportRun { phase: ExportPhase::Export, failure: None }
    }

    /// The next thing to do.
    pub fn next(&self) -> (step: ExportStep)
        ensures
            step == (match self.phase {
                ExportPhase::Export => ExportStep::ExportScript { overwrite: true },
                ExportPhase::Reload => ExportStep::ReloadScripts,
                ExportPhase::Enable => ExportStep::EnableScripting { overwrite: false },
                ExportPhase::Reboot => ExportStep::RebootAutopilot,
                ExportPhase::Done => ExportStep::Finished,
            }),
    {
        match self.phase {
            ExportPhase::Export => ExportStep::ExportScript { overwrite: true },
            ExportPhase::Reload => ExportStep::ReloadScripts,
            ExportPhase::Enable => ExportStep::EnableScripting { overwrite: false },
            ExportPhase::Reboot => ExportStep::RebootAutopilot,
            ExportPhase::Done => ExportStep::Finished,
        }
    }

    fn advance(&mut self, expected: ExportPhase, result: Result<bool, CoreError>)
        ensures
            old(self).phase != expected ==> final(self).phase == old(self).phase && final(self).failure == old(self).failure,
            old(self).phase == expected ==> match result {
                Ok(positive) => final(self).phase == phase_after(expected, positive) && final(self).failure == old(self).failure,
                Err(e) => final(self).phase == ExportPhase::Done && final(self).failure == Some(
                    e,
                ),
            },
    {
        if self.phase == expected {
            match result {
                Ok(positive) => {
                    self.phase = match expected {
                        ExportPhase::Export => if positive {
                            ExportPhase::Reload
                        } else {
                            ExportPhase::Enable
                        },
                        ExportPhase::Reload => ExportPhase::Enable,
                        ExportPhase::Enable => if positive {
                            ExportPhase::Reboot
                        } else {
                            ExportPhase::Done
                        },
                        _ => ExportPhase::Done,
                    };
                },
                Err(e) => {
                    self.failure = Some(e);
                    self.phase = ExportPhase::Done;
                },
            }
        }
    }

    /// Reports how the writing of the script went: a changed file is
    /// followed by the restart of the scripting engine, an unchanged one by
    /// the scripting switch; a failure ends the export. Outside the export
    /// phase nothing happens.
    pub fn exported(&mut self, result: Result<bool, CoreError>)
        ensures
            old(self).phase != ExportPhase::Export ==> final(self).phase == old(self).phase
                && final(self).failure == old(self).failure,
            old(self).phase == ExportPhase::Export ==> match result {
                Ok(changed) => final(self).phase == phase_after(ExportPhase::Export, changed)
                    && final(self).failure == old(self).failure,
                Err(e) => final(self).phase == ExportPhase::Done && final(self).failure == Some(
                    e,
                ),
            },
    {
        self.advance(ExportPhase::Export, result)
    }

    /// Reports how the command that was due went: after the restart of the
    /// scripting engine comes the scripting switch, after the reboot
    /// nothing; a failure ends the export. Outside these two phases nothing
    /// happens.
    pub fn commanded(&mut self, result: Result<(), CoreError>)
        ensures
            old(self).phase != ExportPhase::Reload && old(self).phase != ExportPhase::Reboot
                ==> final(self).phase == old(self).phase && final(self).failure == old(self).failure,
            old(self).phase == ExportPhase::Reload || old(self).phase == ExportPhase::Reboot
                ==> match result {
                Ok(_) => final(self).phase == phase_after(old(self).phase, false) && final(self).failure == old(self).failure,
                Err(e) => final(self).phase == ExportPhase::Done && final(self).failure == Some(
                    e,
                ),
            },
    {
        let outcome = match result {
            Ok(_) => Ok(false),
            Err(e) => Err(e),
        };
        match self.phase {
            ExportPhase::Reload => self.advance(ExportPhase::Reload, outcome),
            ExportPhase::Reboot => self.advance(ExportPhase::Reboot, outcome),
            _ => {},
        }
    }

    /// Reports how the scripting switch went: where it had to be written
    /// the autopilot is rebooted next, else the export is over; a failure
    /// ends the export. Outside the phase of the switch nothing happens.
    pub fn enabled(&mut self, result: Result<bool, CoreError>)
        ensures
            old(self).phase != ExportPhase::Enable ==> final(self).phase == old(self).phase
                && final(self).failure == old(self).failure,
            old(self).phase == ExportPhase::Enable ==> match result {
                Ok(written) => final(self).phase == phase_after(ExportPhase::Enable, written)
                    && final(self).failure == old(self).failure,
                Err(e) => final(self).phase == ExportPhase::Done && final(self).failure == Some(
                    e,
                ),
            },
    {
        self.advance(ExportPhase::Enable, result)
    }

    /// The result of the export.
    pub fn into_result(self) -> (r: Result<(), CoreError>)
        ensures
            r == (match self.failure {
                Some(e) => Err::<(), CoreError>(e),
                None => Ok::<(), CoreError>(()),
            }),
    {
        match self.failure {
            Some(e) => Err(e),
            None => Ok(()),
        }
    }
}

/// The configuration that a patch is merged over: that of the camera's
/// record, or of the default record where the camera has none.
pub open spec fn base_config(record: Option<CameraActuatorsView>) -> ActuatorsConfigView {
    match record {
        Some(r) => r.to_config(),
        None => CameraActuatorsView::default().to_config(),
    }
}

impl Manager {
    /// The configuration of a camera as a full patch. An unknown camera is
    /// an error.
    pub fn config_of(&self, camera_uuid: u128) -> (r: Result<ActuatorsConfig, CoreError>)
        ensures
            match lookup(self.settings@, camera_uuid) {
                Some(record) => r matches Ok(c) && c@ == record.to_config(),
                None => r matches Err(e) && e == CoreError::NotFound,
            },
    {
        match self.settings.get(camera_uuid) {
            Some(record) => Ok(record.to_config()),
            None => Err(CoreError::NotFound),
        }
    }
}

/// What the manager has to do for a request.
///
/// Reading and moving need a known camera, and so do reading the
/// configuration and exporting the script. A configuration patch is merged
/// over the camera's current configuration, so that what it leaves out
/// stays, and begins an update without the overwrite flag; for a camera
/// without a record the patch is merged over the defaults. A reset begins
/// an update from the defaults with the overwrite flag.
pub fn control_inner(manager: &mut Manager, actuators_control: &ActuatorsControl) -> (r: Result<
    Operation,
    CoreError,
>)
    requires
        old(manager).wf(),
    ensures
        final(manager).wf(),
        final(manager).autopilot_scripts_file == old(manager).autopilot_scripts_file,
        forall|other: u128|
            other != actuators_control.camera_uuid ==> lookup(final(manager).settings@, other)
                == lookup(old(manager).settings@, other),
        ({
            let uuid = actuators_control.camera_uuid;
            let before = lookup(old(manager).settings@, uuid);
            let after = lookup(final(manager).settings@, uuid);
            match actuators_control.action {
                Action::GetActuatorsState => after == before && (match before {
                    Some(_) => r matches Ok(Operation::ReadState),
                    None => r matches Err(e) && e == CoreError::NotFound,
                }),
                Action::SetActuatorsState(state) => after == before && (match before {
                    Some(_) => r matches Ok(Operation::ApplyState(s)) && s == state,
                    None => r matches Err(e) && e == CoreError::NotFound,
                }),
                Action::GetActuatorsConfig => after == before && (match before {
                    Some(record) => r matches Ok(Operation::Answer(c)) && c@ == record.to_config(),
                    None => r matches Err(e) && e == CoreError::NotFound,
                }),
                Action::ExportLuaScript => after == before && (match before {
                    Some(_) => r matches Ok(Operation::Export(run)) && run.phase
                        == ExportPhase::Export && run.failure is None,
                    None => r matches Err(e) && e == CoreError::NotFound,
                }),
                Action::SetActuatorsConfig(patch) => {
                    let merged = ActuatorsConfigView::merge(base_config(before), patch@);
                    let record = match before {
                        Some(record) => record,
                        None => CameraActuatorsView::default(),
                    };
                    &&& after == Some(record)
                    &&& r matches Ok(Operation::Update(u)) && {
                        &&& u.wf()
                        &&& u.camera_uuid == uuid
                        &&& u.patch == merged.parameters
                        &&& !u.overwrite
                        &&& !u.force
                        &&& !u.reboot
                        &&& u.cursor == 0
                        &&& u.phase == Phase::Parameters
                        &&& u.pending is None
                        &&& u.failure is None
                        &&& u.actuators.state == record.state
                        &&& Some(u.actuators.closest_points@) == merged.closest_points
                        &&& Some(u.actuators.furthest_points@) == merged.furthest_points
                        &&& (patch@.is_empty() ==> u.actuators@ == record && !u.reload)
                    }
                },
                Action::ResetActuatorsConfig => {
                    &&& after == Some(CameraActuatorsView::default())
                    &&& r matches Ok(Operation::Update(u)) && {
                        &&& u.wf()
                        &&& u.camera_uuid == uuid
                        &&& u.actuators@ == CameraActuatorsView::default()
                        &&& u.patch == Some(
                            CameraActuatorsView::default().parameters.spec_to_config(),
                        )
                        &&& u.overwrite
                        &&& u.reboot
                        &&& u.reload
                        &&& u.cursor == 0
                        &&& u.phase == Phase::Parameters
                    }
                },
            }
        }),
{
    let uuid = actuators_control.camera_uuid;
    match &actuators_control.action {
        Action::GetActuatorsState => match manager.camera_id(uuid) {
            Ok(_) => Ok(Operation::ReadState),
            Err(e) => Err(e),
        },
        Action::SetActuatorsState(state) => match manager.camera_id(uuid) {
            Ok(_) => Ok(Operation::ApplyState(*state)),
            Err(e) => Err(e),
        },
        Action::GetActuatorsConfig => match manager.config_of(uuid) {
            Ok(config) => Ok(Operation::Answer(config)),
            Err(e) => Err(e),
        },
        Action::ExportLuaScript => match manager.camera_id(uuid) {
            Ok(_) => Ok(Operation::Export(ExportRun::new())),
            Err(e) => Err(e),
        },
        Action::SetActuatorsConfig(patch) => {
            let base = manager.settings.get_or_default(uuid).to_config();
            let merged = ActuatorsConfig::merge(&base, patch);
            let update = manager.update_config(uuid, &merged, false);
            Ok(Operation::Update(update))
        },
        Action::ResetActuatorsConfig => {
            let update = manager.reset_config(uuid);
            Ok(Operation::Update(update))
        },
    }
}

} // verus!
