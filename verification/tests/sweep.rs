use radcam_manager::actuators::{CameraActuators, State};
use radcam_manager::api::{
    ActuatorsConfig, ActuatorsParametersConfig, ActuatorsState, CameraID, FocusZoomPoint,
    FocusZoomPoints, MountType, ScriptFunction, ServoChannel,
};
use radcam_manager::control::{
    control_inner, Action, ActuatorsControl, ExportPhase, ExportRun, ExportStep, Operation,
};
use radcam_manager::error::CoreError;
use radcam_manager::frames::CameraSettings;
use radcam_manager::manager::{none_if_nan, Manager};
use radcam_manager::parameters::{ActuatorsParameters, ParamEncodingType, ParamType, Parameter};
use radcam_manager::sweep::{
    plan_write, transaction, ConfigUpdate, Outcome, Phase, Stage, Step, Transaction,
};

const U1: u128 = 0xbc071801_c50f_8301_ac36_bc071801c50f;

/// A pretend autopilot: a parameter table, and the names whose writes fail.
struct Autopilot {
    table: Vec<Parameter>,
    refuse: Vec<String>,
    writes: Vec<(String, ParamType)>,
    reads: Vec<String>,
}

fn autopilot() -> Autopilot {
    let mut table = Vec::new();
    for n in 1..=32u8 {
        table.push(Parameter { name: format!("SERVO{}_FUNCTION", n), value: ParamType::INT16(0) });
        table.push(Parameter { name: format!("SERVO{}_MIN", n), value: ParamType::UINT16(1100) });
        table.push(Parameter { name: format!("SERVO{}_TRIM", n), value: ParamType::UINT16(1500) });
        table.push(Parameter { name: format!("SERVO{}_MAX", n), value: ParamType::UINT16(1900) });
    }
    for n in 1..=2u8 {
        table.push(Parameter { name: format!("CAM{}_TYPE", n), value: ParamType::UINT8(0) });
        table.push(Parameter { name: format!("MNT{}_TYPE", n), value: ParamType::UINT8(0) });
        table.push(Parameter { name: format!("MNT{}_PITCH_MIN", n), value: ParamType::INT32(-45) });
        table.push(Parameter { name: format!("MNT{}_PITCH_MAX", n), value: ParamType::INT32(45) });
        table.push(Parameter { name: format!("RCAM{}_ENABLE", n), value: ParamType::REAL32(0) });
        table.push(Parameter { name: format!("RCAM{}_GAIN", n), value: ParamType::REAL32(0) });
    }
    table.push(Parameter { name: "SCR_ENABLE".to_string(), value: ParamType::INT8(1) });
    Autopilot { table, refuse: Vec::new(), writes: Vec::new(), reads: Vec::new() }
}

fn value_of(a: &Autopilot, name: &str) -> ParamType {
    a.table.iter().find(|p| p.name == name).unwrap().value
}

fn set(a: &mut Autopilot, name: &str, value: ParamType) {
    a.table.iter_mut().find(|p| p.name == name).unwrap().value = value;
}

fn carry_out(a: &mut Autopilot, t: &Transaction, encoding: ParamEncodingType) -> Outcome {
    a.reads.push(t.name.clone());
    let current = match a.table.iter().find(|p| p.name == t.name) {
        Some(p) => p.clone(),
        None => return Outcome::Failed,
    };
    match plan_write(t, &current, encoding) {
        Err(_) => Outcome::Failed,
        Ok(None) => Outcome::AlreadySet,
        Ok(Some(p)) => {
            if a.refuse.contains(&p.name) {
                return Outcome::Failed;
            }
            a.writes.push((p.name.clone(), p.value));
            set(a, &p.name, p.value);
            Outcome::Written
        }
    }
}

/// Runs an update to its end; returns the steps after the parameters.
fn run(a: &mut Autopilot, update: &mut ConfigUpdate, script_changes: bool) -> Vec<String> {
    let mut steps = Vec::new();
    loop {
        match update.next() {
            Step::Parameter(t) => {
                let outcome = carry_out(a, &t, ParamEncodingType::CCast);
                update.settle(outcome);
            }
            Step::ExportScript { overwrite } => {
                steps.push(format!("export overwrite={}", overwrite));
                update.exported(Ok(script_changes));
            }
            Step::ReloadScripts => {
                steps.push("reload".to_string());
                update.commanded();
            }
            Step::RebootAutopilot => {
                steps.push("reboot".to_string());
                update.commanded();
            }
            Step::Persist => {
                steps.push("persist".to_string());
                update.persisted(Ok(()));
            }
            Step::Finished => return steps,
        }
    }
}

fn manager() -> Manager {
    Manager {
        autopilot_scripts_file: "./scripts/radcam.lua".to_string(),
        settings: State::new(),
    }
}

fn no_parameters() -> ActuatorsParametersConfig {
    ActuatorsParametersConfig::default()
}

fn patch(parameters: ActuatorsParametersConfig) -> ActuatorsConfig {
    ActuatorsConfig { parameters: Some(parameters), closest_points: None, furthest_points: None }
}

/// An autopilot that already holds everything the default record says.
fn settled_autopilot() -> Autopilot {
    let mut a = autopilot();
    let mut m = manager();
    let mut update = m.reset_config(U1);
    run(&mut a, &mut update, true);
    a.writes.clear();
    a.reads.clear();
    a
}

#[test]
fn zoom_channel_change_rebinds_and_forces_the_limits() {
    let mut a = settled_autopilot();
    let mut m = manager();
    let mut start = CameraActuators::default();
    start.parameters.zoom_channel = ServoChannel::SERVO10;
    start.parameters.focus_channel = ServoChannel::SERVO9;
    m.settings.insert(U1, start);
    set(&mut a, "SERVO10_FUNCTION", ParamType::INT16(180));
    set(&mut a, "SERVO11_FUNCTION", ParamType::INT16(0));

    let mut parameters = no_parameters();
    parameters.zoom_channel = Some(ServoChannel::SERVO11);
    let mut update = m.update_config(U1, &patch(parameters), false);
    let steps = run(&mut a, &mut update, false);

    assert_eq!(
        a.writes,
        vec![
            ("SERVO10_FUNCTION".to_string(), ParamType::INT16(0)),
            ("SERVO11_FUNCTION".to_string(), ParamType::INT16(180)),
            ("SERVO11_MIN".to_string(), ParamType::UINT16(935)),
            ("SERVO11_TRIM".to_string(), ParamType::UINT16(1500)),
            ("SERVO11_MAX".to_string(), ParamType::UINT16(1850)),
        ]
    );
    assert_eq!(steps, vec!["export overwrite=false", "reboot", "persist"]);
    assert!(update.reboot);
    assert_eq!(update.actuators.parameters.zoom_channel, ServoChannel::SERVO11);
    m.absorb(&update);
    assert_eq!(m.settings.get(U1).unwrap().parameters.zoom_channel, ServoChannel::SERVO11);
    let (result, record) = update.into_result();
    assert_eq!(result, Ok(()));
    assert_eq!(record.parameters.zoom_channel, ServoChannel::SERVO11);
}

#[test]
fn reapplying_the_same_patch_writes_nothing() {
    let mut a = settled_autopilot();
    let mut m = manager();
    m.settings.insert(U1, CameraActuators::default());
    let mut parameters = no_parameters();
    parameters.zoom_channel = Some(ServoChannel::SERVO11);
    let mut update = m.update_config(U1, &patch(parameters), false);
    let steps = run(&mut a, &mut update, false);
    assert!(a.writes.is_empty());
    assert_eq!(a.reads, vec!["SERVO11_FUNCTION", "SCR_ENABLE"]);
    assert_eq!(steps, vec!["export overwrite=false", "persist"]);
    assert!(!update.reboot);
    assert!(!update.reload);
    assert_eq!(update.actuators, CameraActuators::default());
}

#[test]
fn reset_reasserts_everything_and_reboots() {
    let mut a = autopilot();
    let mut m = manager();
    let mut odd = CameraActuators::default();
    odd.parameters.tilt_channel = ServoChannel::SERVO1;
    m.settings.insert(U1, odd);
    let mut update = m.reset_config(U1);
    assert_eq!(m.settings.get(U1), Some(CameraActuators::default()));
    let steps = run(&mut a, &mut update, true);
    assert_eq!(steps, vec!["export overwrite=true", "reload", "reboot", "persist"]);
    let written: Vec<&str> = a.writes.iter().map(|w| w.0.as_str()).collect();
    for name in [
        "CAM1_TYPE",
        "SERVO12_FUNCTION",
        "SERVO10_FUNCTION",
        "SERVO11_FUNCTION",
        "SERVO16_FUNCTION",
        "SERVO12_MIN",
        "SERVO10_TRIM",
        "SERVO11_MAX",
        "SERVO16_MIN",
        "RCAM1_ENABLE",
        "RCAM1_GAIN",
        "MNT1_PITCH_MIN",
        "MNT1_PITCH_MAX",
        "MNT1_TYPE",
        "SCR_ENABLE",
    ] {
        assert!(written.contains(&name), "{} was not written", name);
    }
    assert_eq!(value_of(&a, "SERVO12_FUNCTION"), ParamType::INT16(92));
    assert_eq!(value_of(&a, "SERVO10_FUNCTION"), ParamType::INT16(92));
    assert_eq!(value_of(&a, "SERVO11_FUNCTION"), ParamType::INT16(180));
    assert_eq!(value_of(&a, "SERVO16_FUNCTION"), ParamType::INT16(7));
    assert_eq!(value_of(&a, "CAM1_TYPE"), ParamType::UINT8(1));
    assert_eq!(value_of(&a, "MNT1_TYPE"), ParamType::UINT8(1));
    assert_eq!(value_of(&a, "MNT1_PITCH_MIN"), ParamType::INT32(-90));
    assert_eq!(value_of(&a, "RCAM1_ENABLE"), ParamType::REAL32(1.0f32.to_bits()));
    assert_eq!(value_of(&a, "RCAM1_GAIN"), ParamType::REAL32(1.0f32.to_bits()));
    assert_eq!(value_of(&a, "SERVO16_MAX"), ParamType::UINT16(2250));
    assert_eq!(update.actuators, CameraActuators::default());
}

#[test]
fn empty_patch_without_overwrite_changes_nothing_in_memory() {
    for parameters in [None, Some(no_parameters())] {
        let mut a = autopilot();
        set(&mut a, "SCR_ENABLE", ParamType::INT8(0));
        let mut m = manager();
        let mut start = CameraActuators::default();
        start.parameters.focus_channel_min = 1234;
        start.state.zoom = Some(5);
        m.settings.insert(U1, start.clone());
        let config = ActuatorsConfig { parameters, closest_points: None, furthest_points: None };
        let mut update = m.update_config(U1, &config, false);
        let steps = run(&mut a, &mut update, false);
        assert_eq!(update.actuators, start);
        assert_eq!(a.writes, vec![("SCR_ENABLE".to_string(), ParamType::INT8(1))]);
        assert_eq!(steps, vec!["export overwrite=false", "reboot", "persist"]);
    }
}

#[test]
fn failed_writes_are_skipped_and_the_sweep_goes_on() {
    let mut a = settled_autopilot();
    a.refuse.push("SERVO9_FUNCTION".to_string());
    let mut m = manager();
    m.settings.insert(U1, CameraActuators::default());
    let mut parameters = no_parameters();
    parameters.focus_channel = Some(ServoChannel::SERVO9);
    parameters.focus_channel_min = Some(900);
    parameters.tilt_mnt_pitch_max = Some(60);
    let mut update = m.update_config(U1, &patch(parameters), false);
    let steps = run(&mut a, &mut update, false);
    assert_eq!(
        a.writes,
        vec![
            ("SERVO10_FUNCTION".to_string(), ParamType::INT16(0)),
            ("SERVO10_MIN".to_string(), ParamType::UINT16(900)),
            ("SERVO10_TRIM".to_string(), ParamType::UINT16(1500)),
            ("SERVO10_MAX".to_string(), ParamType::UINT16(2130)),
            ("MNT1_PITCH_MAX".to_string(), ParamType::INT32(60)),
        ]
    );
    assert_eq!(update.actuators.parameters.focus_channel, ServoChannel::SERVO10);
    assert_eq!(update.actuators.parameters.focus_channel_min, 900);
    assert_eq!(update.actuators.parameters.tilt_mnt_pitch_max, 60);
    assert_eq!(steps, vec!["export overwrite=false", "reboot", "persist"]);
    assert_eq!(update.into_result().0, Ok(()));
}

#[test]
fn camera_slot_change_moves_the_script_and_mount_parameters() {
    let mut a = settled_autopilot();
    let mut m = manager();
    m.settings.insert(U1, CameraActuators::default());
    let mut parameters = no_parameters();
    parameters.camera_id = Some(CameraID::CAM2);
    parameters.enable_focus_and_zoom_correlation = Some(false);
    parameters.focus_margin_gain = Some(1.5f32.to_bits());
    parameters.tilt_channel = Some(ServoChannel::SERVO16);
    parameters.tilt_mnt_type = Some(MountType::BrushlessPWM);
    let mut update = m.update_config(U1, &patch(parameters), false);
    run(&mut a, &mut update, false);
    assert_eq!(
        a.writes,
        vec![
            ("CAM1_TYPE".to_string(), ParamType::UINT8(0)),
            ("CAM2_TYPE".to_string(), ParamType::UINT8(1)),
            ("RCAM2_GAIN".to_string(), ParamType::REAL32(1.5f32.to_bits())),
            ("SERVO16_FUNCTION".to_string(), ParamType::INT16(13)),
            ("SERVO16_MIN".to_string(), ParamType::UINT16(750)),
            ("SERVO16_TRIM".to_string(), ParamType::UINT16(1500)),
            ("SERVO16_MAX".to_string(), ParamType::UINT16(2250)),
            ("MNT2_PITCH_MIN".to_string(), ParamType::INT32(-90)),
            ("MNT2_PITCH_MAX".to_string(), ParamType::INT32(90)),
            ("MNT2_TYPE".to_string(), ParamType::UINT8(7)),
        ]
    );
    assert_eq!(update.actuators.parameters.camera_id, CameraID::CAM2);
    assert!(!update.actuators.parameters.enable_focus_and_zoom_correlation);
    assert_eq!(update.actuators.parameters.focus_margin_gain, 1.5f32.to_bits());
    assert_eq!(update.actuators.parameters.tilt_mnt_type, MountType::BrushlessPWM);
    assert!(update.reboot);
}

#[test]
fn values_already_on_the_autopilot_are_taken_without_a_write() {
    let mut a = settled_autopilot();
    set(&mut a, "SERVO11_MIN", ParamType::UINT16(1000));
    let mut m = manager();
    m.settings.insert(U1, CameraActuators::default());
    let mut parameters = no_parameters();
    parameters.zoom_channel_min = Some(1000);
    let mut update = m.update_config(U1, &patch(parameters), false);
    run(&mut a, &mut update, false);
    assert!(a.writes.is_empty());
    assert_eq!(update.actuators.parameters.zoom_channel_min, 1000);
    assert!(!update.reboot);
}

#[test]
fn memory_only_fields_and_tables_are_taken_at_once() {
    let mut m = manager();
    m.settings.insert(U1, CameraActuators::default());
    let mut parameters = no_parameters();
    parameters.script_function = Some(ScriptFunction::SCRIPT3);
    parameters.tilt_channel_reversed = Some(true);
    let table = FocusZoomPoints(vec![FocusZoomPoint { zoom: 1, focus: 2 }]);
    let config = ActuatorsConfig {
        parameters: Some(parameters),
        closest_points: Some(table.clone()),
        furthest_points: Some(FocusZoomPoints(CameraActuators::default().furthest_points.0)),
    };
    let update = m.update_config(U1, &config, false);
    assert_eq!(update.actuators.parameters.script_function, ScriptFunction::SCRIPT3);
    assert!(update.actuators.parameters.tilt_channel_reversed);
    assert_eq!(update.actuators.closest_points.0, table.0);
    assert!(update.reload);
    assert!(!update.reboot);
    assert_eq!(update.phase, Phase::Parameters);
    let unchanged = ActuatorsConfig {
        parameters: None,
        closest_points: Some(FocusZoomPoints(CameraActuators::default().closest_points.0)),
        furthest_points: None,
    };
    let update = m.update_config(U1, &unchanged, false);
    assert!(!update.reload);
}

#[test]
fn invalid_script_ends_the_update_without_reload_or_saving() {
    let mut a = settled_autopilot();
    let mut m = manager();
    m.settings.insert(U1, CameraActuators::default());
    let mut update = m.update_config(U1, &patch(no_parameters()), false);
    loop {
        match update.next() {
            Step::Parameter(t) => {
                let outcome = carry_out(&mut a, &t, ParamEncodingType::CCast);
                update.settle(outcome);
            }
            Step::ExportScript { .. } => {
                update.exported(Err(CoreError::ScriptInvalid("near '='".to_string())));
            }
            Step::Finished => break,
            other => panic!("unexpected step {:?}", other),
        }
    }
    assert_eq!(update.phase, Phase::Done);
    assert_eq!(update.into_result().0, Err(CoreError::ScriptInvalid("near '='".to_string())));
}

#[test]
fn failed_saving_is_the_result_of_the_update() {
    let mut m = manager();
    let mut update = m.update_config(U1, &ActuatorsConfig::default(), false);
    let mut a = settled_autopilot();
    loop {
        match update.next() {
            Step::Parameter(t) => {
                let outcome = carry_out(&mut a, &t, ParamEncodingType::CCast);
                update.settle(outcome);
            }
            Step::ExportScript { .. } => update.exported(Ok(true)),
            Step::ReloadScripts => update.commanded(),
            Step::RebootAutopilot => update.commanded(),
            Step::Persist => update.persisted(Err(CoreError::Io("disk full".to_string()))),
            Step::Finished => break,
        }
    }
    assert!(update.reload);
    assert_eq!(update.into_result().0, Err(CoreError::Io("disk full".to_string())));
}

#[test]
fn a_step_is_handed_out_again_until_it_is_reported() {
    let mut m = manager();
    let mut parameters = no_parameters();
    parameters.focus_channel_trim = Some(1400);
    let mut update = m.update_config(U1, &patch(parameters), false);
    let first = match update.next() {
        Step::Parameter(t) => t,
        other => panic!("unexpected {:?}", other),
    };
    let again = match update.next() {
        Step::Parameter(t) => t,
        other => panic!("unexpected {:?}", other),
    };
    assert_eq!(first.name, "SERVO10_TRIM");
    assert_eq!(again.name, "SERVO10_TRIM");
    assert_eq!(first.target, ParamType::UINT16(1400));
    update.exported(Ok(true));
    update.commanded();
    update.persisted(Ok(()));
    assert_eq!(update.phase, Phase::Parameters);
    update.settle(Outcome::Failed);
    assert_eq!(update.actuators.parameters.focus_channel_trim, 1500);
    assert!(matches!(update.next(), Step::Parameter(t) if t.name == "SCR_ENABLE"));
    update.settle(Outcome::AlreadySet);
    update.settle(Outcome::Written);
    assert!(matches!(update.next(), Step::ExportScript { overwrite: false }));
    assert!(matches!(update.next(), Step::ExportScript { overwrite: false }));
}

#[test]
fn group_walks_stay_within_their_group() {
    let mut m = manager();
    let mut parameters = no_parameters();
    parameters.script_channel_max = Some(2000);
    parameters.zoom_channel_min = Some(1000);
    parameters.tilt_mnt_type = Some(MountType::BrushlessPWM);
    let mut update = m.update_config(U1, &patch(parameters), false);
    assert!(Manager::update_camera_parameters(&mut update).is_none());
    let t = Manager::update_script_parameters(&mut update).unwrap();
    assert_eq!(t.name, "SERVO12_MAX");
    update.settle(Outcome::Written);
    assert!(Manager::update_script_parameters(&mut update).is_none());
    assert!(Manager::update_script_channel_parameters(&mut update).is_none());
    assert!(Manager::update_focus_parameters(&mut update).is_none());
    let t = Manager::update_zoom_channel_parameters(&mut update).unwrap();
    assert_eq!((t.name.as_str(), t.target), ("SERVO11_MIN", ParamType::UINT16(1000)));
    update.settle(Outcome::Written);
    assert!(Manager::update_zoom_parameters(&mut update).is_none());
    assert!(Manager::update_tilt_channel_parameters(&mut update).is_none());
    let t = Manager::update_tilt_mnt_type(&mut update).unwrap();
    assert_eq!((t.name.as_str(), t.target), ("MNT1_TYPE", ParamType::UINT8(7)));
    update.settle(Outcome::Written);
    assert!(Manager::update_tilt_parameters(&mut update).is_none());
    assert_eq!(update.actuators.parameters.script_channel_max, 2000);
    assert_eq!(update.actuators.parameters.zoom_channel_min, 1000);
    assert_eq!(update.actuators.parameters.tilt_mnt_type, MountType::BrushlessPWM);
    assert!(matches!(update.next(), Step::Parameter(t) if t.name == "SCR_ENABLE"));
}

#[test]
fn stage_table_names_and_targets() {
    let record = ActuatorsParameters::default();
    let mut p = no_parameters();
    p.focus_channel = Some(ServoChannel::SERVO32);
    p.camera_id = Some(CameraID::CAM2);
    let patch = Some(p);
    let t = transaction(Stage::Disable(radcam_manager::sweep::Group::Focus), &record, &patch, false, false).unwrap();
    assert_eq!((t.name.as_str(), t.target, t.forced), ("SERVO10_FUNCTION", ParamType::INT16(0), false));
    let t = transaction(Stage::Assign(radcam_manager::sweep::Group::Focus), &record, &patch, false, true).unwrap();
    assert_eq!((t.name.as_str(), t.target, t.forced), ("SERVO32_FUNCTION", ParamType::INT16(92), true));
    assert_eq!(t.after.focus_channel, ServoChannel::SERVO32);
    let t = transaction(Stage::Disable(radcam_manager::sweep::Group::Camera), &record, &patch, false, false).unwrap();
    assert_eq!((t.name.as_str(), t.target), ("CAM1_TYPE", ParamType::UINT8(0)));
    let t = transaction(Stage::Assign(radcam_manager::sweep::Group::Camera), &record, &patch, false, false).unwrap();
    assert_eq!((t.name.as_str(), t.target), ("CAM2_TYPE", ParamType::UINT8(1)));
    assert!(transaction(Stage::Assign(radcam_manager::sweep::Group::Zoom), &record, &patch, true, true).is_none());
    assert!(transaction(Stage::MountPitchMin, &record, &patch, false, false).is_none());
    let t = transaction(Stage::MountPitchMin, &record, &patch, true, false).unwrap();
    assert_eq!((t.name.as_str(), t.target, t.forced), ("MNT1_PITCH_MIN", ParamType::INT32(-90), true));
    let t = transaction(Stage::Scripting, &record, &None, false, false).unwrap();
    assert_eq!((t.name.as_str(), t.target), ("SCR_ENABLE", ParamType::REAL32(0x3F80_0000)));
    assert!(transaction(Stage::ScriptGain, &record, &None, true, true).is_none());
}

#[test]
fn plan_write_compares_in_the_type_of_the_autopilot() {
    let t = Transaction {
        name: "SERVO11_FUNCTION".to_string(),
        target: ParamType::INT16(180),
        forced: false,
        after: ActuatorsParameters::default(),
        settles_when_equal: false,
        marks_reboot: true,
    };
    let held = Parameter { name: "SERVO11_FUNCTION".to_string(), value: ParamType::UINT8(180) };
    assert_eq!(plan_write(&t, &held, ParamEncodingType::CCast), Ok(None));
    assert_eq!(plan_write(&t, &held, ParamEncodingType::ByteWise), Ok(None));
    let other = Parameter { name: "SERVO11_FUNCTION".to_string(), value: ParamType::UINT8(0) };
    assert_eq!(
        plan_write(&t, &other, ParamEncodingType::CCast),
        Ok(Some(Parameter { name: "SERVO11_FUNCTION".to_string(), value: ParamType::UINT8(180) }))
    );
    assert_eq!(plan_write(&t, &held, ParamEncodingType::Unsupported), Err(CoreError::UnsupportedEncoding));
    let wide = Parameter { name: "SERVO11_FUNCTION".to_string(), value: ParamType::INT64(180) };
    assert_eq!(plan_write(&t, &wide, ParamEncodingType::CCast), Err(CoreError::Decode));
    let forced = Transaction { forced: true, ..t };
    assert_eq!(plan_write(&forced, &held, ParamEncodingType::CCast), Ok(Some(held.clone())));
}

#[test]
fn state_is_read_recorded_and_sanitised() {
    let mut m = manager();
    let settings = CameraSettings { zoom_level: 40.0f32.to_bits(), focus_level: f32::NAN.to_bits() };
    assert_eq!(m.get_state(U1, &settings), Err(CoreError::NotFound));
    assert_eq!(m.camera_id(U1), Err(CoreError::NotFound));
    m.settings.insert(U1, CameraActuators::default());
    assert_eq!(m.camera_id(U1), Ok(CameraID::CAM1));
    let state = m.get_state(U1, &settings).unwrap();
    assert_eq!(state, ActuatorsState { focus: None, zoom: Some(40.0f32.to_bits()), tilt: None });
    assert_eq!(m.settings.get(U1).unwrap().state, state);
    assert_eq!(none_if_nan(f32::NAN.to_bits()), None);
    assert_eq!(none_if_nan(0x7F80_0000), Some(0x7F80_0000));
    assert_eq!(none_if_nan(0), Some(0));
}

#[test]
fn state_request_sends_focus_then_zoom() {
    let mut m = manager();
    let wanted = ActuatorsState { focus: Some(10.0f32.to_bits()), zoom: Some(80.0f32.to_bits()), tilt: Some(1) };
    assert_eq!(m.update_state(U1, &wanted), Err(CoreError::NotFound));
    m.settings.insert(U1, CameraActuators::default());
    let commands = m.update_state(U1, &wanted).unwrap();
    assert_eq!(commands.len(), 2);
    assert_eq!((commands[0].command, commands[0].param1, commands[0].param2), (532, 2.0f32.to_bits(), 10.0f32.to_bits()));
    assert_eq!((commands[1].command, commands[1].param1, commands[1].param2), (531, 2.0f32.to_bits(), 80.0f32.to_bits()));
    assert_eq!((commands[0].target_system, commands[0].target_component, commands[0].param3), (1, 1, 0));
    let only_zoom = ActuatorsState { focus: None, zoom: Some(1), tilt: None };
    assert_eq!(m.update_state(U1, &only_zoom).unwrap().len(), 1);
    let nothing = ActuatorsState { focus: None, zoom: None, tilt: Some(3) };
    assert!(m.update_state(U1, &nothing).unwrap().is_empty());

    let settings = CameraSettings { zoom_level: 79.5f32.to_bits(), focus_level: 10.5f32.to_bits() };
    assert_eq!(m.record_state(U1, &wanted, &settings), Ok(wanted));
    assert_eq!(
        m.settings.get(U1).unwrap().state,
        ActuatorsState { focus: Some(10.5f32.to_bits()), zoom: Some(79.5f32.to_bits()), tilt: None }
    );
    let later = CameraSettings { zoom_level: 1, focus_level: 2 };
    assert_eq!(m.record_state(U1, &nothing, &later), Ok(nothing));
    assert_eq!(m.settings.get(U1).unwrap().state.zoom, Some(79.5f32.to_bits()));
    assert_eq!(m.record_state(7, &wanted, &settings), Err(CoreError::NotFound));
}

#[test]
fn export_needs_a_known_camera() {
    let mut m = manager();
    assert_eq!(m.export_script(U1, "1", None, true), Err(CoreError::NotFound));
    m.settings.insert(U1, CameraActuators::default());
    let text = m.export_script(U1, "1", None, false).unwrap().unwrap();
    assert_eq!(m.export_script(U1, "1", Some(&text), false), Ok(None));
}

#[test]
fn requests_are_turned_into_operations() {
    let mut m = manager();
    let ask = |action: Action| ActuatorsControl { camera_uuid: U1, action };
    assert!(matches!(control_inner(&mut m, &ask(Action::GetActuatorsState)), Err(CoreError::NotFound)));
    assert!(matches!(control_inner(&mut m, &ask(Action::GetActuatorsConfig)), Err(CoreError::NotFound)));
    assert!(matches!(control_inner(&mut m, &ask(Action::ExportLuaScript)), Err(CoreError::NotFound)));
    let state = ActuatorsState { focus: Some(1), zoom: None, tilt: None };
    assert!(matches!(control_inner(&mut m, &ask(Action::SetActuatorsState(state))), Err(CoreError::NotFound)));
    assert_eq!(m.settings.len(), 0);

    let mut parameters = no_parameters();
    parameters.zoom_channel_max = Some(1800);
    match control_inner(&mut m, &ask(Action::SetActuatorsConfig(patch(parameters)))).unwrap() {
        Operation::Update(u) => {
            assert!(!u.overwrite);
            let merged = u.patch.unwrap();
            assert_eq!(merged.zoom_channel_max, Some(1800));
            assert_eq!(merged.zoom_channel_min, Some(935));
            assert_eq!(merged.focus_channel, Some(ServoChannel::SERVO10));
            assert_eq!(u.actuators, CameraActuators::default());
        }
        other => panic!("unexpected {:?}", other),
    }
    assert_eq!(m.settings.get(U1), Some(CameraActuators::default()));

    assert!(matches!(control_inner(&mut m, &ask(Action::GetActuatorsState)), Ok(Operation::ReadState)));
    assert!(matches!(
        control_inner(&mut m, &ask(Action::ExportLuaScript)),
        Ok(Operation::Export(run)) if run.phase == ExportPhase::Export
    ));
    assert!(matches!(
        control_inner(&mut m, &ask(Action::SetActuatorsState(state))),
        Ok(Operation::ApplyState(s)) if s == state
    ));
    match control_inner(&mut m, &ask(Action::GetActuatorsConfig)).unwrap() {
        Operation::Answer(c) => {
            assert_eq!(c.parameters, Some(ActuatorsParameters::default().to_config()));
            assert_eq!(c.closest_points.unwrap().0, CameraActuators::default().closest_points.0);
        }
        other => panic!("unexpected {:?}", other),
    }
    let mut odd = CameraActuators::default();
    odd.parameters.zoom_channel_trim = 1;
    m.settings.insert(U1, odd);
    match control_inner(&mut m, &ask(Action::ResetActuatorsConfig)).unwrap() {
        Operation::Update(u) => {
            assert!(u.overwrite && u.reboot && u.reload);
            assert_eq!(u.actuators, CameraActuators::default());
        }
        other => panic!("unexpected {:?}", other),
    }
    assert_eq!(m.settings.get(U1), Some(CameraActuators::default()));
}

#[test]
fn empty_patch_through_the_request_surface_keeps_the_record() {
    let mut a = settled_autopilot();
    set(&mut a, "SERVO10_MIN", ParamType::UINT16(1));
    let mut m = manager();
    let mut start = CameraActuators::default();
    start.parameters.focus_channel_max = 2000;
    m.settings.insert(U1, start.clone());
    let request = ActuatorsControl {
        camera_uuid: U1,
        action: Action::SetActuatorsConfig(ActuatorsConfig::default()),
    };
    let mut update = match control_inner(&mut m, &request).unwrap() {
        Operation::Update(u) => u,
        other => panic!("unexpected {:?}", other),
    };
    let steps = run(&mut a, &mut update, false);
    assert_eq!(update.actuators, start);
    assert_eq!(steps, vec!["export overwrite=false", "persist"]);
    assert_eq!(
        a.writes,
        vec![
            ("SERVO10_MIN".to_string(), ParamType::UINT16(870)),
            ("SERVO10_MAX".to_string(), ParamType::UINT16(2000)),
        ]
    );
}

#[test]
fn merge_keeps_what_the_patch_leaves_out() {
    let base = CameraActuators::default().to_config();
    let merged = ActuatorsConfig::merge(&base, &ActuatorsConfig::default());
    assert_eq!(merged.parameters, base.parameters);
    assert_eq!(merged.closest_points.unwrap().0, base.closest_points.unwrap().0);
    let mut p = no_parameters();
    p.tilt_channel = Some(ServoChannel::SERVO5);
    let table = FocusZoomPoints(vec![FocusZoomPoint { zoom: 3, focus: 4 }]);
    let over = ActuatorsConfig { parameters: Some(p), closest_points: None, furthest_points: Some(table) };
    let merged = ActuatorsConfig::merge(&CameraActuators::default().to_config(), &over);
    let m = merged.parameters.unwrap();
    assert_eq!(m.tilt_channel, Some(ServoChannel::SERVO5));
    assert_eq!(m.tilt_channel_min, Some(750));
    assert_eq!(merged.furthest_points.unwrap().0, vec![FocusZoomPoint { zoom: 3, focus: 4 }]);
    let merged = ActuatorsConfig::merge(&ActuatorsConfig::default(), &over);
    assert_eq!(merged.parameters, Some(p));
    assert!(merged.closest_points.is_none());
}

#[test]
fn defaults_are_the_documented_ones() {
    let p = ActuatorsParameters::default();
    assert_eq!(p.camera_id, CameraID::CAM1);
    assert_eq!((p.focus_channel, p.focus_channel_min, p.focus_channel_trim, p.focus_channel_max), (ServoChannel::SERVO10, 870, 1500, 2130));
    assert_eq!((p.script_channel, p.script_channel_min, p.script_channel_trim, p.script_channel_max), (ServoChannel::SERVO12, 870, 1500, 2130));
    assert_eq!((p.zoom_channel, p.zoom_channel_min, p.zoom_channel_trim, p.zoom_channel_max), (ServoChannel::SERVO11, 935, 1500, 1850));
    assert_eq!((p.tilt_channel, p.tilt_channel_min, p.tilt_channel_trim, p.tilt_channel_max), (ServoChannel::SERVO16, 750, 1500, 2250));
    assert_eq!(p.focus_margin_gain, 1.0f32.to_bits());
    assert_eq!(p.script_function, ScriptFunction::SCRIPT1);
    assert!(p.enable_focus_and_zoom_correlation);
    assert!(!p.tilt_channel_reversed);
    assert_eq!((p.tilt_mnt_type, p.tilt_mnt_pitch_min, p.tilt_mnt_pitch_max), (MountType::Servo, -90, 90));
    assert!(p.channels_distinct());
    let mut q = p;
    q.zoom_channel = ServoChannel::SERVO10;
    assert!(!q.channels_distinct());
    assert_eq!(ActuatorsParameters::from(no_parameters()), p);
    let mut c = no_parameters();
    c.tilt_mnt_pitch_min = Some(-45);
    assert_eq!(ActuatorsParameters::from(c).tilt_mnt_pitch_min, -45);
    assert_eq!(ActuatorsParameters::from(p.to_config()), p);
    let d = CameraActuators::default();
    assert_eq!(d.closest_points.0.len(), 7);
    assert_eq!(d.furthest_points.0[6], FocusZoomPoint { zoom: 2100, focus: 1930 });
    assert_eq!(d.closest_points.0[0], FocusZoomPoint { zoom: 900, focus: 882 });
    assert_eq!(d.state, ActuatorsState::default());
}

#[test]
fn an_output_of_another_group_is_never_taken() {
    let mut a = settled_autopilot();
    let mut m = manager();
    m.settings.insert(U1, CameraActuators::default());
    let mut parameters = no_parameters();
    parameters.zoom_channel = Some(ServoChannel::SERVO10);
    parameters.zoom_channel_min = Some(1000);
    let mut update = m.update_config(U1, &patch(parameters), false);
    let steps = run(&mut a, &mut update, false);
    assert_eq!(a.writes, vec![("SERVO11_MIN".to_string(), ParamType::UINT16(1000))]);
    assert_eq!(update.actuators.parameters.zoom_channel, ServoChannel::SERVO11);
    assert_eq!(update.actuators.parameters.focus_channel, ServoChannel::SERVO10);
    assert!(update.actuators.parameters.channels_distinct());
    assert_eq!(steps, vec!["export overwrite=false", "persist"]);
    assert_eq!(value_of(&a, "SERVO10_FUNCTION"), ParamType::INT16(92));
    assert_eq!(value_of(&a, "SERVO11_FUNCTION"), ParamType::INT16(180));

    let record = ActuatorsParameters::default();
    let mut p = no_parameters();
    p.focus_channel = Some(ServoChannel::SERVO16);
    let named = Some(p);
    assert!(transaction(Stage::Disable(radcam_manager::sweep::Group::Focus), &record, &named, true, true).is_none());
    assert!(transaction(Stage::Assign(radcam_manager::sweep::Group::Focus), &record, &named, true, true).is_none());
}

#[test]
fn two_groups_cannot_swap_their_outputs_in_one_patch() {
    let mut a = settled_autopilot();
    let mut m = manager();
    m.settings.insert(U1, CameraActuators::default());
    let mut parameters = no_parameters();
    parameters.focus_channel = Some(ServoChannel::SERVO11);
    parameters.zoom_channel = Some(ServoChannel::SERVO10);
    let mut update = m.update_config(U1, &patch(parameters), true);
    run(&mut a, &mut update, false);
    assert_eq!(update.actuators.parameters.focus_channel, ServoChannel::SERVO10);
    assert_eq!(update.actuators.parameters.zoom_channel, ServoChannel::SERVO11);
    assert!(update.actuators.parameters.channels_distinct());
}

fn export_steps(changed: Result<bool, CoreError>, reload: Result<(), CoreError>, written: Result<bool, CoreError>, reboot: Result<(), CoreError>) -> (Vec<ExportStep>, Result<(), CoreError>) {
    let mut run = ExportRun::new();
    let mut steps = Vec::new();
    loop {
        let step = run.next();
        steps.push(step);
        match step {
            ExportStep::ExportScript { .. } => run.exported(changed.clone()),
            ExportStep::ReloadScripts => run.commanded(reload.clone()),
            ExportStep::EnableScripting { .. } => run.enabled(written.clone()),
            ExportStep::RebootAutopilot => run.commanded(reboot.clone()),
            ExportStep::Finished => break,
        }
    }
    (steps, run.into_result())
}

#[test]
fn export_on_request_reloads_and_reboots_only_where_due() {
    let export = ExportStep::ExportScript { overwrite: true };
    let enable = ExportStep::EnableScripting { overwrite: false };
    assert_eq!(
        export_steps(Ok(true), Ok(()), Ok(true), Ok(())),
        (vec![export, ExportStep::ReloadScripts, enable, ExportStep::RebootAutopilot, ExportStep::Finished], Ok(()))
    );
    assert_eq!(
        export_steps(Ok(false), Ok(()), Ok(false), Ok(())),
        (vec![export, enable, ExportStep::Finished], Ok(()))
    );
    assert_eq!(
        export_steps(Ok(true), Ok(()), Ok(false), Ok(())),
        (vec![export, ExportStep::ReloadScripts, enable, ExportStep::Finished], Ok(()))
    );
    assert_eq!(
        export_steps(Ok(false), Ok(()), Ok(true), Ok(())),
        (vec![export, enable, ExportStep::RebootAutopilot, ExportStep::Finished], Ok(()))
    );
}

#[test]
fn export_on_request_ends_with_its_first_failure() {
    let export = ExportStep::ExportScript { overwrite: true };
    let enable = ExportStep::EnableScripting { overwrite: false };
    assert_eq!(
        export_steps(Err(CoreError::ScriptInvalid("x".to_string())), Ok(()), Ok(true), Ok(())),
        (vec![export, ExportStep::Finished], Err(CoreError::ScriptInvalid("x".to_string())))
    );
    assert_eq!(
        export_steps(Ok(true), Err(CoreError::Timeout), Ok(true), Ok(())),
        (vec![export, ExportStep::ReloadScripts, ExportStep::Finished], Err(CoreError::Timeout))
    );
    assert_eq!(
        export_steps(Ok(false), Ok(()), Err(CoreError::UnsupportedEncoding), Ok(())),
        (vec![export, enable, ExportStep::Finished], Err(CoreError::UnsupportedEncoding))
    );
    assert_eq!(
        export_steps(Ok(false), Ok(()), Ok(true), Err(CoreError::Timeout)),
        (vec![export, enable, ExportStep::RebootAutopilot, ExportStep::Finished], Err(CoreError::Timeout))
    );
    let mut run = ExportRun::new();
    run.commanded(Ok(()));
    run.enabled(Ok(true));
    assert_eq!(run.phase, ExportPhase::Export);
}
