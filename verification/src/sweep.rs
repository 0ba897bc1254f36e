//! The configuration sweep: the fixed sequence of parameter transactions
//! that brings the autopilot in line with a configuration patch, and the
//! steps that follow it (script export, script reload, reboot, persisting).
//!
//! The sweep is a state machine. It names the next thing to do; the caller
//! does it on the link or the disk and reports how it went. A transaction
//! reads one parameter, passes the intended value through the parameter's
//! own type, and writes it where it differs from what the autopilot holds or
//! where the write is forced. A failed read or write is skipped: the sweep
//! goes on.

use vstd::prelude::*;
use vstd::string::*;
use crate::actuators::CameraActuators;
use crate::api::{
    points_view, ActuatorsConfig, ActuatorsParametersConfig, CameraID, CameraType,
    ChannelFunction, FocusZoomPoint, FocusZoomPoints, ServoChannel,
};
use crate::error::CoreError;
use crate::parameters::{
    or_default, restamped, ActuatorsParameters, ParamEncodingType, ParamType, Parameter,
    ParameterView,
};
use crate::text::{decimal, push_decimal};
use crate::wire::SINGLE_ONE;

verus! {

/// The five groups of parameters that a patch can touch.
#[derive(Debug, Clone, Copy, PartialEq, Eq, Structural)]
pub enum Group {
    Camera,
    Script,
    Focus,
    Zoom,
    Tilt,
}

/// The three travel limits of a servo output.
#[derive(Debug, Clone, Copy, PartialEq, Eq, Structural)]
pub enum Limit {
    Min,
    Trim,
    Max,
}

/// One stage of the sweep.
#[derive(Debug, Clone, Copy, PartialEq, Eq, Structural)]
pub enum Stage {
    /// Release what the group is bound to now: the function of the old servo
    /// output, or the type of the old camera slot.
    Disable(Group),
    /// Bind the group to what the patch names. A servo output that belongs
    /// to another group is never taken: then this stage and the release
    /// before it have nothing to do, and the group stays where it is.
    Assign(Group),
    /// One travel limit of the group's servo output.
    Travel(Group, Limit),
    /// The script's switch for the focus and zoom correlation.
    ScriptEnable,
    /// The script's margin gain.
    ScriptGain,
    /// The lowest pitch of the mount.
    MountPitchMin,
    /// The highest pitch of the mount.
    MountPitchMax,
    /// The type of the mount.
    MountKind,
    /// The autopilot's scripting switch.
    Scripting,
}

/// The number of stages.
pub const STAGES: u8 = 28;

/// The stage at a position of the sweep: the camera slot first, then the
/// script, focus, zoom and tilt groups, each with release, binding and
/// limits, and the scripting switch last.
pub open spec fn stage_at(i: int) -> Stage {
    if i == 0 {
        Stage::Disable(Group::Camera)
    } else if i == 1 {
        Stage::Assign(Group::Camera)
    } else if i == 2 {
        Stage::Disable(Group::Script)
    } else if i == 3 {
        Stage::Assign(Group::Script)
    } else if i == 4 {
        Stage::Travel(Group::Script, Limit::Min)
    } else if i == 5 {
        Stage::Travel(Group::Script, Limit::Trim)
    } else if i == 6 {
        Stage::Travel(Group::Script, Limit::Max)
    } else if i == 7 {
        Stage::ScriptEnable
    } else if i == 8 {
        Stage::ScriptGain
    } else if i == 9 {
        Stage::Disable(Group::Focus)
    } else if i == 10 {
        Stage::Assign(Group::Focus)
    } else if i == 11 {
        Stage::Travel(Group::Focus, Limit::Min)
    } else if i == 12 {
        Stage::Travel(Group::Focus, Limit::Trim)
    } else if i == 13 {
        Stage::Travel(Group::Focus, Limit::Max)
    } else if i == 14 {
        Stage::Disable(Group::Zoom)
    } else if i == 15 {
        Stage::Assign(Group::Zoom)
    } else if i == 16 {
        Stage::Travel(Group::Zoom, Limit::Min)
    } else if i == 17 {
        Stage::Travel(Group::Zoom, Limit::Trim)
    } else if i == 18 {
        Stage::Travel(Group::Zoom, Limit::Max)
    } else if i == 19 {
        Stage::Disable(Group::Tilt)
    } else if i == 20 {
        Stage::Assign(Group::Tilt)
    } else if i == 21 {
        Stage::Travel(Group::Tilt, Limit::Min)
    } else if i == 22 {
        Stage::Travel(Group::Tilt, Limit::Trim)
    } else if i == 23 {
        Stage::Travel(Group::Tilt, Limit::Max)
    } else if i == 24 {
        Stage::MountPitchMin
    } else if i == 25 {
        Stage::MountPitchMax
    } else if i == 26 {
        Stage::MountKind
    } else {
        Stage::Scripting
    }
}

/// Whether a position is the first of its group: there the group's force
/// flag starts from the overwrite flag.
pub open spec fn group_start(i: int) -> bool {
    i == 0 || i == 2 || i == 9 || i == 14 || i == 19 || i == 27
}

fn stage(i: u8) -> (s: Stage)
    ensures
        s == stage_at(i as int),
{
    match i {
        0 => Stage::Disable(Group::Camera),
        1 => Stage::Assign(Group::Camera),
        2 => Stage::Disable(Group::Script),
        3 => Stage::Assign(Group::Script),
        4 => Stage::Travel(Group::Script, Limit::Min),
        5 => Stage::Travel(Group::Script, Limit::Trim),
        6 => Stage::Travel(Group::Script, Limit::Max),
        7 => Stage::ScriptEnable,
        8 => Stage::ScriptGain,
        9 => Stage::Disable(Group::Focus),
        10 => Stage::Assign(Group::Focus),
        11 => Stage::Travel(Group::Focus, Limit::Min),
        12 => Stage::Travel(Group::Focus, Limit::Trim),
        13 => Stage::Travel(Group::Focus, Limit::Max),
        14 => Stage::Disable(Group::Zoom),
        15 => Stage::Assign(Group::Zoom),
        16 => Stage::Travel(Group::Zoom, Limit::Min),
        17 => Stage::Travel(Group::Zoom, Limit::Trim),
        18 => Stage::Travel(Group::Zoom, Limit::Max),
        19 => Stage::Disable(Group::Tilt),
        20 => Stage::Assign(Group::Tilt),
        21 => Stage::Travel(Group::Tilt, Limit::Min),
        22 => Stage::Travel(Group::Tilt, Limit::Trim),
        23 => Stage::Travel(Group::Tilt, Limit::Max),
        24 => Stage::MountPitchMin,
        25 => Stage::MountPitchMax,
        26 => Stage::MountKind,
        _ => Stage::Scripting,
    }
}

/// The servo output that a group is bound to. The camera group has none and
/// is given the focus output.
pub open spec fn channel_of(p: ActuatorsParameters, g: Group) -> ServoChannel {
    match g {
        Group::Script => p.script_channel,
        Group::Zoom => p.zoom_channel,
        Group::Tilt => p.tilt_channel,
        _ => p.focus_channel,
    }
}

/// The servo output that the patch names for a group.
pub open spec fn patch_channel(c: ActuatorsParametersConfig, g: Group) -> Option<ServoChannel> {
    match g {
        Group::Script => c.script_channel,
        Group::Focus => c.focus_channel,
        Group::Zoom => c.zoom_channel,
        Group::Tilt => c.tilt_channel,
        Group::Camera => None,
    }
}

/// The record with a group bound to another servo output.
pub open spec fn with_channel(p: ActuatorsParameters, g: Group, ch: ServoChannel)
    -> ActuatorsParameters {
    match g {
        Group::Script => ActuatorsParameters { script_channel: ch, ..p },
        Group::Focus => ActuatorsParameters { focus_channel: ch, ..p },
        Group::Zoom => ActuatorsParameters { zoom_channel: ch, ..p },
        Group::Tilt => ActuatorsParameters { tilt_channel: ch, ..p },
        Group::Camera => p,
    }
}

/// One travel limit of a group's servo output.
pub open spec fn limit_of(p: ActuatorsParameters, g: Group, l: Limit) -> u16 {
    match (g, l) {
        (Group::Script, Limit::Min) => p.script_channel_min,
        (Group::Script, Limit::Trim) => p.script_channel_trim,
        (Group::Script, Limit::Max) => p.script_channel_max,
        (Group::Zoom, Limit::Min) => p.zoom_channel_min,
        (Group::Zoom, Limit::Trim) => p.zoom_channel_trim,
        (Group::Zoom, Limit::Max) => p.zoom_channel_max,
        (Group::Tilt, Limit::Min) => p.tilt_channel_min,
        (Group::Tilt, Limit::Trim) => p.tilt_channel_trim,
        (Group::Tilt, Limit::Max) => p.tilt_channel_max,
        (_, Limit::Min) => p.focus_channel_min,
        (_, Limit::Trim) => p.focus_channel_trim,
        (_, Limit::Max) => p.focus_channel_max,
    }
}

/// The travel limit that the patch names.
pub open spec fn patch_limit(c: ActuatorsParametersConfig, g: Group, l: Limit) -> Option<u16> {
    match (g, l) {
        (Group::Script, Limit::Min) => c.script_channel_min,
        (Group::Script, Limit::Trim) => c.script_channel_trim,
        (Group::Script, Limit::Max) => c.script_channel_max,
        (Group::Focus, Limit::Min) => c.focus_channel_min,
        (Group::Focus, Limit::Trim) => c.focus_channel_trim,
        (Group::Focus, Limit::Max) => c.focus_channel_max,
        (Group::Zoom, Limit::Min) => c.zoom_channel_min,
        (Group::Zoom, Limit::Trim) => c.zoom_channel_trim,
        (Group::Zoom, Limit::Max) => c.zoom_channel_max,
        (Group::Tilt, Limit::Min) => c.tilt_channel_min,
        (Group::Tilt, Limit::Trim) => c.tilt_channel_trim,
        (Group::Tilt, Limit::Max) => c.tilt_channel_max,
        (Group::Camera, _) => None,
    }
}

/// The record with one travel limit replaced.
pub open spec fn with_limit(p: ActuatorsParameters, g: Group, l: Limit, v: u16)
    -> ActuatorsParameters {
    match (g, l) {
        (Group::Script, Limit::Min) => ActuatorsParameters { script_channel_min: v, ..p },
        (Group::Script, Limit::Trim) => ActuatorsParameters { script_channel_trim: v, ..p },
        (Group::Script, Limit::Max) => ActuatorsParameters { script_channel_max: v, ..p },
        (Group::Focus, Limit::Min) => ActuatorsParameters { focus_channel_min: v, ..p },
        (Group::Focus, Limit::Trim) => ActuatorsParameters { focus_channel_trim: v, ..p },
        (Group::Focus, Limit::Max) => ActuatorsParameters { focus_channel_max: v, ..p },
        (Group::Zoom, Limit::Min) => ActuatorsParameters { zoom_channel_min: v, ..p },
        (Group::Zoom, Limit::Trim) => ActuatorsParameters { zoom_channel_trim: v, ..p },
        (Group::Zoom, Limit::Max) => ActuatorsParameters { zoom_channel_max: v, ..p },
        (Group::Tilt, Limit::Min) => ActuatorsParameters { tilt_channel_min: v, ..p },
        (Group::Tilt, Limit::Trim) => ActuatorsParameters { tilt_channel_trim: v, ..p },
        (Group::Tilt, Limit::Max) => ActuatorsParameters { tilt_channel_max: v, ..p },
        (Group::Camera, _) => p,
    }
}

/// Whether a servo output is the output of another group than `g`.
pub open spec fn taken_elsewhere(p: ActuatorsParameters, g: Group, ch: ServoChannel) -> bool {
    ||| (g != Group::Script && p.script_channel == ch)
    ||| (g != Group::Focus && p.focus_channel == ch)
    ||| (g != Group::Zoom && p.zoom_channel == ch)
    ||| (g != Group::Tilt && p.tilt_channel == ch)
}

/// The function code that a group's servo output is given: camera focus for
/// the focus and the script group (the script reads what the focus input
/// says), camera zoom for the zoom group, and for the tilt group the pitch
/// of the mount that belongs to the camera slot.
pub open spec fn function_of(g: Group, camera: CameraID) -> ChannelFunction {
    match g {
        Group::Zoom => ChannelFunction::CameraZoom,
        Group::Tilt => match camera {
            CameraID::CAM1 => ChannelFunction::Mount1Pitch,
            CameraID::CAM2 => ChannelFunction::Mount2Pitch,
        },
        _ => ChannelFunction::CameraFocus,
    }
}

/// A name made of a prefix, a number and a suffix, as in `SERVO11_MIN`.
pub open spec fn numbered(prefix: Seq<char>, n: nat, suffix: Seq<char>) -> Seq<char> {
    prefix + decimal(n) + suffix
}

/// The suffix of the parameter of a travel limit.
pub open spec fn limit_suffix(l: Limit) -> Seq<char> {
    match l {
        Limit::Min => "_MIN"@,
        Limit::Trim => "_TRIM"@,
        Limit::Max => "_MAX"@,
    }
}

/// What a stage intends: which parameter, which value, and what follows from
/// the outcome.
pub struct Intent {
    /// The parameter's name.
    pub name: Seq<char>,
    /// The value that the parameter is to take.
    pub target: ParamType,
    /// Whether the write is made even where the autopilot already holds the
    /// value.
    pub forced: bool,
    /// The record once the autopilot holds the value.
    pub after: ActuatorsParameters,
    /// Whether the record also takes the value where no write was needed.
    pub settles_when_equal: bool,
    /// Whether a write means that the autopilot has to be rebooted and that
    /// the rest of the group is forced.
    pub marks_reboot: bool,
}

/// The value 0 or 1 of a switch.
pub open spec fn switch_value(on: bool) -> u8 {
    if on {
        1
    } else {
        0
    }
}

/// What the stage of a group's parameters intends, for a record, a patch of
/// parameters and the two flags; `None` where the stage has nothing to do.
pub open spec fn group_intent(
    stage: Stage,
    record: ActuatorsParameters,
    patch: ActuatorsParametersConfig,
    force: bool,
    overwrite: bool,
) -> Option<Intent> {
    let camera = record.camera_id.spec_code() as nat;
    match stage {
        Stage::Disable(Group::Camera) => match patch.camera_id {
            Some(c) => if record.camera_id != c {
                Some(
                    Intent {
                        name: numbered("CAM"@, camera, "_TYPE"@),
                        target: ParamType::UINT8(CameraType::Disabled.spec_code()),
                        forced: false,
                        after: record,
                        settles_when_equal: false,
                        marks_reboot: true,
                    },
                )
            } else {
                None
            },
            None => None,
        },
        Stage::Assign(Group::Camera) => match patch.camera_id {
            Some(c) => Some(
                Intent {
                    name: numbered("CAM"@, c.spec_code() as nat, "_TYPE"@),
                    target: ParamType::UINT8(CameraType::Servo.spec_code()),
                    forced: overwrite,
                    after: ActuatorsParameters { camera_id: c, ..record },
                    settles_when_equal: false,
                    marks_reboot: true,
                },
            ),
            None => None,
        },
        Stage::Disable(g) => match patch_channel(patch, g) {
            Some(ch) => if channel_of(record, g) != ch && !taken_elsewhere(record, g, ch) {
                Some(
                    Intent {
                        name: numbered(
                            "SERVO"@,
                            channel_of(record, g).spec_code() as nat,
                            "_FUNCTION"@,
                        ),
                        target: ParamType::INT16(ChannelFunction::Disabled.spec_code() as i16),
                        forced: false,
                        after: record,
                        settles_when_equal: false,
                        marks_reboot: true,
                    },
                )
            } else {
                None
            },
            None => None,
        },
        Stage::Assign(g) => match patch_channel(patch, g) {
            Some(ch) => if !taken_elsewhere(record, g, ch) {
                Some(
                    Intent {
                        name: numbered("SERVO"@, ch.spec_code() as nat, "_FUNCTION"@),
                        target: ParamType::INT16(
                            function_of(g, record.camera_id).spec_code() as i16,
                        ),
                        forced: overwrite,
                        after: with_channel(record, g, ch),
                        settles_when_equal: false,
                        marks_reboot: true,
                    },
                )
            } else {
                None
            },
            None => None,
        },
        Stage::Travel(g, l) => if g != Group::Camera && (patch_limit(patch, g, l) is Some
            || force) {
            let v = or_default(patch_limit(patch, g, l), limit_of(record, g, l));
            Some(
                Intent {
                    name: numbered(
                        "SERVO"@,
                        channel_of(record, g).spec_code() as nat,
                        limit_suffix(l),
                    ),
                    target: ParamType::UINT16(v),
                    forced: force,
                    after: with_limit(record, g, l, v),
                    settles_when_equal: true,
                    marks_reboot: false,
                },
            )
        } else {
            None
        },
        Stage::ScriptEnable => if patch.enable_focus_and_zoom_correlation is Some || force {
            let v = or_default(
                patch.enable_focus_and_zoom_correlation,
                record.enable_focus_and_zoom_correlation,
            );
            Some(
                Intent {
                    name: numbered("RCAM"@, camera, "_ENABLE"@),
                    target: ParamType::UINT8(switch_value(v)),
                    forced: force,
                    after: ActuatorsParameters { enable_focus_and_zoom_correlation: v, ..record },
                    settles_when_equal: true,
                    marks_reboot: false,
                },
            )
        } else {
            None
        },
        Stage::ScriptGain => if patch.focus_margin_gain is Some || force {
            let v = or_default(patch.focus_margin_gain, record.focus_margin_gain);
            Some(
                Intent {
                    name: numbered("RCAM"@, camera, "_GAIN"@),
                    target: ParamType::REAL32(v),
                    forced: force,
                    after: ActuatorsParameters { focus_margin_gain: v, ..record },
                    settles_when_equal: true,
                    marks_reboot: false,
                },
            )
        } else {
            None
        },
        Stage::MountPitchMin => if patch.tilt_mnt_pitch_min is Some || force {
            let v = or_default(patch.tilt_mnt_pitch_min, record.tilt_mnt_pitch_min);
            Some(
                Intent {
                    name: numbered("MNT"@, camera, "_PITCH_MIN"@),
                    target: ParamType::INT32(v),
                    forced: force,
                    after: ActuatorsParameters { tilt_mnt_pitch_min: v, ..record },
                    settles_when_equal: true,
                    marks_reboot: false,
                },
            )
        } else {
            None
        },
        Stage::MountPitchMax => if patch.tilt_mnt_pitch_max is Some || force {
            let v = or_default(patch.tilt_mnt_pitch_max, record.tilt_mnt_pitch_max);
            Some(
                Intent {
                    name: numbered("MNT"@, camera, "_PITCH_MAX"@),
                    target: ParamType::INT32(v),
                    forced: force,
                    after: ActuatorsParameters { tilt_mnt_pitch_max: v, ..record },
                    settles_when_equal: true,
                    marks_reboot: false,
                },
            )
        } else {
            None
        },
        Stage::MountKind => if patch.tilt_mnt_type is Some || force {
            let v = or_default(patch.tilt_mnt_type, record.tilt_mnt_type);
            Some(
                Intent {
                    name: numbered("MNT"@, camera, "_TYPE"@),
                    target: ParamType::UINT8(v.spec_code()),
                    forced: force,
                    after: ActuatorsParameters { tilt_mnt_type: v, ..record },
                    settles_when_equal: true,
                    marks_reboot: false,
                },
            )
        } else {
            None
        },
        Stage::Scripting => None,
    }
}

/// What a stage intends. The stages of the parameter groups act only where
/// the patch has parameters; the scripting switch is looked at in every
/// sweep and set to one.
pub open spec fn intent(
    stage: Stage,
    record: ActuatorsParameters,
    patch: Option<ActuatorsParametersConfig>,
    force: bool,
    overwrite: bool,
) -> Option<Intent> {
    match stage {
        Stage::Scripting => Some(
            Intent {
                name: "SCR_ENABLE"@,
                target: ParamType::REAL32(SINGLE_ONE),
                forced: overwrite,
                after: record,
                settles_when_equal: false,
                marks_reboot: true,
            },
        ),
        _ => match patch {
            Some(p) => group_intent(stage, record, p, force, overwrite),
            None => None,
        },
    }
}

/// A transaction of the sweep: what a stage intends, ready to be carried
/// out.
#[derive(Debug, PartialEq, Eq)]
pub struct Transaction {
    pub name: String,
    pub target: ParamType,
    pub forced: bool,
    pub after: ActuatorsParameters,
    pub settles_when_equal: bool,
    pub marks_reboot: bool,
}

impl View for Transaction {
    type V = Intent;

    open spec fn view(&self) -> Intent {
        Intent {
            name: self.name@,
            target: self.target,
            forced: self.forced,
            after: self.after,
            settles_when_equal: self.settles_when_equal,
            marks_reboot: self.marks_reboot,
        }
    }
}

/// How a transaction went.
#[derive(Debug, Clone, Copy, PartialEq, Eq, Structural)]
pub enum Outcome {
    /// The value was written and the autopilot confirmed it.
    Written,
    /// The autopilot already held the value; nothing was written.
    AlreadySet,
    /// The read or the write failed; the transaction was skipped.
    Failed,
}

fn numbered_name(prefix: &str, n: u8, suffix: &str) -> (s: String)
    ensures
        s@ == numbered(prefix@, n as nat, suffix@),
{
    let mut s = String::from_str(prefix);
    push_decimal(&mut s, n as u64);
    s.append(suffix);
    s
}

fn limit_name(channel: ServoChannel, l: Limit) -> (s: String)
    ensures
        s@ == numbered("SERVO"@, channel.spec_code() as nat, limit_suffix(l)),
{
    match l {
        Limit::Min => numbered_name("SERVO", channel.code(), "_MIN"),
        Limit::Trim => numbered_name("SERVO", channel.code(), "_TRIM"),
        Limit::Max => numbered_name("SERVO", channel.code(), "_MAX"),
    }
}

fn channel(p: &ActuatorsParameters, g: Group) -> (c: ServoChannel)
    ensures
        c == channel_of(*p, g),
{
    match g {
        Group::Script => p.script_channel,
        Group::Zoom => p.zoom_channel,
        Group::Tilt => p.tilt_channel,
        _ => p.focus_channel,
    }
}

fn named_channel(c: &ActuatorsParametersConfig, g: Group) -> (r: Option<ServoChannel>)
    ensures
        r == patch_channel(*c, g),
{
    match g {
        Group::Script => c.script_channel,
        Group::Focus => c.focus_channel,
        Group::Zoom => c.zoom_channel,
        Group::Tilt => c.tilt_channel,
        Group::Camera => None,
    }
}

fn rebound(p: &ActuatorsParameters, g: Group, ch: ServoChannel) -> (r: ActuatorsParameters)
    ensures
        r == with_channel(*p, g, ch),
{
    match g {
        Group::Script => ActuatorsParameters { script_channel: ch, ..*p },
        Group::Focus => ActuatorsParameters { focus_channel: ch, ..*p },
        Group::Zoom => ActuatorsParameters { zoom_channel: ch, ..*p },
        Group::Tilt => ActuatorsParameters { tilt_channel: ch, ..*p },
        Group::Camera => *p,
    }
}

fn limit(p: &ActuatorsParameters, g: Group, l: Limit) -> (v: u16)
    ensures
        v == limit_of(*p, g, l),
{
    match (g, l) {
        (Group::Script, Limit::Min) => p.script_channel_min,
        (Group::Script, Limit::Trim) => p.script_channel_trim,
        (Group::Script, Limit::Max) => p.script_channel_max,
        (Group::Zoom, Limit::Min) => p.zoom_channel_min,
        (Group::Zoom, Limit::Trim) => p.zoom_channel_trim,
        (Group::Zoom, Limit::Max) => p.zoom_channel_max,
        (Group::Tilt, Limit::Min) => p.tilt_channel_min,
        (Group::Tilt, Limit::Trim) => p.tilt_channel_trim,
        (Group::Tilt, Limit::Max) => p.tilt_channel_max,
        (_, Limit::Min) => p.focus_channel_min,
        (_, Limit::Trim) => p.focus_channel_trim,
        (_, Limit::Max) => p.focus_channel_max,
    }
}

fn named_limit(c: &ActuatorsParametersConfig, g: Group, l: Limit) -> (r: Option<u16>)
    ensures
        r == patch_limit(*c, g, l),
{
    match (g, l) {
        (Group::Script, Limit::Min) => c.script_channel_min,
        (Group::Script, Limit::Trim) => c.script_channel_trim,
        (Group::Script, Limit::Max) => c.script_channel_max,
        (Group::Focus, Limit::Min) => c.focus_channel_min,
        (Group::Focus, Limit::Trim) => c.focus_channel_trim,
        (Group::Focus, Limit::Max) => c.focus_channel_max,
        (Group::Zoom, Limit::Min) => c.zoom_channel_min,
        (Group::Zoom, Limit::Trim) => c.zoom_channel_trim,
        (Group::Zoom, Limit::Max) => c.zoom_channel_max,
        (Group::Tilt, Limit::Min) => c.tilt_channel_min,
        (Group::Tilt, Limit::Trim) => c.tilt_channel_trim,
        (Group::Tilt, Limit::Max) => c.tilt_channel_max,
        (Group::Camera, _) => None,
    }
}

fn relimited(p: &ActuatorsParameters, g: Group, l: Limit, v: u16) -> (r: ActuatorsParameters)
    ensures
        r == with_limit(*p, g, l, v),
{
    match (g, l) {
        (Group::Script, Limit::Min) => ActuatorsParameters { script_channel_min: v, ..*p },
        (Group::Script, Limit::Trim) => ActuatorsParameters { script_channel_trim: v, ..*p },
        (Group::Script, Limit::Max) => ActuatorsParameters { script_channel_max: v, ..*p },
        (Group::Focus, Limit::Min) => ActuatorsParameters { focus_channel_min: v, ..*p },
        (Group::Focus, Limit::Trim) => ActuatorsParameters { focus_channel_trim: v, ..*p },
        (Group::Focus, Limit::Max) => ActuatorsParameters { focus_channel_max: v, ..*p },
        (Group::Zoom, Limit::Min) => ActuatorsParameters { zoom_channel_min: v, ..*p },
        (Group::Zoom, Limit::Trim) => ActuatorsParameters { zoom_channel_trim: v, ..*p },
        (Group::Zoom, Limit::Max) => ActuatorsParameters { zoom_channel_max: v, ..*p },
        (Group::Tilt, Limit::Min) => ActuatorsParameters { tilt_channel_min: v, ..*p },
        (Group::Tilt, Limit::Trim) => ActuatorsParameters { tilt_channel_trim: v, ..*p },
        (Group::Tilt, Limit::Max) => ActuatorsParameters { tilt_channel_max: v, ..*p },
        (Group::Camera, _) => *p,
    }
}

fn taken(p: &ActuatorsParameters, g: Group, ch: ServoChannel) -> (r: bool)
    ensures
        r == taken_elsewhere(*p, g, ch),
{
    (g != Group::Script && p.script_channel == ch) || (g != Group::Focus && p.focus_channel == ch)
        || (g != Group::Zoom && p.zoom_channel == ch) || (g != Group::Tilt && p.tilt_channel
        == ch)
}

fn function(g: Group, camera: CameraID) -> (f: ChannelFunction)
    ensures
        f == function_of(g, camera),
{
    match g {
        Group::Zoom => ChannelFunction::CameraZoom,
        Group::Tilt => match camera {
            CameraID::CAM1 => ChannelFunction::Mount1Pitch,
            CameraID::CAM2 => ChannelFunction::Mount2Pitch,
        },
        _ => ChannelFunction::CameraFocus,
    }
}

fn pick<T: Copy>(named: Option<T>, current: T) -> (v: T)
    ensures
        v == or_default(named, current),
{
    match named {
        Some(v) => v,
        None => current,
    }
}

/// The transaction of a stage of the parameter groups, or nothing where the
/// stage has nothing to do.
pub fn group_transaction(
    stage: Stage,
    record: &ActuatorsParameters,
    patch: &ActuatorsParametersConfig,
    force: bool,
    overwrite: bool,
) -> (r: Option<Transaction>)
    ensures
        match group_intent(stage, *record, *patch, force, overwrite) {
            Some(i) => r matches Some(t) && t@ == i,
            None => r is None,
        },
{
    let camera = record.camera_id.code();
    match stage {
        Stage::Disable(Group::Camera) => match patch.camera_id {
            Some(c) => if record.camera_id != c {
                Some(
                    Transaction {
                        name: numbered_name("CAM", camera, "_TYPE"),
                        target: ParamType::UINT8(CameraType::Disabled.code()),
                        forced: false,
                        after: *record,
                        settles_when_equal: false,
                        marks_reboot: true,
                    },
                )
            } else {
                None
            },
            None => None,
        },
        Stage::Assign(Group::Camera) => match patch.camera_id {
            Some(c) => Some(
                Transaction {
                    name: numbered_name("CAM", c.code(), "_TYPE"),
                    target: ParamType::UINT8(CameraType::Servo.code()),
                    forced: overwrite,
                    after: ActuatorsParameters { camera_id: c, ..*record },
                    settles_when_equal: false,
                    marks_reboot: true,
                },
            ),
            None => None,
        },
        Stage::Disable(g) => match named_channel(patch, g) {
            Some(ch) => if channel(record, g) != ch && !taken(record, g, ch) {
                Some(
                    Transaction {
                        name: numbered_name("SERVO", channel(record, g).code(), "_FUNCTION"),
                        target: ParamType::INT16(ChannelFunction::Disabled.code() as i16),
                        forced: false,
                        after: *record,
                        settles_when_equal: false,
                        marks_reboot: true,
                    },
                )
            } else {
                None
            },
            None => None,
        },
        Stage::Assign(g) => match named_channel(patch, g) {
            Some(ch) => if !taken(record, g, ch) {
                Some(
                    Transaction {
                        name: numbered_name("SERVO", ch.code(), "_FUNCTION"),
                        target: ParamType::INT16(function(g, record.camera_id).code() as i16),
                        forced: overwrite,
                        after: rebound(record, g, ch),
                        settles_when_equal: false,
                        marks_reboot: true,
                    },
                )
            } else {
                None
            },
            None => None,
        },
        Stage::Travel(g, l) => {
            let named = named_limit(patch, g, l);
            if g != Group::Camera && (named.is_some() || force) {
                let v = pick(named, limit(record, g, l));
                Some(
                    Transaction {
                        name: limit_name(channel(record, g), l),
                        target: ParamType::UINT16(v),
                        forced: force,
                        after: relimited(record, g, l, v),
                        settles_when_equal: true,
                        marks_reboot: false,
                    },
                )
            } else {
                None
            }
        },
        Stage::ScriptEnable => if patch.enable_focus_and_zoom_correlation.is_some() || force {
            let v = pick(
                patch.enable_focus_and_zoom_correlation,
                record.enable_focus_and_zoom_correlation,
            );
            Some(
                Transaction {
                    name: numbered_name("RCAM", camera, "_ENABLE"),
                    target: ParamType::UINT8(
                        if v {
                            1
                        } else {
                            0
                        },
                    ),
                    forced: force,
                    after: ActuatorsParameters { enable_focus_and_zoom_correlation: v, ..*record },
                    settles_when_equal: true,
                    marks_reboot: false,
                },
            )
        } else {
            None
        },
        Stage::ScriptGain => if patch.focus_margin_gain.is_some() || force {
            let v = pick(patch.focus_margin_gain, record.focus_margin_gain);
            Some(
                Transaction {
                    name: numbered_name("RCAM", camera, "_GAIN"),
                    target: ParamType::REAL32(v),
                    forced: force,
                    after: ActuatorsParameters { focus_margin_gain: v, ..*record },
                    settles_when_equal: true,
                    marks_reboot: false,
                },
            )
        } else {
            None
        },
        Stage::MountPitchMin => if patch.tilt_mnt_pitch_min.is_some() || force {
            let v = pick(patch.tilt_mnt_pitch_min, record.tilt_mnt_pitch_min);
            Some(
                Transaction {
                    name: numbered_name("MNT", camera, "_PITCH_MIN"),
                    target: ParamType::INT32(v),
                    forced: force,
                    after: ActuatorsParameters { tilt_mnt_pitch_min: v, ..*record },
                    settles_when_equal: true,
                    marks_reboot: false,
                },
            )
        } else {
            None
        },
        Stage::MountPitchMax => if patch.tilt_mnt_pitch_max.is_some() || force {
            let v = pick(patch.tilt_mnt_pitch_max, record.tilt_mnt_pitch_max);
            Some(
                Transaction {
                    name: numbered_name("MNT", camera, "_PITCH_MAX"),
                    target: ParamType::INT32(v),
                    forced: force,
                    after: ActuatorsParameters { tilt_mnt_pitch_max: v, ..*record },
                    settles_when_equal: true,
                    marks_reboot: false,
                },
            )
        } else {
            None
        },
        Stage::MountKind => if patch.tilt_mnt_type.is_some() || force {
            let v = pick(patch.tilt_mnt_type, record.tilt_mnt_type);
            Some(
                Transaction {
                    name: numbered_name("MNT", camera, "_TYPE"),
                    target: ParamType::UINT8(v.code()),
                    forced: force,
                    after: ActuatorsParameters { tilt_mnt_type: v, ..*record },
                    settles_when_equal: true,
                    marks_reboot: false,
                },
            )
        } else {
            None
        },
        Stage::Scripting => None,
    }
}

/// The transaction of a stage, or nothing where the stage has nothing to
/// do.
pub fn transaction(
    stage: Stage,
    record: &ActuatorsParameters,
    patch: &Option<ActuatorsParametersConfig>,
    force: bool,
    overwrite: bool,
) -> (r: Option<Transaction>)
    ensures
        match intent(stage, *record, *patch, force, overwrite) {
            Some(i) => r matches Some(t) && t@ == i,
            None => r is None,
        },
{
    match stage {
        Stage::Scripting => Some(
            Transaction {
                name: String::from_str("SCR_ENABLE"),
                target: ParamType::REAL32(SINGLE_ONE),
                forced: overwrite,
                after: *record,
                settles_when_equal: false,
                marks_reboot: true,
            },
        ),
        _ => match patch {
            Some(p) => group_transaction(stage, record, p, force, overwrite),
            None => None,
        },
    }
}


/// The write that a transaction makes, given what the autopilot holds.
///
/// The intended value is passed through the parameter's own type. The
/// parameter with that value is to be written where the transaction is
/// forced or the value differs from the current one; otherwise nothing is to
/// be written. Under the unsupported encoding, and for a parameter of more
/// than one wire word, the transaction cannot be carried out.
pub fn plan_write(t: &Transaction, current: &Parameter, encoding: ParamEncodingType) -> (r: Result<
    Option<Parameter>,
    CoreError,
>)
    requires
        !t.target.spec_is_wide(),
    ensures
        match r {
            Err(e) => if encoding == ParamEncodingType::Unsupported {
                e == CoreError::UnsupportedEncoding
            } else {
                current.value.spec_is_wide() && e == CoreError::Decode
            },
            Ok(w) => {
                let value = restamped(current.value, t.target, encoding);
                &&& encoding != ParamEncodingType::Unsupported
                &&& !current.value.spec_is_wide()
                &&& match w {
                    Some(p) => (t.forced || current.value != value) && p@ == (ParameterView {
                        name: current.name@,
                        value,
                    }),
                    None => !t.forced && current.value == value,
                }
            },
        },
{
    if encoding == ParamEncodingType::Unsupported {
        return Err(CoreError::UnsupportedEncoding);
    }
    if current.value.is_wide() {
        return Err(CoreError::Decode);
    }
    let mut param = current.clone();
    match param.value.set_value(t.target, encoding) {
        Ok(()) => {},
        Err(e) => {
            return Err(e);
        },
    }
    if t.forced || current.value != param.value {
        Ok(Some(param))
    } else {
        Ok(None)
    }
}

/// Where a configuration update stands.
#[derive(Debug, Clone, Copy, PartialEq, Eq, Structural)]
pub enum Phase {
    /// The parameter transactions.
    Parameters,
    /// The control script is to be rendered and written.
    Export,
    /// The scripting engine is to be restarted, where the script changed.
    Reload,
    /// The autopilot is to be rebooted, where a binding changed.
    Reboot,
    /// The records are to be saved.
    Persist,
    /// Nothing is left to do.
    Done,
}

/// The next thing that the caller of an update has to do.
#[derive(Debug)]
pub enum Step {
    /// Read the named parameter, ask `plan_write` what to write, write it,
    /// and report the outcome with `settle`.
    Parameter(Transaction),
    /// Render and write the control script and report with `exported`.
    ExportScript { overwrite: bool },
    /// Send the script reload command and report with `commanded`.
    ReloadScripts,
    /// Send the reboot command and report with `commanded`.
    RebootAutopilot,
    /// Save the records and report with `persisted`.
    Persist,
    /// The update is over; `into_result` gives its result.
    Finished,
}

/// What the transaction that is out will do to the record.
#[derive(Debug, Clone, Copy, PartialEq, Eq, Structural)]
pub struct Pending {
    pub after: ActuatorsParameters,
    pub settles_when_equal: bool,
    pub marks_reboot: bool,
}

/// The first position from `i` on and before `end` whose stage has
/// something to do, and the force flag there; `end` (or `i`, where that is
/// past it) where there is no such stage. The flag starts from the
/// overwrite flag at the first stage of each group.
pub open spec fn settle_point(
    i: int,
    end: int,
    record: ActuatorsParameters,
    patch: Option<ActuatorsParametersConfig>,
    force: bool,
    overwrite: bool,
) -> (int, bool)
    decreases end - i,
{
    if i >= end || i < 0 {
        (i, force)
    } else {
        let f = if group_start(i) {
            overwrite
        } else {
            force
        };
        if intent(stage_at(i), record, patch, f, overwrite) is Some {
            (i, f)
        } else {
            settle_point(i + 1, end, record, patch, f, overwrite)
        }
    }
}

/// Where a walk over the stages from `start` to `end` begins, and with
/// which force flag: at the cursor where that lies within or past the
/// range, and at `start`, with the flag of a fresh group, where the cursor
/// has not reached the range.
pub open spec fn entry_point(cursor: int, start: int, force: bool, overwrite: bool) -> (
    int,
    bool,
) {
    if cursor < start {
        (start, overwrite)
    } else {
        (cursor, force)
    }
}

/// The phase in which something is to be done, from `phase` on: a reload
/// that is not needed and a reboot that is not needed are passed over.
pub open spec fn effective_phase(phase: Phase, reload: bool, reboot: bool) -> Phase {
    match phase {
        Phase::Reload => if reload {
            Phase::Reload
        } else if reboot {
            Phase::Reboot
        } else {
            Phase::Persist
        },
        Phase::Reboot => if reboot {
            Phase::Reboot
        } else {
            Phase::Persist
        },
        other => other,
    }
}

/// Whether a patch of parameters names no value.
pub open spec fn names_nothing(patch: Option<ActuatorsParametersConfig>) -> bool {
    patch matches Some(p) ==> p == ActuatorsParametersConfig::spec_empty()
}

/// The update of one camera's configuration in progress.
#[derive(Debug)]
pub struct ConfigUpdate {
    /// The camera.
    pub camera_uuid: u128,
    /// The camera's record as far as the update has brought it.
    pub actuators: CameraActuators,
    /// The parameters that the patch names.
    pub patch: Option<ActuatorsParametersConfig>,
    /// Whether every value is written, needed or not.
    pub overwrite: bool,
    /// The position of the stage that is next.
    pub cursor: u8,
    /// Whether the rest of the current group is forced.
    pub force: bool,
    /// Whether the autopilot has to be rebooted.
    pub reboot: bool,
    /// Whether the scripting engine has to be restarted.
    pub reload: bool,
    /// Where the update stands.
    pub phase: Phase,
    /// The effect of the transaction that was handed out and not settled.
    pub pending: Option<Pending>,
    /// Why the update failed, once it has.
    pub failure: Option<CoreError>,
}

/// The effect that a stage's intent has on the record.
pub open spec fn effect_of(i: Intent) -> Pending {
    Pending {
        after: i.after,
        settles_when_equal: i.settles_when_equal,
        marks_reboot: i.marks_reboot,
    }
}

/// The table that a record has after a patch: the patch's table where it
/// has one.
pub open spec fn table_after(current: Seq<FocusZoomPoint>, named: Option<Seq<FocusZoomPoint>>)
    -> Seq<FocusZoomPoint> {
    match named {
        Some(t) => t,
        None => current,
    }
}

/// The parameters that a record has when an update begins: the two fields
/// that live in memory only take the patch's values at once.
pub open spec fn parameters_at_start(
    current: ActuatorsParameters,
    patch: Option<ActuatorsParametersConfig>,
) -> ActuatorsParameters {
    match patch {
        Some(p) => ActuatorsParameters {
            script_function: or_default(p.script_function, current.script_function),
            tilt_channel_reversed: or_default(p.tilt_channel_reversed, current.tilt_channel_reversed),
            ..current
        },
        None => current,
    }
}

fn adopt_memory_fields(current: ActuatorsParameters, patch: &Option<ActuatorsParametersConfig>)
    -> (r: ActuatorsParameters)
    ensures
        r == parameters_at_start(current, *patch),
        names_nothing(*patch) ==> r == current,
{
    match patch {
        Some(p) => ActuatorsParameters {
            script_function: pick(p.script_function, current.script_function),
            tilt_channel_reversed: pick(p.tilt_channel_reversed, current.tilt_channel_reversed),
            ..current
        },
        None => current,
    }
}

/// What a walk over the stages from `start` up to `end` does to an update,
/// and what it hands out.
///
/// Outside the parameter phase nothing changes and nothing is handed out.
/// In it, the walk stops at the first stage from its entry point on that has
/// something to do, hands that stage's transaction out and notes its effect
/// as pending; where no stage before `end` has anything to do, it stops at
/// `end` and hands nothing out. Nothing but the cursor, the force flag and
/// the pending effect changes.
pub open spec fn advanced(
    before: ConfigUpdate,
    after: ConfigUpdate,
    r: Option<Transaction>,
    start: int,
    end: int,
) -> bool {
    &&& after.camera_uuid == before.camera_uuid
    &&& after.actuators == before.actuators
    &&& after.patch == before.patch
    &&& after.overwrite == before.overwrite
    &&& after.reboot == before.reboot
    &&& after.reload == before.reload
    &&& after.failure == before.failure
    &&& after.phase == before.phase
    &&& if before.phase != Phase::Parameters {
        &&& r is None
        &&& after.cursor == before.cursor
        &&& after.force == before.force
        &&& after.pending == before.pending
    } else {
        let from = entry_point(before.cursor as int, start, before.force, before.overwrite);
        let at = settle_point(
            from.0,
            end,
            before.actuators.parameters,
            before.patch,
            from.1,
            before.overwrite,
        );
        &&& after.cursor == at.0
        &&& after.force == at.1
        &&& if at.0 < end {
            r matches Some(t) && Some(t@) == intent(
                stage_at(at.0),
                before.actuators.parameters,
                before.patch,
                at.1,
                before.overwrite,
            ) && after.pending == Some(effect_of(t@))
        } else {
            r is None && after.pending is None
        }
    }
}

impl ConfigUpdate {
    /// Well-formedness: the cursor is within the stages, and the effect of
    /// a transaction that is out is the effect of the stage at the cursor.
    pub open spec fn wf(&self) -> bool {
        &&& self.cursor <= STAGES
        &&& self.pending matches Some(p) ==> self.phase == Phase::Parameters && self.cursor
            < STAGES && (intent(
            stage_at(self.cursor as int),
            self.actuators.parameters,
            self.patch,
            self.force,
            self.overwrite,
        ) matches Some(i) && p == effect_of(i))
        &&& self.failure is Some ==> self.phase == Phase::Done
    }

    /// Begins the update of a camera's record with a patch.
    ///
    /// The parts of the patch that live in memory only are taken over at
    /// once: the calibration tables, the script function and the tilt
    /// direction. A reload of the script is due where a table changed or
    /// `overwrite` is set; a reboot is due where `overwrite` is set.
    pub fn begin(
        camera_uuid: u128,
        actuators: CameraActuators,
        patch: &ActuatorsConfig,
        overwrite: bool,
    ) -> (u: ConfigUpdate)
        ensures
            u.wf(),
            u.camera_uuid == camera_uuid,
            u.patch == patch.parameters,
            u.overwrite == overwrite,
            u.cursor == 0,
            u.force == overwrite,
            u.reboot == overwrite,
            u.phase == Phase::Parameters,
            u.pending is None,
            u.failure is None,
            u.actuators.state == actuators.state,
            u.actuators.parameters == parameters_at_start(actuators.parameters, patch.parameters),
            u.actuators.closest_points@ == table_after(
                actuators.closest_points@,
                points_view(patch.closest_points),
            ),
            u.actuators.furthest_points@ == table_after(
                actuators.furthest_points@,
                points_view(patch.furthest_points),
            ),
            u.reload == (overwrite || u.actuators.closest_points@ != actuators.closest_points@
                || u.actuators.furthest_points@ != actuators.furthest_points@),
            patch@.is_empty() ==> u.actuators@ == actuators@,
            actuators.parameters.spec_channels_distinct()
                ==> u.actuators.parameters.spec_channels_distinct(),
    {
        let parameters = adopt_memory_fields(actuators.parameters, &patch.parameters);
        let mut update = ConfigUpdate {
            camera_uuid,
            actuators: CameraActuators { parameters, ..actuators },
            patch: patch.parameters,
            overwrite,
            cursor: 0,
            force: overwrite,
            reboot: overwrite,
            reload: overwrite,
            phase: Phase::Parameters,
            pending: None,
            failure: None,
        };
        match &patch.closest_points {
            Some(points) => {
                update.update_closest_points(points);
            },
            None => {},
        }
        match &patch.furthest_points {
            Some(points) => {
                update.update_furthest_points(points);
            },
            None => {},
        }
        update
    }

    /// Takes a new table for the closest focus distance into the record.
    /// Says whether the table changed; a changed table makes a reload of the
    /// script due.
    pub fn update_closest_points(&mut self, points: &FocusZoomPoints) -> (changed: bool)
        requires
            old(self).wf(),
        ensures
            final(self).wf(),
            changed == (points@ != old(self).actuators.closest_points@),
            final(self).actuators.closest_points@ == points@,
            final(self).reload == (old(self).reload || changed),
            final(self).actuators.parameters == old(self).actuators.parameters,
            final(self).actuators.furthest_points == old(self).actuators.furthest_points,
            final(self).actuators.state == old(self).actuators.state,
            final(self).camera_uuid == old(self).camera_uuid,
            final(self).patch == old(self).patch,
            final(self).overwrite == old(self).overwrite,
            final(self).cursor == old(self).cursor,
            final(self).force == old(self).force,
            final(self).reboot == old(self).reboot,
            final(self).phase == old(self).phase,
            final(self).pending == old(self).pending,
            final(self).failure == old(self).failure,
    {
        let changed = !points.same_as(&self.actuators.closest_points);
        self.actuators.closest_points = points.clone();
        if changed {
            self.reload = true;
        }
        changed
    }

    /// Takes a new table for the furthest focus distance into the record.
    /// Says whether the table changed; a changed table makes a reload of the
    /// script due.
    pub fn update_furthest_points(&mut self, points: &FocusZoomPoints) -> (changed: bool)
        requires
            old(self).wf(),
        ensures
            final(self).wf(),
            changed == (points@ != old(self).actuators.furthest_points@),
            final(self).actuators.furthest_points@ == points@,
            final(self).reload == (old(self).reload || changed),
            final(self).actuators.parameters == old(self).actuators.parameters,
            final(self).actuators.closest_points == old(self).actuators.closest_points,
            final(self).actuators.state == old(self).actuators.state,
            final(self).camera_uuid == old(self).camera_uuid,
            final(self).patch == old(self).patch,
            final(self).overwrite == old(self).overwrite,
            final(self).cursor == old(self).cursor,
            final(self).force == old(self).force,
            final(self).reboot == old(self).reboot,
            final(self).phase == old(self).phase,
            final(self).pending == old(self).pending,
            final(self).failure == old(self).failure,
    {
        let changed = !points.same_as(&self.actuators.furthest_points);
        self.actuators.furthest_points = points.clone();
        if changed {
            self.reload = true;
        }
        changed
    }

    /// The next transaction among the stages from `start` up to `end`, or
    /// nothing once none of them has anything left to do.
    ///
    /// The walk begins at the cursor, or at `start` where the cursor has not
    /// reached it, which passes over the stages in between. The stages that
    /// have nothing to do are passed over; the transaction of the first
    /// stage that has something to do is handed out, and handed out again
    /// until it is settled. Outside the parameter phase there is nothing to
    /// hand out.
    pub fn advance(&mut self, start: u8, end: u8) -> (r: Option<Transaction>)
        requires
            old(self).wf(),
            start <= end <= STAGES,
        ensures
            final(self).wf(),
            advanced(*old(self), *final(self), r, start as int, end as int),
            r matches Some(t) ==> !t.target.spec_is_wide(),
            names_nothing(old(self).patch) && !old(self).overwrite && !old(self).force ==> !final(self).force,
    {
        if self.phase != Phase::Parameters {
            return None;
        }
        self.pending = None;
        if self.cursor < start {
            self.cursor = start;
            self.force = self.overwrite;
        }
        let ghost from = entry_point(
            old(self).cursor as int,
            start as int,
            old(self).force,
            old(self).overwrite,
        );
        while self.cursor < end
            invariant
                self.cursor <= STAGES,
                end <= STAGES,
                self.phase == Phase::Parameters,
                old(self).phase == Phase::Parameters,
                self.pending is None,
                self.failure is None,
                self.failure == old(self).failure,
                self.camera_uuid == old(self).camera_uuid,
                self.actuators == old(self).actuators,
                self.patch == old(self).patch,
                self.overwrite == old(self).overwrite,
                self.reboot == old(self).reboot,
                self.reload == old(self).reload,
                from == entry_point(
                    old(self).cursor as int,
                    start as int,
                    old(self).force,
                    old(self).overwrite,
                ),
                from.0 <= self.cursor,
                settle_point(
                    self.cursor as int,
                    end as int,
                    self.actuators.parameters,
                    self.patch,
                    self.force,
                    self.overwrite,
                ) == settle_point(
                    from.0,
                    end as int,
                    old(self).actuators.parameters,
                    old(self).patch,
                    from.1,
                    old(self).overwrite,
                ),
                names_nothing(old(self).patch) && !old(self).overwrite && !old(self).force
                    ==> !self.force,
            decreases end - self.cursor,
        {
            if self.cursor == 0 || self.cursor == 2 || self.cursor == 9 || self.cursor == 14
                || self.cursor == 19 || self.cursor == 27 {
                self.force = self.overwrite;
            }
            match transaction(
                stage(self.cursor),
                &self.actuators.parameters,
                &self.patch,
                self.force,
                self.overwrite,
            ) {
                Some(t) => {
                    self.pending = Some(
                        Pending {
                            after: t.after,
                            settles_when_equal: t.settles_when_equal,
                            marks_reboot: t.marks_reboot,
                        },
                    );
                    return Some(t);
                },
                None => {
                    self.cursor = self.cursor + 1;
                },
            }
        }
        None
    }

    /// The next thing to do.
    ///
    /// First come the parameter transactions, stage by stage; after them the
    /// script export, the reload where one is due, the reboot where one is
    /// due, and the saving of the records. A step is handed out again until
    /// its outcome is reported.
    pub fn next(&mut self) -> (step: Step)
        requires
            old(self).wf(),
        ensures
            final(self).wf(),
            final(self).camera_uuid == old(self).camera_uuid,
            final(self).actuators == old(self).actuators,
            final(self).patch == old(self).patch,
            final(self).overwrite == old(self).overwrite,
            final(self).reboot == old(self).reboot,
            final(self).reload == old(self).reload,
            final(self).failure == old(self).failure,
            old(self).phase == Phase::Parameters ==> {
                let at = settle_point(
                    old(self).cursor as int,
                    STAGES as int,
                    old(self).actuators.parameters,
                    old(self).patch,
                    old(self).force,
                    old(self).overwrite,
                );
                &&& final(self).cursor == at.0
                &&& final(self).force == at.1
                &&& if at.0 < STAGES {
                    &&& final(self).phase == Phase::Parameters
                    &&& step matches Step::Parameter(t) && Some(t@) == intent(
                        stage_at(at.0),
                        old(self).actuators.parameters,
                        old(self).patch,
                        at.1,
                        old(self).overwrite,
                    ) && final(self).pending == Some(effect_of(t@)) && !t.target.spec_is_wide()
                } else {
                    &&& final(self).phase == Phase::Export
                    &&& final(self).pending is None
                    &&& step == (Step::ExportScript { overwrite: old(self).overwrite })
                }
            },
            old(self).phase != Phase::Parameters ==> {
                &&& final(self).cursor == old(self).cursor
                &&& final(self).force == old(self).force
                &&& final(self).pending == old(self).pending
                &&& final(self).phase == effective_phase(
                    old(self).phase,
                    old(self).reload,
                    old(self).reboot,
                )
                &&& step == (match final(self).phase {
                    Phase::Export => Step::ExportScript { overwrite: old(self).overwrite },
                    Phase::Reload => Step::ReloadScripts,
                    Phase::Reboot => Step::RebootAutopilot,
                    Phase::Persist => Step::Persist,
                    _ => Step::Finished,
                })
            },
            names_nothing(old(self).patch) && !old(self).overwrite && !old(self).force ==> !final(self).force,
    {
        match self.phase {
            Phase::Parameters => match self.advance(0, STAGES) {
                Some(t) => Step::Parameter(t),
                None => {
                    self.phase = Phase::Export;
                    Step::ExportScript { overwrite: self.overwrite }
                },
            },
            Phase::Export => Step::ExportScript { overwrite: self.overwrite },
            Phase::Reload => {
                if self.reload {
                    Step::ReloadScripts
                } else if self.reboot {
                    self.phase = Phase::Reboot;
                    Step::RebootAutopilot
                } else {
                    self.phase = Phase::Persist;
                    Step::Persist
                }
            },
            Phase::Reboot => {
                if self.reboot {
                    Step::RebootAutopilot
                } else {
                    self.phase = Phase::Persist;
                    Step::Persist
                }
            },
            Phase::Persist => Step::Persist,
            Phase::Done => Step::Finished,
        }
    }

    /// Settles the transaction that is out.
    ///
    /// The record takes the intended value where the value was written, and
    /// for a plain value also where the autopilot already held it. A write
    /// that binds or releases an output or a camera slot makes a reboot due
    /// and forces the rest of its group. A failed transaction changes
    /// nothing. Then the sweep moves to the next stage. Without a
    /// transaction out, nothing happens.
    pub fn settle(&mut self, outcome: Outcome)
        requires
            old(self).wf(),
        ensures
            final(self).wf(),
            final(self).camera_uuid == old(self).camera_uuid,
            final(self).patch == old(self).patch,
            final(self).overwrite == old(self).overwrite,
            final(self).reload == old(self).reload,
            final(self).phase == old(self).phase,
            final(self).failure == old(self).failure,
            final(self).pending is None,
            final(self).actuators.closest_points == old(self).actuators.closest_points,
            final(self).actuators.furthest_points == old(self).actuators.furthest_points,
            final(self).actuators.state == old(self).actuators.state,
            match old(self).pending {
                None => {
                    &&& final(self).actuators.parameters == old(self).actuators.parameters
                    &&& final(self).cursor == old(self).cursor
                    &&& final(self).force == old(self).force
                    &&& final(self).reboot == old(self).reboot
                },
                Some(p) => {
                    let taken = outcome == Outcome::Written || (outcome == Outcome::AlreadySet
                        && p.settles_when_equal);
                    let marked = outcome == Outcome::Written && p.marks_reboot;
                    &&& final(self).actuators.parameters == (if taken {
                        p.after
                    } else {
                        old(self).actuators.parameters
                    })
                    &&& final(self).cursor == old(self).cursor + 1
                    &&& final(self).force == (old(self).force || marked)
                    &&& final(self).reboot == (old(self).reboot || marked)
                },
            },
            names_nothing(old(self).patch) && !old(self).overwrite && !old(self).force ==> final(self).actuators@ == old(self).actuators@,
            outcome == Outcome::Failed ==> final(self).actuators@ == old(self).actuators@
                && final(self).reboot == old(self).reboot,
            old(self).actuators.parameters.spec_channels_distinct() ==> final(self).actuators.parameters.spec_channels_distinct(),
    {
        match self.pending {
            None => {},
            Some(p) => {
                proof {
                    if self.actuators.parameters.spec_channels_distinct() {
                        lemma_outputs_stay_distinct(
                            stage_at(self.cursor as int),
                            self.actuators.parameters,
                            self.patch,
                            self.force,
                            self.overwrite,
                        );
                    }
                    if names_nothing(self.patch) {
                        lemma_empty_patch(
                            self.cursor as int,
                            self.actuators.parameters,
                            self.patch,
                        );
                    }
                }
                if outcome == Outcome::Written || (outcome == Outcome::AlreadySet
                    && p.settles_when_equal) {
                    self.actuators.parameters = p.after;
                }
                if outcome == Outcome::Written && p.marks_reboot {
                    self.force = true;
                    self.reboot = true;
                }
                self.cursor = self.cursor + 1;
                self.pending = None;
            },
        }
    }

    /// Reports how the script export went. A changed script makes a reload
    /// due; a failed export ends the update with its error. Outside the
    /// export phase nothing happens.
    pub fn exported(&mut self, result: Result<bool, CoreError>)
        requires
            old(self).wf(),
        ensures
            final(self).wf(),
            final(self).camera_uuid == old(self).camera_uuid,
            final(self).actuators == old(self).actuators,
            final(self).patch == old(self).patch,
            final(self).overwrite == old(self).overwrite,
            final(self).cursor == old(self).cursor,
            final(self).force == old(self).force,
            final(self).reboot == old(self).reboot,
            final(self).pending == old(self).pending,
            old(self).phase != Phase::Export ==> final(self).phase == old(self).phase && final(self).reload == old(self).reload && final(self).failure == old(self).failure,
            old(self).phase == Phase::Export ==> match result {
                Ok(changed) => {
                    &&& final(self).phase == Phase::Reload
                    &&& final(self).reload == (old(self).reload || changed)
                    &&& final(self).failure is None
                },
                Err(e) => {
                    &&& final(self).phase == Phase::Done
                    &&& final(self).reload == old(self).reload
                    &&& final(self).failure == Some(e)
                },
            },
    {
        match self.phase {
            Phase::Export => match result {
                Ok(changed) => {
                    if changed {
                        self.reload = true;
                    }
                    self.phase = Phase::Reload;
                },
                Err(e) => {
                    self.failure = Some(e);
                    self.phase = Phase::Done;
                },
            },
            _ => {},
        }
    }

    /// Reports that the command that was due has been sent, whatever the
    /// autopilot made of it: after the reload comes the reboot, after the
    /// reboot the saving. Outside these two phases nothing happens.
    pub fn commanded(&mut self)
        requires
            old(self).wf(),
        ensures
            final(self).wf(),
            final(self).camera_uuid == old(self).camera_uuid,
            final(self).actuators == old(self).actuators,
            final(self).patch == old(self).patch,
            final(self).overwrite == old(self).overwrite,
            final(self).cursor == old(self).cursor,
            final(self).force == old(self).force,
            final(self).reboot == old(self).reboot,
            final(self).reload == old(self).reload,
            final(self).pending == old(self).pending,
            final(self).failure == old(self).failure,
            final(self).phase == (match old(self).phase {
                Phase::Reload => Phase::Reboot,
                Phase::Reboot => Phase::Persist,
                other => other,
            }),
    {
        match self.phase {
            Phase::Reload => {
                self.phase = Phase::Reboot;
            },
            Phase::Reboot => {
                self.phase = Phase::Persist;
            },
            _ => {},
        }
    }

    /// Reports how the saving went, which ends the update: with the error
    /// where the saving failed. Outside the saving phase nothing happens.
    pub fn persisted(&mut self, result: Result<(), CoreError>)
        requires
            old(self).wf(),
        ensures
            final(self).wf(),
            final(self).camera_uuid == old(self).camera_uuid,
            final(self).actuators == old(self).actuators,
            final(self).patch == old(self).patch,
            final(self).overwrite == old(self).overwrite,
            final(self).cursor == old(self).cursor,
            final(self).force == old(self).force,
            final(self).reboot == old(self).reboot,
            final(self).reload == old(self).reload,
            final(self).pending == old(self).pending,
            old(self).phase != Phase::Persist ==> final(self).phase == old(self).phase && final(self).failure == old(self).failure,
            old(self).phase == Phase::Persist ==> final(self).phase == Phase::Done && final(self).failure == (match result {
                Ok(_) => None,
                Err(e) => Some(e),
            }),
    {
        match self.phase {
            Phase::Persist => {
                match result {
                    Ok(_) => {},
                    Err(e) => {
                        self.failure = Some(e);
                    },
                }
                self.phase = Phase::Done;
            },
            _ => {},
        }
    }

    /// The result of the update and the record as the update left it.
    pub fn into_result(self) -> (r: (Result<(), CoreError>, CameraActuators))
        ensures
            r.1 == self.actuators,
            r.0 == (match self.failure {
                Some(e) => Err::<(), CoreError>(e),
                None => Ok::<(), CoreError>(()),
            }),
    {
        let result = match self.failure {
            Some(e) => Err(e),
            None => Ok(()),
        };
        (result, self.actuators)
    }
}

/// Config merge: under a patch that names no value, without the overwrite
/// flag and with nothing forced, no stage of the parameter groups has
/// anything to do, and the scripting switch, the one stage that is always
/// looked at, leaves the record as it is.
pub proof fn lemma_empty_patch(
    i: int,
    record: ActuatorsParameters,
    patch: Option<ActuatorsParametersConfig>,
)
    requires
        names_nothing(patch),
    ensures
        stage_at(i) != Stage::Scripting ==> intent(stage_at(i), record, patch, false, false)
            is None,
        intent(stage_at(i), record, patch, false, false) matches Some(x) ==> x.after == record,
{
}

/// Distinct outputs: whatever a stage does to a record whose four servo
/// outputs are four different outputs, they are four different outputs
/// afterwards.
pub proof fn lemma_outputs_stay_distinct(
    stage: Stage,
    record: ActuatorsParameters,
    patch: Option<ActuatorsParametersConfig>,
    force: bool,
    overwrite: bool,
)
    requires
        record.spec_channels_distinct(),
    ensures
        intent(stage, record, patch, force, overwrite) matches Some(x)
            ==> x.after.spec_channels_distinct(),
{
}

/// Config merge through the request surface: under the patch that names
/// every field with the record's own value, whatever a stage writes, the
/// record stays as it is.
pub proof fn lemma_own_config(i: int, record: ActuatorsParameters, force: bool, overwrite: bool)
    ensures
        intent(stage_at(i), record, Some(record.spec_to_config()), force, overwrite) matches Some(
            x,
        ) ==> x.after == record,
{
}

} // verus!
