//! The frames that the core exchanges with the autopilot, as plain values,
//! and the fixed numbers of the protocol.

use vstd::prelude::*;
use crate::parameters::{MavParamType, ParamValueData};

verus! {

/// The component id of the autopilot that the core talks to.
pub const MAV_COMP_ID_AUTOPILOT1: u8 = 1;

/// Capability bit: parameters are carried as plain floats (numeric cast).
pub const MAV_PROTOCOL_CAPABILITY_PARAM_FLOAT: u64 = 2;

/// Capability bit: parameter values are carried bit for bit.
pub const MAV_PROTOCOL_CAPABILITY_PARAM_ENCODE_BYTEWISE: u64 = 16;

/// Capability bit: parameter values are carried by numeric cast.
pub const MAV_PROTOCOL_CAPABILITY_PARAM_ENCODE_C_CAST: u64 = 131072;

/// Command id: restart or shut down the autopilot.
pub const MAV_CMD_PREFLIGHT_REBOOT_SHUTDOWN: u16 = 246;

/// Command id: ask for one message to be sent.
pub const MAV_CMD_REQUEST_MESSAGE: u16 = 512;

/// Command id: set the camera zoom.
pub const MAV_CMD_SET_CAMERA_ZOOM: u16 = 531;

/// Command id: set the camera focus.
pub const MAV_CMD_SET_CAMERA_FOCUS: u16 = 532;

/// Command id: control the onboard scripting engine.
pub const MAV_CMD_SCRIPTING: u16 = 42701;

/// Scripting sub-command: stop all scripts and start them again.
pub const SCRIPTING_CMD_STOP_AND_RESTART: u32 = 3;

/// Zoom and focus sub-type: the value is a position in the full range.
pub const ZOOM_TYPE_RANGE: u32 = 2;

/// Zoom and focus sub-type: the value is a position in the full range.
pub const FOCUS_TYPE_RANGE: u32 = 2;

/// Message id of the camera settings message.
pub const CAMERA_SETTINGS_ID: u32 = 260;

/// Command result: the command was accepted.
pub const MAV_RESULT_ACCEPTED: u8 = 0;

/// Vehicle type in the heartbeat: a camera.
pub const MAV_TYPE_CAMERA: u8 = 30;

/// Autopilot type in the heartbeat: not an autopilot.
pub const MAV_AUTOPILOT_INVALID: u8 = 8;

/// System status in the heartbeat: ready, on standby.
pub const MAV_STATE_STANDBY: u8 = 3;

/// The parameter index that marks a frame as unrelated to a list request.
pub const PARAM_INDEX_UNRELATED: u16 = 0xFFFF;

/// Who sent a frame, and its running number.
#[derive(Debug, Clone, Copy, PartialEq, Eq, Structural)]
pub struct MavHeader {
    pub system_id: u8,
    pub component_id: u8,
    pub sequence: u8,
}

/// A command with up to seven arguments. The arguments are the bit patterns
/// of single-precision numbers.
#[derive(Debug, Clone, Copy, PartialEq, Eq, Structural)]
pub struct CommandLong {
    pub target_system: u8,
    pub target_component: u8,
    pub command: u16,
    pub confirmation: u8,
    pub param1: u32,
    pub param2: u32,
    pub param3: u32,
    pub param4: u32,
    pub param5: u32,
    pub param6: u32,
    pub param7: u32,
}

/// The answer to a command.
#[derive(Debug, Clone, Copy, PartialEq, Eq, Structural)]
pub struct CommandAck {
    pub command: u16,
    pub result: u8,
}

/// What the camera settings message says of zoom and focus. The levels are
/// the bit patterns of single-precision numbers.
#[derive(Debug, Clone, Copy, PartialEq, Eq, Structural)]
pub struct CameraSettings {
    pub zoom_level: u32,
    pub focus_level: u32,
}

/// The periodic sign of life.
#[derive(Debug, Clone, Copy, PartialEq, Eq, Structural)]
pub struct Heartbeat {
    pub custom_mode: u32,
    pub mavtype: u8,
    pub autopilot: u8,
    pub base_mode: u8,
    pub system_status: u8,
    pub mavlink_version: u8,
}

/// A request to read one parameter by name.
#[derive(Debug, Clone, Copy, PartialEq, Eq)]
pub struct ParamRequestRead {
    pub target_system: u8,
    pub target_component: u8,
    pub param_id: [u8; 16],
    pub param_index: i16,
}

/// A request to write one parameter. The value is the wire word.
#[derive(Debug, Clone, Copy, PartialEq, Eq)]
pub struct ParamSet {
    pub target_system: u8,
    pub target_component: u8,
    pub param_id: [u8; 16],
    pub param_value: u32,
    pub param_type: MavParamType,
}

/// The frames that the core sends or reads. Every other frame is `Other`
/// with its message id.
#[derive(Debug, Clone, Copy, PartialEq, Eq)]
#[allow(non_camel_case_types)]
pub enum MavMessage {
    HEARTBEAT(Heartbeat),
    AUTOPILOT_VERSION_REQUEST { target_system: u8, target_component: u8 },
    AUTOPILOT_VERSION { capabilities: u64 },
    PARAM_REQUEST_LIST { target_system: u8, target_component: u8 },
    PARAM_REQUEST_READ(ParamRequestRead),
    PARAM_SET(ParamSet),
    PARAM_VALUE(ParamValueData),
    COMMAND_LONG(CommandLong),
    COMMAND_ACK(CommandAck),
    CAMERA_SETTINGS(CameraSettings),
    Other(u32),
}

/// What travels on the bus between the tasks: a frame that came from the
/// link, or a frame that is to go out on it.
#[derive(Debug, Clone, Copy, PartialEq, Eq)]
pub enum Message {
    Received((MavHeader, MavMessage)),
    ToBeSent((MavHeader, MavMessage)),
}

} // verus!
