//! The values exchanged with callers: channels, function codes, calibration
//! points, actuator state and partial configuration patches.

use vstd::prelude::*;
use vstd::string::*;
use crate::text::{decimal, push_decimal};

verus! {

/// Which of the autopilot's two camera slots a camera uses.
#[derive(Debug, Clone, Copy, PartialEq, Eq, Structural)]
#[allow(non_camel_case_types)]
pub enum CameraID {
    /// First camera slot, number 1.
    CAM1,
    /// Second camera slot, number 2.
    CAM2,
}

impl CameraID {
    /// The slot number: 1 or 2.
    pub open spec fn spec_code(self) -> u8 {
        match self {
            CameraID::CAM1 => 1,
            CameraID::CAM2 => 2,
        }
    }

    /// The slot number: 1 or 2.
    #[verifier::when_used_as_spec(spec_code)]
    pub fn code(self) -> (c: u8)
        ensures
            c == self.spec_code(),
    {
        match self {
            CameraID::CAM1 => 1,
            CameraID::CAM2 => 2,
        }
    }

    /// The value with the given number, if there is one.
    pub open spec fn spec_from_code(c: u8) -> Option<CameraID> {
        if c == 1 {
            Some(CameraID::CAM1)
        } else if c == 2 {
            Some(CameraID::CAM2)
        } else {
            None
        }
    }

    /// The value with the given number, if there is one.
    #[verifier::when_used_as_spec(spec_from_code)]
    pub fn from_code(c: u8) -> (r: Option<CameraID>)
        ensures
            r == CameraID::spec_from_code(c),
            r matches Some(v) ==> v.spec_code() == c,
            r is None ==> forall|v: CameraID| v.spec_code() != c,
    {
        if c == 1 {
            Some(CameraID::CAM1)
        } else if c == 2 {
            Some(CameraID::CAM2)
        } else {
            None
        }
    }
}

/// The mount whose pitch a tilt servo output drives.
#[derive(Debug, Clone, Copy, PartialEq, Eq, Structural)]
#[allow(non_camel_case_types)]
pub enum TiltChannelFunction {
    /// Pitch of the first mount, function code 7.
    MNT1,
    /// Pitch of the second mount, function code 13.
    MNT2,
}

impl TiltChannelFunction {
    /// The servo function code of the mount's pitch.
    pub open spec fn spec_code(self) -> u8 {
        match self {
            TiltChannelFunction::MNT1 => 7,
            TiltChannelFunction::MNT2 => 13,
        }
    }

    /// The servo function code of the mount's pitch.
    #[verifier::when_used_as_spec(spec_code)]
    pub fn code(self) -> (c: u8)
        ensures
            c == self.spec_code(),
    {
        match self {
            TiltChannelFunction::MNT1 => 7,
            TiltChannelFunction::MNT2 => 13,
        }
    }

    /// The value with the given number, if there is one.
    pub open spec fn spec_from_code(c: u8) -> Option<TiltChannelFunction> {
        if c == 7 {
            Some(TiltChannelFunction::MNT1)
        } else if c == 13 {
            Some(TiltChannelFunction::MNT2)
        } else {
            None
        }
    }

    /// The value with the given number, if there is one.
    #[verifier::when_used_as_spec(spec_from_code)]
    pub fn from_code(c: u8) -> (r: Option<TiltChannelFunction>)
        ensures
            r == TiltChannelFunction::spec_from_code(c),
            r matches Some(v) ==> v.spec_code() == c,
            r is None ==> forall|v: TiltChannelFunction| v.spec_code() != c,
    {
        if c == 7 {
            Some(TiltChannelFunction::MNT1)
        } else if c == 13 {
            Some(TiltChannelFunction::MNT2)
        } else {
            None
        }
    }
}

/// The kind of gimbal mount that carries the tilt axis.
#[derive(Debug, Clone, Copy, PartialEq, Eq, Structural)]
#[allow(non_camel_case_types)]
pub enum MountType {
    /// A servo mount, number 1.
    Servo,
    /// A brushless PWM mount, number 7.
    BrushlessPWM,
}

impl MountType {
    /// The number the autopilot uses for the mount type.
    pub open spec fn spec_code(self) -> u8 {
        match self {
            MountType::Servo => 1,
            MountType::BrushlessPWM => 7,
        }
    }

    /// The number the autopilot uses for the mount type.
    #[verifier::when_used_as_spec(spec_code)]
    pub fn code(self) -> (c: u8)
        ensures
            c == self.spec_code(),
    {
        match self {
            MountType::Servo => 1,
            MountType::BrushlessPWM => 7,
        }
    }

    /// The value with the given number, if there is one.
    pub open spec fn spec_from_code(c: u8) -> Option<MountType> {
        if c == 1 {
            Some(MountType::Servo)
        } else if c == 7 {
            Some(MountType::BrushlessPWM)
        } else {
            None
        }
    }

    /// The value with the given number, if there is one.
    #[verifier::when_used_as_spec(spec_from_code)]
    pub fn from_code(c: u8) -> (r: Option<MountType>)
        ensures
            r == MountType::spec_from_code(c),
            r matches Some(v) ==> v.spec_code() == c,
            r is None ==> forall|v: MountType| v.spec_code() != c,
    {
        if c == 1 {
            Some(MountType::Servo)
        } else if c == 7 {
            Some(MountType::BrushlessPWM)
        } else {
            None
        }
    }
}

/// One of the autopilot's thirty-two servo outputs.
#[derive(Debug, Clone, Copy, PartialEq, Eq, Structural)]
#[allow(non_camel_case_types)]
pub enum ServoChannel {
    SERVO1,
    SERVO2,
    SERVO3,
    SERVO4,
    SERVO5,
    SERVO6,
    SERVO7,
    SERVO8,
    SERVO9,
    SERVO10,
    SERVO11,
    SERVO12,
    SERVO13,
    SERVO14,
    SERVO15,
    SERVO16,
    SERVO17,
    SERVO18,
    SERVO19,
    SERVO20,
    SERVO21,
    SERVO22,
    SERVO23,
    SERVO24,
    SERVO25,
    SERVO26,
    SERVO27,
    SERVO28,
    SERVO29,
    SERVO30,
    SERVO31,
    SERVO32,
}

impl ServoChannel {
    /// The output's number, from 1 to 32.
    pub open spec fn spec_code(self) -> u8 {
        match self {
            ServoChannel::SERVO1 => 1,
            ServoChannel::SERVO2 => 2,
            ServoChannel::SERVO3 => 3,
            ServoChannel::SERVO4 => 4,
            ServoChannel::SERVO5 => 5,
            ServoChannel::SERVO6 => 6,
            ServoChannel::SERVO7 => 7,
            ServoChannel::SERVO8 => 8,
            ServoChannel::SERVO9 => 9,
            ServoChannel::SERVO10 => 10,
            ServoChannel::SERVO11 => 11,
            ServoChannel::SERVO12 => 12,
            ServoChannel::SERVO13 => 13,
            ServoChannel::SERVO14 => 14,
            ServoChannel::SERVO15 => 15,
            ServoChannel::SERVO16 => 16,
            ServoChannel::SERVO17 => 17,
            ServoChannel::SERVO18 => 18,
            ServoChannel::SERVO19 => 19,
            ServoChannel::SERVO20 => 20,
            ServoChannel::SERVO21 => 21,
            ServoChannel::SERVO22 => 22,
            ServoChannel::SERVO23 => 23,
            ServoChannel::SERVO24 => 24,
            ServoChannel::SERVO25 => 25,
            ServoChannel::SERVO26 => 26,
            ServoChannel::SERVO27 => 27,
            ServoChannel::SERVO28 => 28,
            ServoChannel::SERVO29 => 29,
            ServoChannel::SERVO30 => 30,
            ServoChannel::SERVO31 => 31,
            ServoChannel::SERVO32 => 32,
        }
    }

    /// The output's number, from 1 to 32.
    #[verifier::when_used_as_spec(spec_code)]
    pub fn code(self) -> (c: u8)
        ensures
            c == self.spec_code(),
    {
        match self {
            ServoChannel::SERVO1 => 1,
            ServoChannel::SERVO2 => 2,
            ServoChannel::SERVO3 => 3,
            ServoChannel::SERVO4 => 4,
            ServoChannel::SERVO5 => 5,
            ServoChannel::SERVO6 => 6,
            ServoChannel::SERVO7 => 7,
            ServoChannel::SERVO8 => 8,
            ServoChannel::SERVO9 => 9,
            ServoChannel::SERVO10 => 10,
            ServoChannel::SERVO11 => 11,
            ServoChannel::SERVO12 => 12,
            ServoChannel::SERVO13 => 13,
            ServoChannel::SERVO14 => 14,
            ServoChannel::SERVO15 => 15,
            ServoChannel::SERVO16 => 16,
            ServoChannel::SERVO17 => 17,
            ServoChannel::SERVO18 => 18,
            ServoChannel::SERVO19 => 19,
            ServoChannel::SERVO20 => 20,
            ServoChannel::SERVO21 => 21,
            ServoChannel::SERVO22 => 22,
            ServoChannel::SERVO23 => 23,
            ServoChannel::SERVO24 => 24,
            ServoChannel::SERVO25 => 25,
            ServoChannel::SERVO26 => 26,
            ServoChannel::SERVO27 => 27,
            ServoChannel::SERVO28 => 28,
            ServoChannel::SERVO29 => 29,
            ServoChannel::SERVO30 => 30,
            ServoChannel::SERVO31 => 31,
            ServoChannel::SERVO32 => 32,
        }
    }

    /// The value with the given number, if there is one.
    pub open spec fn spec_from_code(c: u8) -> Option<ServoChannel> {
        if c == 1 {
            Some(ServoChannel::SERVO1)
        } else if c == 2 {
            Some(ServoChannel::SERVO2)
        } else if c == 3 {
            Some(ServoChannel::SERVO3)
        } else if c == 4 {
            Some(ServoChannel::SERVO4)
        } else if c == 5 {
            Some(ServoChannel::SERVO5)
        } else if c == 6 {
            Some(ServoChannel::SERVO6)
        } else if c == 7 {
            Some(ServoChannel::SERVO7)
        } else if c == 8 {
            Some(ServoChannel::SERVO8)
        } else if c == 9 {
            Some(ServoChannel::SERVO9)
        } else if c == 10 {
            Some(ServoChannel::SERVO10)
        } else if c == 11 {
            Some(ServoChannel::SERVO11)
        } else if c == 12 {
            Some(ServoChannel::SERVO12)
        } else if c == 13 {
            Some(ServoChannel::SERVO13)
        } else if c == 14 {
            Some(ServoChannel::SERVO14)
        } else if c == 15 {
            Some(ServoChannel::SERVO15)
        } else if c == 16 {
            Some(ServoChannel::SERVO16)
        } else if c == 17 {
            Some(ServoChannel::SERVO17)
        } else if c == 18 {
            Some(ServoChannel::SERVO18)
        } else if c == 19 {
            Some(ServoChannel::SERVO19)
        } else if c == 20 {
            Some(ServoChannel::SERVO20)
        } else if c == 21 {
            Some(ServoChannel::SERVO21)
        } else if c == 22 {
            Some(ServoChannel::SERVO22)
        } else if c == 23 {
            Some(ServoChannel::SERVO23)
        } else if c == 24 {
            Some(ServoChannel::SERVO24)
        } else if c == 25 {
            Some(ServoChannel::SERVO25)
        } else if c == 26 {
            Some(ServoChannel::SERVO26)
        } else if c == 27 {
            Some(ServoChannel::SERVO27)
        } else if c == 28 {
            Some(ServoChannel::SERVO28)
        } else if c == 29 {
            Some(ServoChannel::SERVO29)
        } else if c == 30 {
            Some(ServoChannel::SERVO30)
        } else if c == 31 {
            Some(ServoChannel::SERVO31)
        } else if c == 32 {
            Some(ServoChannel::SERVO32)
        } else {
            None
        }
    }

    /// The value with the given number, if there is one.
    #[verifier::when_used_as_spec(spec_from_code)]
    pub fn from_code(c: u8) -> (r: Option<ServoChannel>)
        ensures
            r == ServoChannel::spec_from_code(c),
            r matches Some(v) ==> v.spec_code() == c,
            r is None ==> forall|v: ServoChannel| v.spec_code() != c,
    {
        if c == 1 {
            Some(ServoChannel::SERVO1)
        } else if c == 2 {
            Some(ServoChannel::SERVO2)
        } else if c == 3 {
            Some(ServoChannel::SERVO3)
        } else if c == 4 {
            Some(ServoChannel::SERVO4)
        } else if c == 5 {
            Some(ServoChannel::SERVO5)
        } else if c == 6 {
            Some(ServoChannel::SERVO6)
        } else if c == 7 {
            Some(ServoChannel::SERVO7)
        } else if c == 8 {
            Some(ServoChannel::SERVO8)
        } else if c == 9 {
            Some(ServoChannel::SERVO9)
        } else if c == 10 {
            Some(ServoChannel::SERVO10)
        } else if c == 11 {
            Some(ServoChannel::SERVO11)
        } else if c == 12 {
            Some(ServoChannel::SERVO12)
        } else if c == 13 {
            Some(ServoChannel::SERVO13)
        } else if c == 14 {
            Some(ServoChannel::SERVO14)
        } else if c == 15 {
            Some(ServoChannel::SERVO15)
        } else if c == 16 {
            Some(ServoChannel::SERVO16)
        } else if c == 17 {
            Some(ServoChannel::SERVO17)
        } else if c == 18 {
            Some(ServoChannel::SERVO18)
        } else if c == 19 {
            Some(ServoChannel::SERVO19)
        } else if c == 20 {
            Some(ServoChannel::SERVO20)
        } else if c == 21 {
            Some(ServoChannel::SERVO21)
        } else if c == 22 {
            Some(ServoChannel::SERVO22)
        } else if c == 23 {
            Some(ServoChannel::SERVO23)
        } else if c == 24 {
            Some(ServoChannel::SERVO24)
        } else if c == 25 {
            Some(ServoChannel::SERVO25)
        } else if c == 26 {
            Some(ServoChannel::SERVO26)
        } else if c == 27 {
            Some(ServoChannel::SERVO27)
        } else if c == 28 {
            Some(ServoChannel::SERVO28)
        } else if c == 29 {
            Some(ServoChannel::SERVO29)
        } else if c == 30 {
            Some(ServoChannel::SERVO30)
        } else if c == 31 {
            Some(ServoChannel::SERVO31)
        } else if c == 32 {
            Some(ServoChannel::SERVO32)
        } else {
            None
        }
    }
}

/// One of the sixteen servo functions reserved for scripts.
#[derive(Debug, Clone, Copy, PartialEq, Eq, Structural)]
#[allow(non_camel_case_types)]
pub enum ScriptFunction {
    SCRIPT1,
    SCRIPT2,
    SCRIPT3,
    SCRIPT4,
    SCRIPT5,
    SCRIPT6,
    SCRIPT7,
    SCRIPT8,
    SCRIPT9,
    SCRIPT10,
    SCRIPT11,
    SCRIPT12,
    SCRIPT13,
    SCRIPT14,
    SCRIPT15,
    SCRIPT16,
}

impl ScriptFunction {
    /// The servo function code, from 94 to 109.
    pub open spec fn spec_code(self) -> u8 {
        match self {
            ScriptFunction::SCRIPT1 => 94,
            ScriptFunction::SCRIPT2 => 95,
            ScriptFunction::SCRIPT3 => 96,
            ScriptFunction::SCRIPT4 => 97,
            ScriptFunction::SCRIPT5 => 98,
            ScriptFunction::SCRIPT6 => 99,
            ScriptFunction::SCRIPT7 => 100,
            ScriptFunction::SCRIPT8 => 101,
            ScriptFunction::SCRIPT9 => 102,
            ScriptFunction::SCRIPT10 => 103,
            ScriptFunction::SCRIPT11 => 104,
            ScriptFunction::SCRIPT12 => 105,
            ScriptFunction::SCRIPT13 => 106,
            ScriptFunction::SCRIPT14 => 107,
            ScriptFunction::SCRIPT15 => 108,
            ScriptFunction::SCRIPT16 => 109,
        }
    }

    /// The servo function code, from 94 to 109.
    #[verifier::when_used_as_spec(spec_code)]
    pub fn code(self) -> (c: u8)
        ensures
            c == self.spec_code(),
    {
        match self {
            ScriptFunction::SCRIPT1 => 94,
            ScriptFunction::SCRIPT2 => 95,
            ScriptFunction::SCRIPT3 => 96,
            ScriptFunction::SCRIPT4 => 97,
            ScriptFunction::SCRIPT5 => 98,
            ScriptFunction::SCRIPT6 => 99,
            ScriptFunction::SCRIPT7 => 100,
            ScriptFunction::SCRIPT8 => 101,
            ScriptFunction::SCRIPT9 => 102,
            ScriptFunction::SCRIPT10 => 103,
            ScriptFunction::SCRIPT11 => 104,
            ScriptFunction::SCRIPT12 => 105,
            ScriptFunction::SCRIPT13 => 106,
            ScriptFunction::SCRIPT14 => 107,
            ScriptFunction::SCRIPT15 => 108,
            ScriptFunction::SCRIPT16 => 109,
        }
    }

    /// The value with the given number, if there is one.
    pub open spec fn spec_from_code(c: u8) -> Option<ScriptFunction> {
        if c == 94 {
            Some(ScriptFunction::SCRIPT1)
        } else if c == 95 {
            Some(ScriptFunction::SCRIPT2)
        } else if c == 96 {
            Some(ScriptFunction::SCRIPT3)
        } else if c == 97 {
            Some(ScriptFunction::SCRIPT4)
        } else if c == 98 {
            Some(ScriptFunction::SCRIPT5)
        } else if c == 99 {
            Some(ScriptFunction::SCRIPT6)
        } else if c == 100 {
            Some(ScriptFunction::SCRIPT7)
        } else if c == 101 {
            Some(ScriptFunction::SCRIPT8)
        } else if c == 102 {
            Some(ScriptFunction::SCRIPT9)
        } else if c == 103 {
            Some(ScriptFunction::SCRIPT10)
        } else if c == 104 {
            Some(ScriptFunction::SCRIPT11)
        } else if c == 105 {
            Some(ScriptFunction::SCRIPT12)
        } else if c == 106 {
            Some(ScriptFunction::SCRIPT13)
        } else if c == 107 {
            Some(ScriptFunction::SCRIPT14)
        } else if c == 108 {
            Some(ScriptFunction::SCRIPT15)
        } else if c == 109 {
            Some(ScriptFunction::SCRIPT16)
        } else {
            None
        }
    }

    /// The value with the given number, if there is one.
    #[verifier::when_used_as_spec(spec_from_code)]
    pub fn from_code(c: u8) -> (r: Option<ScriptFunction>)
        ensures
            r == ScriptFunction::spec_from_code(c),
            r matches Some(v) ==> v.spec_code() == c,
            r is None ==> forall|v: ScriptFunction| v.spec_code() != c,
    {
        if c == 94 {
            Some(ScriptFunction::SCRIPT1)
        } else if c == 95 {
            Some(ScriptFunction::SCRIPT2)
        } else if c == 96 {
            Some(ScriptFunction::SCRIPT3)
        } else if c == 97 {
            Some(ScriptFunction::SCRIPT4)
        } else if c == 98 {
            Some(ScriptFunction::SCRIPT5)
        } else if c == 99 {
            Some(ScriptFunction::SCRIPT6)
        } else if c == 100 {
            Some(ScriptFunction::SCRIPT7)
        } else if c == 101 {
            Some(ScriptFunction::SCRIPT8)
        } else if c == 102 {
            Some(ScriptFunction::SCRIPT9)
        } else if c == 103 {
            Some(ScriptFunction::SCRIPT10)
        } else if c == 104 {
            Some(ScriptFunction::SCRIPT11)
        } else if c == 105 {
            Some(ScriptFunction::SCRIPT12)
        } else if c == 106 {
            Some(ScriptFunction::SCRIPT13)
        } else if c == 107 {
            Some(ScriptFunction::SCRIPT14)
        } else if c == 108 {
            Some(ScriptFunction::SCRIPT15)
        } else if c == 109 {
            Some(ScriptFunction::SCRIPT16)
        } else {
            None
        }
    }
}

/// What a servo output is assigned to.
#[derive(Debug, Clone, Copy, PartialEq, Eq, Structural)]
#[allow(non_camel_case_types)]
pub enum ChannelFunction {
    /// The output is unused, code 0.
    Disabled,
    /// Pitch of the first mount, code 7.
    Mount1Pitch,
    /// Pitch of the second mount, code 13.
    Mount2Pitch,
    /// Camera focus, code 92.
    CameraFocus,
    /// Camera zoom, code 180.
    CameraZoom,
}

impl ChannelFunction {
    /// The servo function code.
    pub open spec fn spec_code(self) -> u8 {
        match self {
            ChannelFunction::Disabled => 0,
            ChannelFunction::Mount1Pitch => 7,
            ChannelFunction::Mount2Pitch => 13,
            ChannelFunction::CameraFocus => 92,
            ChannelFunction::CameraZoom => 180,
        }
    }

    /// The servo function code.
    #[verifier::when_used_as_spec(spec_code)]
    pub fn code(self) -> (c: u8)
        ensures
            c == self.spec_code(),
    {
        match self {
            ChannelFunction::Disabled => 0,
            ChannelFunction::Mount1Pitch => 7,
            ChannelFunction::Mount2Pitch => 13,
            ChannelFunction::CameraFocus => 92,
            ChannelFunction::CameraZoom => 180,
        }
    }

    /// The value with the given number, if there is one.
    pub open spec fn spec_from_code(c: u8) -> Option<ChannelFunction> {
        if c == 0 {
            Some(ChannelFunction::Disabled)
        } else if c == 7 {
            Some(ChannelFunction::Mount1Pitch)
        } else if c == 13 {
            Some(ChannelFunction::Mount2Pitch)
        } else if c == 92 {
            Some(ChannelFunction::CameraFocus)
        } else if c == 180 {
            Some(ChannelFunction::CameraZoom)
        } else {
            None
        }
    }

    /// The value with the given number, if there is one.
    #[verifier::when_used_as_spec(spec_from_code)]
    pub fn from_code(c: u8) -> (r: Option<ChannelFunction>)
        ensures
            r == ChannelFunction::spec_from_code(c),
            r matches Some(v) ==> v.spec_code() == c,
            r is None ==> forall|v: ChannelFunction| v.spec_code() != c,
    {
        if c == 0 {
            Some(ChannelFunction::Disabled)
        } else if c == 7 {
            Some(ChannelFunction::Mount1Pitch)
        } else if c == 13 {
            Some(ChannelFunction::Mount2Pitch)
        } else if c == 92 {
            Some(ChannelFunction::CameraFocus)
        } else if c == 180 {
            Some(ChannelFunction::CameraZoom)
        } else {
            None
        }
    }
}

/// How the autopilot drives a camera slot.
#[derive(Debug, Clone, Copy, PartialEq, Eq, Structural)]
#[allow(non_camel_case_types)]
pub enum CameraType {
    /// The slot is unused, number 0.
    Disabled,
    /// The camera is driven through servo outputs, number 1.
    Servo,
}

impl CameraType {
    /// The number the autopilot uses for the camera type.
    pub open spec fn spec_code(self) -> u8 {
        match self {
            CameraType::Disabled => 0,
            CameraType::Servo => 1,
        }
    }

    /// The number the autopilot uses for the camera type.
    #[verifier::when_used_as_spec(spec_code)]
    pub fn code(self) -> (c: u8)
        ensures
            c == self.spec_code(),
    {
        match self {
            CameraType::Disabled => 0,
            CameraType::Servo => 1,
        }
    }

    /// The value with the given number, if there is one.
    pub open spec fn spec_from_code(c: u8) -> Option<CameraType> {
        if c == 0 {
            Some(CameraType::Disabled)
        } else if c == 1 {
            Some(CameraType::Servo)
        } else {
            None
        }
    }

    /// The value with the given number, if there is one.
    #[verifier::when_used_as_spec(spec_from_code)]
    pub fn from_code(c: u8) -> (r: Option<CameraType>)
        ensures
            r == CameraType::spec_from_code(c),
            r matches Some(v) ==> v.spec_code() == c,
            r is None ==> forall|v: CameraType| v.spec_code() != c,
    {
        if c == 0 {
            Some(CameraType::Disabled)
        } else if c == 1 {
            Some(CameraType::Servo)
        } else {
            None
        }
    }
}

impl Default for TiltChannelFunction {
    fn default() -> (r: Self)
        ensures
            r == TiltChannelFunction::MNT1,
    {
        TiltChannelFunction::MNT1
    }
}

impl Default for MountType {
    fn default() -> (r: Self)
        ensures
            r == MountType::BrushlessPWM,
    {
        MountType::BrushlessPWM
    }
}

impl Default for ScriptFunction {
    fn default() -> (r: Self)
        ensures
            r == ScriptFunction::SCRIPT1,
    {
        ScriptFunction::SCRIPT1
    }
}

impl Default for CameraID {
    fn default() -> (r: Self)
        ensures
            r == CameraID::CAM1,
    {
        CameraID::CAM1
    }
}

impl CameraID {
    /// The mount that belongs to this camera slot.
    pub open spec fn spec_mount(self) -> TiltChannelFunction {
        match self {
            CameraID::CAM1 => TiltChannelFunction::MNT1,
            CameraID::CAM2 => TiltChannelFunction::MNT2,
        }
    }

    /// The mount that belongs to this camera slot.
    #[verifier::when_used_as_spec(spec_mount)]
    pub fn mount(self) -> (m: TiltChannelFunction)
        ensures
            m == self.spec_mount(),
    {
        match self {
            CameraID::CAM1 => TiltChannelFunction::MNT1,
            CameraID::CAM2 => TiltChannelFunction::MNT2,
        }
    }
}

/// One calibration point: the focus position that is sharp at a zoom position.
#[derive(Debug, Clone, Copy, PartialEq, Eq, Structural)]
pub struct FocusZoomPoint {
    pub zoom: u32,
    pub focus: u32,
}

/// An ordered table of calibration points.
#[derive(Debug, PartialEq, Eq)]
pub struct FocusZoomPoints(pub Vec<FocusZoomPoint>);

impl View for FocusZoomPoints {
    type V = Seq<FocusZoomPoint>;

    open spec fn view(&self) -> Seq<FocusZoomPoint> {
        self.0@
    }
}

/// One row of a script table: `    {zoom = Z, focus = F}`.
pub open spec fn lua_point(p: FocusZoomPoint) -> Seq<char> {
    "    {zoom = "@ + decimal(p.zoom as nat) + ", focus = "@ + decimal(p.focus as nat) + "}"@
}

/// The rows of a script table, separated by a comma and a line break.
pub open spec fn lua_rows(points: Seq<FocusZoomPoint>) -> Seq<char>
    decreases points.len(),
{
    if points.len() == 0 {
        Seq::empty()
    } else if points.len() == 1 {
        lua_point(points[0])
    } else {
        lua_rows(points.drop_last()) + ",\n"@ + lua_point(points.last())
    }
}

/// A script table literal: the rows between `{` and `}`, each on its own line.
pub open spec fn lua_table(points: Seq<FocusZoomPoint>) -> Seq<char> {
    "{\n"@ + lua_rows(points) + "\n}"@
}

impl Clone for FocusZoomPoints {
    fn clone(&self) -> (r: Self)
        ensures
            r@ == self@,
    {
        let mut v: Vec<FocusZoomPoint> = Vec::new();
        let mut i: usize = 0;
        while i < self.0.len()
            invariant
                i <= self.0.len(),
                v@ == self.0@.take(i as int),
            decreases self.0.len() - i,
        {
            v.push(self.0[i]);
            assert(v@ =~= self.0@.take(i + 1));
            i += 1;
        }
        assert(self.0@.take(self.0.len() as int) =~= self.0@);
        FocusZoomPoints(v)
    }
}

impl FocusZoomPoints {
    /// Whether two tables hold the same points in the same order.
    pub fn same_as(&self, other: &FocusZoomPoints) -> (r: bool)
        ensures
            r == (self@ == other@),
    {
        if self.0.len() != other.0.len() {
            return false;
        }
        let mut i: usize = 0;
        while i < self.0.len()
            invariant
                i <= self.0.len(),
                self.0.len() == other.0.len(),
                forall|j: int| 0 <= j < i ==> self.0@[j] == other.0@[j],
            decreases self.0.len() - i,
        {
            if self.0[i] != other.0[i] {
                return false;
            }
            i += 1;
        }
        assert(self@ =~= other@);
        true
    }

    /// Renders the table as a script table literal.
    pub fn to_lua(&self) -> (s: String)
        ensures
            s@ == lua_table(self@),
    {
        let mut out = String::from_str("{\n");
        let mut i: usize = 0;
        while i < self.0.len()
            invariant
                i <= self.0.len(),
                out@ == "{\n"@ + lua_rows(self.0@.take(i as int)),
            decreases self.0.len() - i,
        {
            let ghost before = out@;
            let ghost prev = self.0@.take(i as int);
            let ghost next = self.0@.take(i + 1);
            if i > 0 {
                out.append(",\n");
            }
            let p = self.0[i];
            out.append("    {zoom = ");
            push_decimal(&mut out, p.zoom as u64);
            out.append(", focus = ");
            push_decimal(&mut out, p.focus as u64);
            out.append("}");
            proof {
                assert(next.drop_last() =~= prev);
                assert(next.last() == p);
                if i == 0 {
                    assert(lua_rows(prev) =~= Seq::<char>::empty());
                    assert(out@ =~= "{\n"@ + lua_point(p));
                } else {
                    assert(out@ =~= before + ",\n"@ + lua_point(p));
                    assert(out@ =~= "{\n"@ + lua_rows(next));
                }
            }
            i += 1;
        }
        assert(self.0@.take(self.0.len() as int) =~= self.0@);
        out.append("\n}");
        out
    }
}

/// The last observed actuator positions. Each reading is the bit pattern of a
/// single-precision number; `None` means no reading.
#[derive(Debug, Clone, Copy, PartialEq, Eq, Structural)]
pub struct ActuatorsState {
    pub focus: Option<u32>,
    pub zoom: Option<u32>,
    pub tilt: Option<u32>,
}

impl Default for ActuatorsState {
    fn default() -> (r: Self)
        ensures
            r == (ActuatorsState { focus: None, zoom: None, tilt: None }),
    {
        ActuatorsState { focus: None, zoom: None, tilt: None }
    }
}

/// A partial update of the actuator parameters: a field that is `None` leaves
/// the current value as it is. The margin gain is the bit pattern of a
/// single-precision number.
#[derive(Debug, Clone, Copy, PartialEq, Eq, Structural)]
pub struct ActuatorsParametersConfig {
    pub camera_id: Option<CameraID>,
    pub focus_channel: Option<ServoChannel>,
    pub focus_channel_min: Option<u16>,
    pub focus_channel_trim: Option<u16>,
    pub focus_channel_max: Option<u16>,
    pub focus_margin_gain: Option<u32>,
    pub script_function: Option<ScriptFunction>,
    pub script_channel: Option<ServoChannel>,
    pub script_channel_min: Option<u16>,
    pub script_channel_trim: Option<u16>,
    pub script_channel_max: Option<u16>,
    pub enable_focus_and_zoom_correlation: Option<bool>,
    pub zoom_channel: Option<ServoChannel>,
    pub zoom_channel_min: Option<u16>,
    pub zoom_channel_trim: Option<u16>,
    pub zoom_channel_max: Option<u16>,
    pub tilt_channel: Option<ServoChannel>,
    pub tilt_channel_min: Option<u16>,
    pub tilt_channel_trim: Option<u16>,
    pub tilt_channel_max: Option<u16>,
    pub tilt_channel_reversed: Option<bool>,
    pub tilt_mnt_type: Option<MountType>,
    pub tilt_mnt_pitch_min: Option<i32>,
    pub tilt_mnt_pitch_max: Option<i32>,
}

/// The value of a patch over a base: the patch's value where it has one.
pub open spec fn overlay<T>(base: Option<T>, patch: Option<T>) -> Option<T> {
    if patch is Some {
        patch
    } else {
        base
    }
}

fn overlay_value<T: Copy>(base: Option<T>, patch: Option<T>) -> (r: Option<T>)
    ensures
        r == overlay(base, patch),
{
    match patch {
        Some(v) => Some(v),
        None => base,
    }
}

impl ActuatorsParametersConfig {
    /// The patch that changes nothing.
    pub open spec fn spec_empty() -> ActuatorsParametersConfig {
        ActuatorsParametersConfig {
            camera_id: None,
            focus_channel: None,
            focus_channel_min: None,
            focus_channel_trim: None,
            focus_channel_max: None,
            focus_margin_gain: None,
            script_function: None,
            script_channel: None,
            script_channel_min: None,
            script_channel_trim: None,
            script_channel_max: None,
            enable_focus_and_zoom_correlation: None,
            zoom_channel: None,
            zoom_channel_min: None,
            zoom_channel_trim: None,
            zoom_channel_max: None,
            tilt_channel: None,
            tilt_channel_min: None,
            tilt_channel_trim: None,
            tilt_channel_max: None,
            tilt_channel_reversed: None,
            tilt_mnt_type: None,
            tilt_mnt_pitch_min: None,
            tilt_mnt_pitch_max: None,
        }
    }

    /// Field by field, the patch's value where it has one and the base's
    /// value elsewhere.
    pub open spec fn spec_merge(
        base: ActuatorsParametersConfig,
        patch: ActuatorsParametersConfig,
    ) -> ActuatorsParametersConfig {
        ActuatorsParametersConfig {
            camera_id: overlay(base.camera_id, patch.camera_id),
            focus_channel: overlay(base.focus_channel, patch.focus_channel),
            focus_channel_min: overlay(base.focus_channel_min, patch.focus_channel_min),
            focus_channel_trim: overlay(base.focus_channel_trim, patch.focus_channel_trim),
            focus_channel_max: overlay(base.focus_channel_max, patch.focus_channel_max),
            focus_margin_gain: overlay(base.focus_margin_gain, patch.focus_margin_gain),
            script_function: overlay(base.script_function, patch.script_function),
            script_channel: overlay(base.script_channel, patch.script_channel),
            script_channel_min: overlay(base.script_channel_min, patch.script_channel_min),
            script_channel_trim: overlay(base.script_channel_trim, patch.script_channel_trim),
            script_channel_max: overlay(base.script_channel_max, patch.script_channel_max),
            enable_focus_and_zoom_correlation: overlay(
                base.enable_focus_and_zoom_correlation,
                patch.enable_focus_and_zoom_correlation,
            ),
            zoom_channel: overlay(base.zoom_channel, patch.zoom_channel),
            zoom_channel_min: overlay(base.zoom_channel_min, patch.zoom_channel_min),
            zoom_channel_trim: overlay(base.zoom_channel_trim, patch.zoom_channel_trim),
            zoom_channel_max: overlay(base.zoom_channel_max, patch.zoom_channel_max),
            tilt_channel: overlay(base.tilt_channel, patch.tilt_channel),
            tilt_channel_min: overlay(base.tilt_channel_min, patch.tilt_channel_min),
            tilt_channel_trim: overlay(base.tilt_channel_trim, patch.tilt_channel_trim),
            tilt_channel_max: overlay(base.tilt_channel_max, patch.tilt_channel_max),
            tilt_channel_reversed: overlay(base.tilt_channel_reversed, patch.tilt_channel_reversed),
            tilt_mnt_type: overlay(base.tilt_mnt_type, patch.tilt_mnt_type),
            tilt_mnt_pitch_min: overlay(base.tilt_mnt_pitch_min, patch.tilt_mnt_pitch_min),
            tilt_mnt_pitch_max: overlay(base.tilt_mnt_pitch_max, patch.tilt_mnt_pitch_max),
        }
    }

    /// Lays `patch` over `base`: fields present in the patch win, absent
    /// fields keep the base's value.
    pub fn merge(base: &ActuatorsParametersConfig, patch: &ActuatorsParametersConfig) -> (r:
        ActuatorsParametersConfig)
        ensures
            r == ActuatorsParametersConfig::spec_merge(*base, *patch),
    {
        ActuatorsParametersConfig {
            camera_id: overlay_value(base.camera_id, patch.camera_id),
            focus_channel: overlay_value(base.focus_channel, patch.focus_channel),
            focus_channel_min: overlay_value(base.focus_channel_min, patch.focus_channel_min),
            focus_channel_trim: overlay_value(base.focus_channel_trim, patch.focus_channel_trim),
            focus_channel_max: overlay_value(base.focus_channel_max, patch.focus_channel_max),
            focus_margin_gain: overlay_value(base.focus_margin_gain, patch.focus_margin_gain),
            script_function: overlay_value(base.script_function, patch.script_function),
            script_channel: overlay_value(base.script_channel, patch.script_channel),
            script_channel_min: overlay_value(base.script_channel_min, patch.script_channel_min),
            script_channel_trim: overlay_value(
                base.script_channel_trim,
                patch.script_channel_trim,
            ),
            script_channel_max: overlay_value(base.script_channel_max, patch.script_channel_max),
            enable_focus_and_zoom_correlation: overlay_value(
                base.enable_focus_and_zoom_correlation,
                patch.enable_focus_and_zoom_correlation,
            ),
            zoom_channel: overlay_value(base.zoom_channel, patch.zoom_channel),
            zoom_channel_min: overlay_value(base.zoom_channel_min, patch.zoom_channel_min),
            zoom_channel_trim: overlay_value(base.zoom_channel_trim, patch.zoom_channel_trim),
            zoom_channel_max: overlay_value(base.zoom_channel_max, patch.zoom_channel_max),
            tilt_channel: overlay_value(base.tilt_channel, patch.tilt_channel),
            tilt_channel_min: overlay_value(base.tilt_channel_min, patch.tilt_channel_min),
            tilt_channel_trim: overlay_value(base.tilt_channel_trim, patch.tilt_channel_trim),
            tilt_channel_max: overlay_value(base.tilt_channel_max, patch.tilt_channel_max),
            tilt_channel_reversed: overlay_value(
                base.tilt_channel_reversed,
                patch.tilt_channel_reversed,
            ),
            tilt_mnt_type: overlay_value(base.tilt_mnt_type, patch.tilt_mnt_type),
            tilt_mnt_pitch_min: overlay_value(base.tilt_mnt_pitch_min, patch.tilt_mnt_pitch_min),
            tilt_mnt_pitch_max: overlay_value(base.tilt_mnt_pitch_max, patch.tilt_mnt_pitch_max),
        }
    }
}

impl Default for ActuatorsParametersConfig {
    fn default() -> (r: Self)
        ensures
            r == ActuatorsParametersConfig::spec_empty(),
    {
        ActuatorsParametersConfig {
            camera_id: None,
            focus_channel: None,
            focus_channel_min: None,
            focus_channel_trim: None,
            focus_channel_max: None,
            focus_margin_gain: None,
            script_function: None,
            script_channel: None,
            script_channel_min: None,
            script_channel_trim: None,
            script_channel_max: None,
            enable_focus_and_zoom_correlation: None,
            zoom_channel: None,
            zoom_channel_min: None,
            zoom_channel_trim: None,
            zoom_channel_max: None,
            tilt_channel: None,
            tilt_channel_min: None,
            tilt_channel_trim: None,
            tilt_channel_max: None,
            tilt_channel_reversed: None,
            tilt_mnt_type: None,
            tilt_mnt_pitch_min: None,
            tilt_mnt_pitch_max: None,
        }
    }
}

/// A partial update of one camera's configuration: every part is optional.
#[derive(Debug, PartialEq, Eq)]
pub struct ActuatorsConfig {
    pub parameters: Option<ActuatorsParametersConfig>,
    pub closest_points: Option<FocusZoomPoints>,
    pub furthest_points: Option<FocusZoomPoints>,
}

/// The mathematical value of an [`ActuatorsConfig`].
pub struct ActuatorsConfigView {
    pub parameters: Option<ActuatorsParametersConfig>,
    pub closest_points: Option<Seq<FocusZoomPoint>>,
    pub furthest_points: Option<Seq<FocusZoomPoint>>,
}

/// The view of an optional table.
pub open spec fn points_view(p: Option<FocusZoomPoints>) -> Option<Seq<FocusZoomPoint>> {
    match p {
        Some(t) => Some(t@),
        None => None,
    }
}

impl View for ActuatorsConfig {
    type V = ActuatorsConfigView;

    open spec fn view(&self) -> ActuatorsConfigView {
        ActuatorsConfigView {
            parameters: self.parameters,
            closest_points: points_view(self.closest_points),
            furthest_points: points_view(self.furthest_points),
        }
    }
}

fn clone_points(p: &Option<FocusZoomPoints>) -> (r: Option<FocusZoomPoints>)
    ensures
        points_view(r) == points_view(*p),
{
    match p {
        Some(t) => Some(t.clone()),
        None => None,
    }
}

fn overlay_points(base: &Option<FocusZoomPoints>, patch: &Option<FocusZoomPoints>) -> (r: Option<
    FocusZoomPoints,
>)
    ensures
        points_view(r) == overlay(points_view(*base), points_view(*patch)),
{
    match patch {
        Some(t) => Some(t.clone()),
        None => clone_points(base),
    }
}

impl Clone for ActuatorsConfig {
    fn clone(&self) -> (r: Self)
        ensures
            r@ == self@,
    {
        ActuatorsConfig {
            parameters: self.parameters,
            closest_points: clone_points(&self.closest_points),
            furthest_points: clone_points(&self.furthest_points),
        }
    }
}

impl ActuatorsConfigView {
    /// The patch that changes nothing.
    pub open spec fn empty() -> ActuatorsConfigView {
        ActuatorsConfigView { parameters: None, closest_points: None, furthest_points: None }
    }

    /// Whether the patch names no value at all: no table, and either no
    /// parameters or parameters without a single field.
    pub open spec fn is_empty(self) -> bool {
        &&& self.closest_points is None
        &&& self.furthest_points is None
        &&& (self.parameters matches Some(p) ==> p == ActuatorsParametersConfig::spec_empty())
    }

    /// The structural merge of `patch` over `base`.
    pub open spec fn merge(base: ActuatorsConfigView, patch: ActuatorsConfigView)
        -> ActuatorsConfigView {
        ActuatorsConfigView {
            parameters: match (base.parameters, patch.parameters) {
                (Some(b), Some(p)) => Some(ActuatorsParametersConfig::spec_merge(b, p)),
                (None, Some(p)) => Some(p),
                (b, None) => b,
            },
            closest_points: overlay(base.closest_points, patch.closest_points),
            furthest_points: overlay(base.furthest_points, patch.furthest_points),
        }
    }
}

impl Default for ActuatorsConfig {
    fn default() -> (r: Self)
        ensures
            r@ == ActuatorsConfigView::empty(),
    {
        ActuatorsConfig { parameters: None, closest_points: None, furthest_points: None }
    }
}

impl ActuatorsConfig {
    /// Lays `patch` over `base`: what the patch names wins, everything else
    /// keeps the base's value. Tables are replaced whole.
    pub fn merge(base: &ActuatorsConfig, patch: &ActuatorsConfig) -> (r: ActuatorsConfig)
        ensures
            r@ == ActuatorsConfigView::merge(base@, patch@),
    {
        let parameters = match (&base.parameters, &patch.parameters) {
            (Some(b), Some(p)) => Some(ActuatorsParametersConfig::merge(b, p)),
            (None, Some(p)) => Some(*p),
            (Some(b), None) => Some(*b),
            (None, None) => None,
        };
        ActuatorsConfig {
            parameters,
            closest_points: overlay_points(&base.closest_points, &patch.closest_points),
            furthest_points: overlay_points(&base.furthest_points, &patch.furthest_points),
        }
    }
}

/// Merging the empty patch over a configuration gives that configuration.
pub proof fn lemma_merge_empty_patch(base: ActuatorsConfigView)
    ensures
        ActuatorsConfigView::merge(base, ActuatorsConfigView::empty()) == base,
{
}

/// Merging twice with the same patch gives what merging once gives.
pub proof fn lemma_merge_idempotent(base: ActuatorsConfigView, patch: ActuatorsConfigView)
    ensures
        ActuatorsConfigView::merge(ActuatorsConfigView::merge(base, patch), patch)
            == ActuatorsConfigView::merge(base, patch),
{
}

} // verus!
