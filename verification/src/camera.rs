//! The values of the camera's own command interface that the manager hands
//! through: the video parameters, the basic image settings and the camera's
//! answer.

use vstd::prelude::*;

verus! {

/// Which of the camera's streams is meant.
#[derive(Debug, Clone, Copy, PartialEq, Eq, Structural)]
pub enum VideoChannelValue {
    MainStream,
    AuxiliaryStream,
    ThirdStream,
}

/// The encoding profile.
#[derive(Debug, Clone, Copy, PartialEq, Eq, Structural)]
pub enum VideoEncodingProfileValue {
    Baseline,
    MainProfile,
    HighProfile,
}

/// The video coding.
#[derive(Debug, Clone, Copy, PartialEq, Eq, Structural)]
pub enum VideoEncodeTypeValue {
    H264,
    H265,
}

/// The bitrate control.
#[derive(Debug, Clone, Copy, PartialEq, Eq, Structural)]
pub enum VideoRcModeValue {
    VariableBitRate,
    ConstantBitRate,
}

impl VideoChannelValue {
    /// The number of the stream in the camera's interface.
    pub open spec fn spec_code(self) -> u8 {
        match self {
            VideoChannelValue::MainStream => 0,
            VideoChannelValue::AuxiliaryStream => 1,
            VideoChannelValue::ThirdStream => 2,
        }
    }

    /// The number of the stream in the camera's interface.
    #[verifier::when_used_as_spec(spec_code)]
    pub fn code(self) -> (c: u8)
        ensures
            c == self.spec_code(),
    {
        match self {
            VideoChannelValue::MainStream => 0,
            VideoChannelValue::AuxiliaryStream => 1,
            VideoChannelValue::ThirdStream => 2,
        }
    }

    /// The stream with the given number, if there is one.
    pub fn from_code(c: u8) -> (r: Option<VideoChannelValue>)
        ensures
            r matches Some(v) ==> v.spec_code() == c,
            r is None <==> c > 2,
    {
        match c {
            0 => Some(VideoChannelValue::MainStream),
            1 => Some(VideoChannelValue::AuxiliaryStream),
            2 => Some(VideoChannelValue::ThirdStream),
            _ => None,
        }
    }
}

impl VideoEncodingProfileValue {
    /// The number of the profile in the camera's interface.
    pub open spec fn spec_code(self) -> u8 {
        match self {
            VideoEncodingProfileValue::Baseline => 0,
            VideoEncodingProfileValue::MainProfile => 1,
            VideoEncodingProfileValue::HighProfile => 2,
        }
    }

    /// The number of the profile in the camera's interface.
    #[verifier::when_used_as_spec(spec_code)]
    pub fn code(self) -> (c: u8)
        ensures
            c == self.spec_code(),
    {
        match self {
            VideoEncodingProfileValue::Baseline => 0,
            VideoEncodingProfileValue::MainProfile => 1,
            VideoEncodingProfileValue::HighProfile => 2,
        }
    }

    /// The profile with the given number, if there is one.
    pub fn from_code(c: u8) -> (r: Option<VideoEncodingProfileValue>)
        ensures
            r matches Some(v) ==> v.spec_code() == c,
            r is None <==> c > 2,
    {
        match c {
            0 => Some(VideoEncodingProfileValue::Baseline),
            1 => Some(VideoEncodingProfileValue::MainProfile),
            2 => Some(VideoEncodingProfileValue::HighProfile),
            _ => None,
        }
    }
}

impl VideoEncodeTypeValue {
    /// The number of the coding in the camera's interface.
    pub open spec fn spec_code(self) -> u8 {
        match self {
            VideoEncodeTypeValue::H264 => 1,
            VideoEncodeTypeValue::H265 => 5,
        }
    }

    /// The number of the coding in the camera's interface.
    #[verifier::when_used_as_spec(spec_code)]
    pub fn code(self) -> (c: u8)
        ensures
            c == self.spec_code(),
    {
        match self {
            VideoEncodeTypeValue::H264 => 1,
            VideoEncodeTypeValue::H265 => 5,
        }
    }

    /// The coding with the given number, if there is one.
    pub fn from_code(c: u8) -> (r: Option<VideoEncodeTypeValue>)
        ensures
            r matches Some(v) ==> v.spec_code() == c,
            r is None <==> c != 1 && c != 5,
    {
        match c {
            1 => Some(VideoEncodeTypeValue::H264),
            5 => Some(VideoEncodeTypeValue::H265),
            _ => None,
        }
    }
}

impl VideoRcModeValue {
    /// The number of the bitrate control in the camera's interface.
    pub open spec fn spec_code(self) -> u8 {
        match self {
            VideoRcModeValue::VariableBitRate => 0,
            VideoRcModeValue::ConstantBitRate => 1,
        }
    }

    /// The number of the bitrate control in the camera's interface.
    #[verifier::when_used_as_spec(spec_code)]
    pub fn code(self) -> (c: u8)
        ensures
            c == self.spec_code(),
    {
        match self {
            VideoRcModeValue::VariableBitRate => 0,
            VideoRcModeValue::ConstantBitRate => 1,
        }
    }

    /// The bitrate control with the given number, if there is one.
    pub fn from_code(c: u8) -> (r: Option<VideoRcModeValue>)
        ensures
            r matches Some(v) ==> v.spec_code() == c,
            r is None <==> c > 1,
    {
        match c {
            0 => Some(VideoRcModeValue::VariableBitRate),
            1 => Some(VideoRcModeValue::ConstantBitRate),
            _ => None,
        }
    }
}

/// A picture size that the camera offers.
#[derive(Debug, Clone, Copy, PartialEq, Eq, Structural)]
pub struct VideoResolutionValue {
    pub width: u16,
    pub height: u16,
}

/// The video parameters of one of the camera's streams. A field that is
/// `None` is left as the camera has it.
#[derive(Debug, PartialEq, Eq)]
pub struct VideoParameterSettings {
    pub channel: Option<VideoChannelValue>,
    pub encode_profile: Option<VideoEncodingProfileValue>,
    pub encode_type: Option<VideoEncodeTypeValue>,
    pub pixel_list: Option<Vec<VideoResolutionValue>>,
    pub pic_width: Option<u16>,
    pub pic_height: Option<u16>,
    pub rc_mode: Option<VideoRcModeValue>,
    pub bitrate: Option<u16>,
    pub max_framerate: Option<u16>,
    pub frame_rate: Option<u16>,
    pub gop: Option<u16>,
}

impl VideoParameterSettings {
    /// The request that reads back the parameters of the stream that a
    /// change was made to: it names the stream and nothing else.
    pub fn read_back(&self) -> (r: VideoParameterSettings)
        ensures
            r.channel == self.channel,
            r.encode_profile is None,
            r.encode_type is None,
            r.pixel_list is None,
            r.pic_width is None,
            r.pic_height is None,
            r.rc_mode is None,
            r.bitrate is None,
            r.max_framerate is None,
            r.frame_rate is None,
            r.gop is None,
    {
        VideoParameterSettings {
            channel: self.channel,
            encode_profile: None,
            encode_type: None,
            pixel_list: None,
            pic_width: None,
            pic_height: None,
            rc_mode: None,
            bitrate: None,
            max_framerate: None,
            frame_rate: None,
            gop: None,
        }
    }
}

/// The longest exposure, as the divisor of a second.
#[derive(Debug, Clone, Copy, PartialEq, Eq, Structural)]
#[allow(non_camel_case_types)]
pub enum BaseMaxExposureValue {
    _12,
    _25,
    _30,
    _50,
    _60,
    _100,
    _200,
    _400,
    _800,
    _1000,
    _2000,
    _4000,
    _8000,
}

impl BaseMaxExposureValue {
    /// The number of the value in the camera's interface.
    pub open spec fn spec_code(self) -> u32 {
        match self {
            BaseMaxExposureValue::_12 => 12,
            BaseMaxExposureValue::_25 => 25,
            BaseMaxExposureValue::_30 => 30,
            BaseMaxExposureValue::_50 => 50,
            BaseMaxExposureValue::_60 => 60,
            BaseMaxExposureValue::_100 => 100,
            BaseMaxExposureValue::_200 => 200,
            BaseMaxExposureValue::_400 => 400,
            BaseMaxExposureValue::_800 => 800,
            BaseMaxExposureValue::_1000 => 1000,
            BaseMaxExposureValue::_2000 => 2000,
            BaseMaxExposureValue::_4000 => 4000,
            BaseMaxExposureValue::_8000 => 8000,
        }
    }

    /// The number of the value in the camera's interface.
    #[verifier::when_used_as_spec(spec_code)]
    pub fn code(self) -> (c: u32)
        ensures
            c == self.spec_code(),
    {
        match self {
            BaseMaxExposureValue::_12 => 12,
            BaseMaxExposureValue::_25 => 25,
            BaseMaxExposureValue::_30 => 30,
            BaseMaxExposureValue::_50 => 50,
            BaseMaxExposureValue::_60 => 60,
            BaseMaxExposureValue::_100 => 100,
            BaseMaxExposureValue::_200 => 200,
            BaseMaxExposureValue::_400 => 400,
            BaseMaxExposureValue::_800 => 800,
            BaseMaxExposureValue::_1000 => 1000,
            BaseMaxExposureValue::_2000 => 2000,
            BaseMaxExposureValue::_4000 => 4000,
            BaseMaxExposureValue::_8000 => 8000,
        }
    }

    /// The value with the given number, if there is one.
    pub fn from_code(c: u32) -> (r: Option<BaseMaxExposureValue>)
        ensures
            r matches Some(v) ==> v.spec_code() == c,
            r is None ==> forall|v: BaseMaxExposureValue| v.spec_code() != c,
    {
        if c == 12 {
            Some(BaseMaxExposureValue::_12)
        } else if c == 25 {
            Some(BaseMaxExposureValue::_25)
        } else if c == 30 {
            Some(BaseMaxExposureValue::_30)
        } else if c == 50 {
            Some(BaseMaxExposureValue::_50)
        } else if c == 60 {
            Some(BaseMaxExposureValue::_60)
        } else if c == 100 {
            Some(BaseMaxExposureValue::_100)
        } else if c == 200 {
            Some(BaseMaxExposureValue::_200)
        } else if c == 400 {
            Some(BaseMaxExposureValue::_400)
        } else if c == 800 {
            Some(BaseMaxExposureValue::_800)
        } else if c == 1000 {
            Some(BaseMaxExposureValue::_1000)
        } else if c == 2000 {
            Some(BaseMaxExposureValue::_2000)
        } else if c == 4000 {
            Some(BaseMaxExposureValue::_4000)
        } else if c == 8000 {
            Some(BaseMaxExposureValue::_8000)
        } else {
            None
        }
    }
}

/// Whether the image is dehazed.
#[derive(Debug, Clone, Copy, PartialEq, Eq, Structural)]
#[allow(non_camel_case_types)]
pub enum BaseAntiFogValue {
    Close,
    Open,
}

impl BaseAntiFogValue {
    /// The number of the value in the camera's interface.
    pub open spec fn spec_code(self) -> u8 {
        match self {
            BaseAntiFogValue::Close => 0,
            BaseAntiFogValue::Open => 1,
        }
    }

    /// The number of the value in the camera's interface.
    #[verifier::when_used_as_spec(spec_code)]
    pub fn code(self) -> (c: u8)
        ensures
            c == self.spec_code(),
    {
        match self {
            BaseAntiFogValue::Close => 0,
            BaseAntiFogValue::Open => 1,
        }
    }

    /// The value with the given number, if there is one.
    pub fn from_code(c: u8) -> (r: Option<BaseAntiFogValue>)
        ensures
            r matches Some(v) ==> v.spec_code() == c,
            r is None ==> forall|v: BaseAntiFogValue| v.spec_code() != c,
    {
        if c == 0 {
            Some(BaseAntiFogValue::Close)
        } else if c == 1 {
            Some(BaseAntiFogValue::Open)
        } else {
            None
        }
    }
}

/// The frame rate boost.
#[derive(Debug, Clone, Copy, PartialEq, Eq, Structural)]
#[allow(non_camel_case_types)]
pub enum BaseFrameTurboValue {
    Close,
    HighFrameRates,
    UltraHighFrameRates,
}

impl BaseFrameTurboValue {
    /// The number of the value in the camera's interface.
    pub open spec fn spec_code(self) -> u8 {
        match self {
            BaseFrameTurboValue::Close => 0,
            BaseFrameTurboValue::HighFrameRates => 1,
            BaseFrameTurboValue::UltraHighFrameRates => 2,
        }
    }

    /// The number of the value in the camera's interface.
    #[verifier::when_used_as_spec(spec_code)]
    pub fn code(self) -> (c: u8)
        ensures
            c == self.spec_code(),
    {
        match self {
            BaseFrameTurboValue::Close => 0,
            BaseFrameTurboValue::HighFrameRates => 1,
            BaseFrameTurboValue::UltraHighFrameRates => 2,
        }
    }

    /// The value with the given number, if there is one.
    pub fn from_code(c: u8) -> (r: Option<BaseFrameTurboValue>)
        ensures
            r matches Some(v) ==> v.spec_code() == c,
            r is None ==> forall|v: BaseFrameTurboValue| v.spec_code() != c,
    {
        if c == 0 {
            Some(BaseFrameTurboValue::Close)
        } else if c == 1 {
            Some(BaseFrameTurboValue::HighFrameRates)
        } else if c == 2 {
            Some(BaseFrameTurboValue::UltraHighFrameRates)
        } else {
            None
        }
    }
}

/// The scene that the image is tuned for.
#[derive(Debug, Clone, Copy, PartialEq, Eq, Structural)]
#[allow(non_camel_case_types)]
pub enum BaseSceneModeValue {
    FaceCapture,
    LicensePlateCapture,
}

impl BaseSceneModeValue {
    /// The number of the value in the camera's interface.
    pub open spec fn spec_code(self) -> u8 {
        match self {
            BaseSceneModeValue::FaceCapture => 1,
            BaseSceneModeValue::LicensePlateCapture => 2,
        }
    }

    /// The number of the value in the camera's interface.
    #[verifier::when_used_as_spec(spec_code)]
    pub fn code(self) -> (c: u8)
        ensures
            c == self.spec_code(),
    {
        match self {
            BaseSceneModeValue::FaceCapture => 1,
            BaseSceneModeValue::LicensePlateCapture => 2,
        }
    }

    /// The value with the given number, if there is one.
    pub fn from_code(c: u8) -> (r: Option<BaseSceneModeValue>)
        ensures
            r matches Some(v) ==> v.spec_code() == c,
            r is None ==> forall|v: BaseSceneModeValue| v.spec_code() != c,
    {
        if c == 1 {
            Some(BaseSceneModeValue::FaceCapture)
        } else if c == 2 {
            Some(BaseSceneModeValue::LicensePlateCapture)
        } else {
            None
        }
    }
}

/// What the automatic exposure favours.
#[derive(Debug, Clone, Copy, PartialEq, Eq, Structural)]
#[allow(non_camel_case_types)]
pub enum BaseAutoExposureStrategyModeValue {
    HighLightPriority,
    LowLightPriority,
}

impl BaseAutoExposureStrategyModeValue {
    /// The number of the value in the camera's interface.
    pub open spec fn spec_code(self) -> u8 {
        match self {
            BaseAutoExposureStrategyModeValue::HighLightPriority => 0,
            BaseAutoExposureStrategyModeValue::LowLightPriority => 1,
        }
    }

    /// The number of the value in the camera's interface.
    #[verifier::when_used_as_spec(spec_code)]
    pub fn code(self) -> (c: u8)
        ensures
            c == self.spec_code(),
    {
        match self {
            BaseAutoExposureStrategyModeValue::HighLightPriority => 0,
            BaseAutoExposureStrategyModeValue::LowLightPriority => 1,
        }
    }

    /// The value with the given number, if there is one.
    pub fn from_code(c: u8) -> (r: Option<BaseAutoExposureStrategyModeValue>)
        ensures
            r matches Some(v) ==> v.spec_code() == c,
            r is None ==> forall|v: BaseAutoExposureStrategyModeValue| v.spec_code() != c,
    {
        if c == 0 {
            Some(BaseAutoExposureStrategyModeValue::HighLightPriority)
        } else if c == 1 {
            Some(BaseAutoExposureStrategyModeValue::LowLightPriority)
        } else {
            None
        }
    }
}

/// Whether the exposure is automatic.
#[derive(Debug, Clone, Copy, PartialEq, Eq, Structural)]
#[allow(non_camel_case_types)]
pub enum BaseExposureModeValue {
    Auto,
    Manual,
}

impl BaseExposureModeValue {
    /// The number of the value in the camera's interface.
    pub open spec fn spec_code(self) -> u8 {
        match self {
            BaseExposureModeValue::Auto => 0,
            BaseExposureModeValue::Manual => 1,
        }
    }

    /// The number of the value in the camera's interface.
    #[verifier::when_used_as_spec(spec_code)]
    pub fn code(self) -> (c: u8)
        ensures
            c == self.spec_code(),
    {
        match self {
            BaseExposureModeValue::Auto => 0,
            BaseExposureModeValue::Manual => 1,
        }
    }

    /// The value with the given number, if there is one.
    pub fn from_code(c: u8) -> (r: Option<BaseExposureModeValue>)
        ensures
            r matches Some(v) ==> v.spec_code() == c,
            r is None ==> forall|v: BaseExposureModeValue| v.spec_code() != c,
    {
        if c == 0 {
            Some(BaseExposureModeValue::Auto)
        } else if c == 1 {
            Some(BaseExposureModeValue::Manual)
        } else {
            None
        }
    }
}

/// The manual exposure time, as the divisor of a second.
#[derive(Debug, Clone, Copy, PartialEq, Eq, Structural)]
#[allow(non_camel_case_types)]
pub enum BaseExposureTimeValue {
    _12,
    _25,
    _30,
    _50,
    _60,
    _100,
    _200,
    _400,
    _800,
    _1000,
    _2000,
    _4000,
    _8000,
    _10000,
    _34464,
}

impl BaseExposureTimeValue {
    /// The number of the value in the camera's interface.
    pub open spec fn spec_code(self) -> u32 {
        match self {
            BaseExposureTimeValue::_12 => 12,
            BaseExposureTimeValue::_25 => 25,
            BaseExposureTimeValue::_30 => 30,
            BaseExposureTimeValue::_50 => 50,
            BaseExposureTimeValue::_60 => 60,
            BaseExposureTimeValue::_100 => 100,
            BaseExposureTimeValue::_200 => 200,
            BaseExposureTimeValue::_400 => 400,
            BaseExposureTimeValue::_800 => 800,
            BaseExposureTimeValue::_1000 => 1000,
            BaseExposureTimeValue::_2000 => 2000,
            BaseExposureTimeValue::_4000 => 4000,
            BaseExposureTimeValue::_8000 => 8000,
            BaseExposureTimeValue::_10000 => 10000,
            BaseExposureTimeValue::_34464 => 34464,
        }
    }

    /// The number of the value in the camera's interface.
    #[verifier::when_used_as_spec(spec_code)]
    pub fn code(self) -> (c: u32)
        ensures
            c == self.spec_code(),
    {
        match self {
            BaseExposureTimeValue::_12 => 12,
            BaseExposureTimeValue::_25 => 25,
            BaseExposureTimeValue::_30 => 30,
            BaseExposureTimeValue::_50 => 50,
            BaseExposureTimeValue::_60 => 60,
            BaseExposureTimeValue::_100 => 100,
            BaseExposureTimeValue::_200 => 200,
            BaseExposureTimeValue::_400 => 400,
            BaseExposureTimeValue::_800 => 800,
            BaseExposureTimeValue::_1000 => 1000,
            BaseExposureTimeValue::_2000 => 2000,
            BaseExposureTimeValue::_4000 => 4000,
            BaseExposureTimeValue::_8000 => 8000,
            BaseExposureTimeValue::_10000 => 10000,
            BaseExposureTimeValue::_34464 => 34464,
        }
    }

    /// The value with the given number, if there is one.
    pub fn from_code(c: u32) -> (r: Option<BaseExposureTimeValue>)
        ensures
            r matches Some(v) ==> v.spec_code() == c,
            r is None ==> forall|v: BaseExposureTimeValue| v.spec_code() != c,
    {
        if c == 12 {
            Some(BaseExposureTimeValue::_12)
        } else if c == 25 {
            Some(BaseExposureTimeValue::_25)
        } else if c == 30 {
            Some(BaseExposureTimeValue::_30)
        } else if c == 50 {
            Some(BaseExposureTimeValue::_50)
        } else if c == 60 {
            Some(BaseExposureTimeValue::_60)
        } else if c == 100 {
            Some(BaseExposureTimeValue::_100)
        } else if c == 200 {
            Some(BaseExposureTimeValue::_200)
        } else if c == 400 {
            Some(BaseExposureTimeValue::_400)
        } else if c == 800 {
            Some(BaseExposureTimeValue::_800)
        } else if c == 1000 {
            Some(BaseExposureTimeValue::_1000)
        } else if c == 2000 {
            Some(BaseExposureTimeValue::_2000)
        } else if c == 4000 {
            Some(BaseExposureTimeValue::_4000)
        } else if c == 8000 {
            Some(BaseExposureTimeValue::_8000)
        } else if c == 10000 {
            Some(BaseExposureTimeValue::_10000)
        } else if c == 34464 {
            Some(BaseExposureTimeValue::_34464)
        } else {
            None
        }
    }
}

/// Whether the white balance is automatic.
#[derive(Debug, Clone, Copy, PartialEq, Eq, Structural)]
#[allow(non_camel_case_types)]
pub enum BaseAutoWhiteBalanceModeValue {
    Auto,
    Manual,
}

impl BaseAutoWhiteBalanceModeValue {
    /// The number of the value in the camera's interface.
    pub open spec fn spec_code(self) -> u8 {
        match self {
            BaseAutoWhiteBalanceModeValue::Auto => 0,
            BaseAutoWhiteBalanceModeValue::Manual => 1,
        }
    }

    /// The number of the value in the camera's interface.
    #[verifier::when_used_as_spec(spec_code)]
    pub fn code(self) -> (c: u8)
        ensures
            c == self.spec_code(),
    {
        match self {
            BaseAutoWhiteBalanceModeValue::Auto => 0,
            BaseAutoWhiteBalanceModeValue::Manual => 1,
        }
    }

    /// The value with the given number, if there is one.
    pub fn from_code(c: u8) -> (r: Option<BaseAutoWhiteBalanceModeValue>)
        ensures
            r matches Some(v) ==> v.spec_code() == c,
            r is None ==> forall|v: BaseAutoWhiteBalanceModeValue| v.spec_code() != c,
    {
        if c == 0 {
            Some(BaseAutoWhiteBalanceModeValue::Auto)
        } else if c == 1 {
            Some(BaseAutoWhiteBalanceModeValue::Manual)
        } else {
            None
        }
    }
}

/// The scene of the automatic white balance.
#[derive(Debug, Clone, Copy, PartialEq, Eq, Structural)]
#[allow(non_camel_case_types)]
pub enum BaseAutoWhiteBalanceSceneValue {
    Scene0,
    Scene1,
    Scene2,
    Scene3,
    Scene4,
    Scene5,
}

impl BaseAutoWhiteBalanceSceneValue {
    /// The number of the value in the camera's interface.
    pub open spec fn spec_code(self) -> u8 {
        match self {
            BaseAutoWhiteBalanceSceneValue::Scene0 => 0,
            BaseAutoWhiteBalanceSceneValue::Scene1 => 1,
            BaseAutoWhiteBalanceSceneValue::Scene2 => 2,
            BaseAutoWhiteBalanceSceneValue::Scene3 => 3,
            BaseAutoWhiteBalanceSceneValue::Scene4 => 4,
            BaseAutoWhiteBalanceSceneValue::Scene5 => 5,
        }
    }

    /// The number of the value in the camera's interface.
    #[verifier::when_used_as_spec(spec_code)]
    pub fn code(self) -> (c: u8)
        ensures
            c == self.spec_code(),
    {
        match self {
            BaseAutoWhiteBalanceSceneValue::Scene0 => 0,
            BaseAutoWhiteBalanceSceneValue::Scene1 => 1,
            BaseAutoWhiteBalanceSceneValue::Scene2 => 2,
            BaseAutoWhiteBalanceSceneValue::Scene3 => 3,
            BaseAutoWhiteBalanceSceneValue::Scene4 => 4,
            BaseAutoWhiteBalanceSceneValue::Scene5 => 5,
        }
    }

    /// The value with the given number, if there is one.
    pub fn from_code(c: u8) -> (r: Option<BaseAutoWhiteBalanceSceneValue>)
        ensures
            r matches Some(v) ==> v.spec_code() == c,
            r is None ==> forall|v: BaseAutoWhiteBalanceSceneValue| v.spec_code() != c,
    {
        if c == 0 {
            Some(BaseAutoWhiteBalanceSceneValue::Scene0)
        } else if c == 1 {
            Some(BaseAutoWhiteBalanceSceneValue::Scene1)
        } else if c == 2 {
            Some(BaseAutoWhiteBalanceSceneValue::Scene2)
        } else if c == 3 {
            Some(BaseAutoWhiteBalanceSceneValue::Scene3)
        } else if c == 4 {
            Some(BaseAutoWhiteBalanceSceneValue::Scene4)
        } else if c == 5 {
            Some(BaseAutoWhiteBalanceSceneValue::Scene5)
        } else {
            None
        }
    }
}

/// Whether the gain is automatic.
#[derive(Debug, Clone, Copy, PartialEq, Eq, Structural)]
#[allow(non_camel_case_types)]
pub enum BaseAutoGainModeValue {
    Auto,
    Manual,
}

impl BaseAutoGainModeValue {
    /// The number of the value in the camera's interface.
    pub open spec fn spec_code(self) -> u8 {
        match self {
            BaseAutoGainModeValue::Auto => 0,
            BaseAutoGainModeValue::Manual => 1,
        }
    }

    /// The number of the value in the camera's interface.
    #[verifier::when_used_as_spec(spec_code)]
    pub fn code(self) -> (c: u8)
        ensures
            c == self.spec_code(),
    {
        match self {
            BaseAutoGainModeValue::Auto => 0,
            BaseAutoGainModeValue::Manual => 1,
        }
    }

    /// The value with the given number, if there is one.
    pub fn from_code(c: u8) -> (r: Option<BaseAutoGainModeValue>)
        ensures
            r matches Some(v) ==> v.spec_code() == c,
            r is None ==> forall|v: BaseAutoGainModeValue| v.spec_code() != c,
    {
        if c == 0 {
            Some(BaseAutoGainModeValue::Auto)
        } else if c == 1 {
            Some(BaseAutoGainModeValue::Manual)
        } else {
            None
        }
    }
}

/// Whether the manual analogue gain is used.
#[derive(Debug, Clone, Copy, PartialEq, Eq, Structural)]
#[allow(non_camel_case_types)]
pub enum BaseManualAGainEnableValue {
    Close,
    Open,
}

impl BaseManualAGainEnableValue {
    /// The number of the value in the camera's interface.
    pub open spec fn spec_code(self) -> u8 {
        match self {
            BaseManualAGainEnableValue::Close => 0,
            BaseManualAGainEnableValue::Open => 1,
        }
    }

    /// The number of the value in the camera's interface.
    #[verifier::when_used_as_spec(spec_code)]
    pub fn code(self) -> (c: u8)
        ensures
            c == self.spec_code(),
    {
        match self {
            BaseManualAGainEnableValue::Close => 0,
            BaseManualAGainEnableValue::Open => 1,
        }
    }

    /// The value with the given number, if there is one.
    pub fn from_code(c: u8) -> (r: Option<BaseManualAGainEnableValue>)
        ensures
            r matches Some(v) ==> v.spec_code() == c,
            r is None ==> forall|v: BaseManualAGainEnableValue| v.spec_code() != c,
    {
        if c == 0 {
            Some(BaseManualAGainEnableValue::Close)
        } else if c == 1 {
            Some(BaseManualAGainEnableValue::Open)
        } else {
            None
        }
    }
}

/// Whether the manual digital gain is used.
#[derive(Debug, Clone, Copy, PartialEq, Eq, Structural)]
#[allow(non_camel_case_types)]
pub enum BaseManualDGainEnableValue {
    Close,
    Open,
}

impl BaseManualDGainEnableValue {
    /// The number of the value in the camera's interface.
    pub open spec fn spec_code(self) -> u8 {
        match self {
            BaseManualDGainEnableValue::Close => 0,
            BaseManualDGainEnableValue::Open => 1,
        }
    }

    /// The number of the value in the camera's interface.
    #[verifier::when_used_as_spec(spec_code)]
    pub fn code(self) -> (c: u8)
        ensures
            c == self.spec_code(),
    {
        match self {
            BaseManualDGainEnableValue::Close => 0,
            BaseManualDGainEnableValue::Open => 1,
        }
    }

    /// The value with the given number, if there is one.
    pub fn from_code(c: u8) -> (r: Option<BaseManualDGainEnableValue>)
        ensures
            r matches Some(v) ==> v.spec_code() == c,
            r is None ==> forall|v: BaseManualDGainEnableValue| v.spec_code() != c,
    {
        if c == 0 {
            Some(BaseManualDGainEnableValue::Close)
        } else if c == 1 {
            Some(BaseManualDGainEnableValue::Open)
        } else {
            None
        }
    }
}

/// The rotation of the image, in steps of a quarter turn.
#[derive(Debug, Clone, Copy, PartialEq, Eq, Structural)]
#[allow(non_camel_case_types)]
pub enum BaseRotateValue {
    _0,
    _90,
    _180,
    _270,
}

impl BaseRotateValue {
    /// The number of the value in the camera's interface.
    pub open spec fn spec_code(self) -> u8 {
        match self {
            BaseRotateValue::_0 => 0,
            BaseRotateValue::_90 => 1,
            BaseRotateValue::_180 => 2,
            BaseRotateValue::_270 => 3,
        }
    }

    /// The number of the value in the camera's interface.
    #[verifier::when_used_as_spec(spec_code)]
    pub fn code(self) -> (c: u8)
        ensures
            c == self.spec_code(),
    {
        match self {
            BaseRotateValue::_0 => 0,
            BaseRotateValue::_90 => 1,
            BaseRotateValue::_180 => 2,
            BaseRotateValue::_270 => 3,
        }
    }

    /// The value with the given number, if there is one.
    pub fn from_code(c: u8) -> (r: Option<BaseRotateValue>)
        ensures
            r matches Some(v) ==> v.spec_code() == c,
            r is None ==> forall|v: BaseRotateValue| v.spec_code() != c,
    {
        if c == 0 {
            Some(BaseRotateValue::_0)
        } else if c == 1 {
            Some(BaseRotateValue::_90)
        } else if c == 2 {
            Some(BaseRotateValue::_180)
        } else if c == 3 {
            Some(BaseRotateValue::_270)
        } else {
            None
        }
    }
}

/// The basic image settings of the camera. A field that is `None` is left
/// as the camera has it.
#[derive(Debug, Clone, Copy, PartialEq, Eq, Structural)]
pub struct BaseParameterSetting {
    /// Hue. Range: [0..=255]
    pub hue: Option<u8>,
    /// Brightness. Range: [0..=255]
    pub brightness: Option<u8>,
    /// Sharpness. Range: [0..=255]
    pub sharpness: Option<u8>,
    /// Contrast. Range: [0..=255]
    pub contrast: Option<u8>,
    /// Saturation. Range: [0..=255]
    pub saturation: Option<u8>,
    /// Gamma. Range: [0..=255]
    pub gamma: Option<u8>,
    /// Backlight Compensation. Range: [0..=255]
    pub blc_level: Option<u8>,
    /// Exposure Time.
    pub max_exposure: Option<BaseMaxExposureValue>,
    /// Puts all basic image settings back to their defaults when it is 1.
    pub set_default: Option<u8>,
    /// Dehazing.
    pub anti_fog: Option<BaseAntiFogValue>,
    /// Frame Turbo.
    pub frame_turbo_pro: Option<BaseFrameTurboValue>,
    /// Scene mode.
    pub scene_mode: Option<BaseSceneModeValue>,
    /// Exposure Strategy Mode.
    pub auto_exposure_strategy_mode: Option<BaseAutoExposureStrategyModeValue>,
    /// Exposure Mode.
    pub auto_exposure_ex: Option<BaseExposureModeValue>,
    /// Manual Exposure Time. This is the 'x' value in T = 1/x.
    pub exposure_time: Option<BaseExposureTimeValue>,
    /// White Balance Mode.
    pub auto_awb: Option<BaseAutoWhiteBalanceModeValue>,
    /// Manual White Balance Red. Range: [0..=255]
    pub awb_red: Option<u8>,
    /// Manual White Balance Green. Range: [0..=255]
    pub awb_green: Option<u8>,
    /// Manual White Balance Blue. Range: [0..=255]
    pub awb_blue: Option<u8>,
    /// White Balance Scene.
    pub awb_auto_mode: Option<BaseAutoWhiteBalanceSceneValue>,
    /// Manual White Balance Style Red. Range: [0..=255]
    pub awb_style_red: Option<u8>,
    /// Manual White Balance Style Green. Range: [0..=255]
    pub awb_style_green: Option<u8>,
    /// Manual White Balance Style Blue. Range: [0..=255]
    pub awb_style_blue: Option<u8>,
    /// Automatic Gain Mode.
    pub auto_gain_mode: Option<BaseAutoGainModeValue>,
    /// Automatic Maximum D Gain. Range: [0..=255]
    pub auto_d_gain_max: Option<u8>,
    /// Automatic Maximum A Gain. Range: [0..=255]
    pub auto_a_gain_max: Option<u8>,
    /// Max Sys Gain. Range: [0..=255]
    pub max_sys_gain: Option<u8>,
    /// Enable Manual A Gain.
    pub manual_a_gain_enable: Option<BaseManualAGainEnableValue>,
    /// Manual A Gain. Range: [0..=255]
    pub manual_a_gain: Option<u8>,
    /// Enable Manual D Gain.
    pub manual_d_gain_enable: Option<BaseManualDGainEnableValue>,
    /// Manual D Gain. Range: [0..=255]
    pub manual_d_gain: Option<u8>,
    /// Image rotation.
    pub rotate: Option<BaseRotateValue>,
}

/// The camera's answer to a command.
#[derive(Debug, PartialEq, Eq)]
pub struct Response {
    pub code: i32,
    pub device_mac: String,
    pub device_id: String,
    pub log: String,
    pub device_ip: String,
    pub sign_tby: String,
}

} // verus!
