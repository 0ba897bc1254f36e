//! The values of the camera-discovery interface, and what the manager makes
//! of them: which of the discovered devices are cameras of the supported
//! kind, and which capture configuration a video source is streamed with.

use vstd::prelude::*;
use vstd::string::*;
use crate::text::same_text;

verus! {

/// What the discovery service says of itself.
#[derive(Debug, PartialEq, Eq)]
pub struct Info {
    pub name: String,
    pub version: String,
    pub sha: String,
    pub build_date: String,
    pub authors: String,
}

/// How a video stream is encoded.
#[derive(Debug, PartialEq, Eq)]
pub enum VideoEncodeType {
    H264,
    H265,
    Mjpg,
    Rgb,
    Unknown(String),
    Yuyv,
}

/// The time between two frames, as a fraction of a second.
#[derive(Debug, Clone, Copy, PartialEq, Eq, Structural)]
pub struct FrameInterval {
    pub numerator: u32,
    pub denominator: u32,
}

/// A picture size and the frame intervals offered at that size.
#[derive(Debug, PartialEq, Eq)]
pub struct Size {
    pub width: u32,
    pub height: u32,
    pub intervals: Vec<FrameInterval>,
}

/// An encoding and the sizes offered in it.
#[derive(Debug, PartialEq, Eq)]
pub struct Format {
    pub encode: VideoEncodeType,
    pub sizes: Vec<Size>,
}

/// A video source as the discovery service lists it.
#[derive(Debug, PartialEq, Eq)]
pub struct ApiVideoSource {
    pub name: String,
    pub source: String,
    pub formats: Vec<Format>,
}

/// The capture configuration of a video stream.
#[derive(Debug, PartialEq, Eq)]
pub struct VideoCaptureConfiguration {
    pub encode: VideoEncodeType,
    pub height: u32,
    pub width: u32,
    pub frame_interval: FrameInterval,
}

/// The capture configuration of a redirected stream: there is nothing to
/// configure.
#[derive(Debug, Clone, Copy, PartialEq, Eq, Structural)]
pub struct RedirectCaptureConfiguration {}

/// The capture configuration of a stream.
#[derive(Debug, PartialEq, Eq)]
pub enum CaptureConfiguration {
    Video(VideoCaptureConfiguration),
    Redirect(RedirectCaptureConfiguration),
}

/// Further switches of a stream.
#[derive(Debug, Clone, Copy, PartialEq, Eq, Structural)]
pub struct ExtendedConfiguration {
    pub thermal: bool,
    pub disable_mavlink: bool,
}

/// How a local video device is attached.
#[derive(Debug, PartialEq, Eq)]
pub enum VideoSourceLocalType {
    Unknown(String),
    Usb(String),
    LegacyRpiCam(String),
}

/// A local video device.
#[derive(Debug, PartialEq, Eq)]
pub struct VideoSourceLocal {
    pub name: String,
    pub device_path: String,
    pub typ: VideoSourceLocalType,
}

/// What a GStreamer source is made of.
#[derive(Debug, PartialEq, Eq)]
pub enum VideoSourceGstType {
    Local(VideoSourceLocal),
    Fake(String),
    QR(String),
}

/// A GStreamer source.
#[derive(Debug, PartialEq, Eq)]
pub struct VideoSourceGst {
    pub name: String,
    pub source: VideoSourceGstType,
}

/// Where a redirected source points.
#[derive(Debug, PartialEq, Eq)]
pub enum VideoSourceRedirectType {
    Redirect(String),
}

/// A redirected source.
#[derive(Debug, PartialEq, Eq)]
pub struct VideoSourceRedirect {
    pub name: String,
    pub source: VideoSourceRedirectType,
}

/// What a network camera says of itself.
#[derive(Debug, PartialEq, Eq)]
pub struct OnvifDeviceInformation {
    pub manufacturer: String,
    pub model: String,
    pub firmware_version: String,
    pub serial_number: String,
    pub hardware_id: String,
}

/// The endpoint of a network camera's stream.
#[derive(Debug, PartialEq, Eq)]
pub enum VideoSourceOnvifType {
    Onvif(String),
}

/// A network camera as a video source.
#[derive(Debug, PartialEq, Eq)]
pub struct VideoSourceOnvif {
    pub name: String,
    pub source: VideoSourceOnvifType,
    pub device_information: OnvifDeviceInformation,
}

/// A video source of any kind.
#[derive(Debug, PartialEq, Eq)]
pub enum VideoSourceType {
    Gst(VideoSourceGst),
    Local(VideoSourceLocal),
    Onvif(VideoSourceOnvif),
    Redirect(VideoSourceRedirect),
}

/// The request to remove a stream.
#[derive(Debug, PartialEq, Eq)]
pub struct RemoveStream {
    pub name: String,
}

/// The login of a camera.
#[derive(Debug, PartialEq, Eq)]
pub struct Credentials {
    pub username: String,
    pub password: String,
}

/// A device that the discovery service found on the network. The address
/// is the four bytes of its IPv4 address.
#[derive(Debug, PartialEq, Eq)]
pub struct OnvifDevice {
    pub uuid: u128,
    pub ip: [u8; 4],
    pub types: Vec<String>,
    pub hardware: Option<String>,
    pub name: Option<String>,
}

/// A camera of the supported kind.
#[derive(Debug, PartialEq, Eq)]
pub struct Camera {
    pub uuid: u128,
    pub hostname: [u8; 4],
    pub credentials: Option<Credentials>,
}

/// The mathematical value of a [`Camera`].
pub struct CameraView {
    pub uuid: u128,
    pub hostname: Seq<u8>,
    pub credentials: Option<(Seq<char>, Seq<char>)>,
}

impl View for Camera {
    type V = CameraView;

    open spec fn view(&self) -> CameraView {
        CameraView {
            uuid: self.uuid,
            hostname: self.hostname@,
            credentials: match self.credentials {
                Some(c) => Some((c.username@, c.password@)),
                None => None,
            },
        }
    }
}

/// The text of an optional string.
pub open spec fn optional_text(s: Option<String>) -> Option<Seq<char>> {
    match s {
        Some(t) => Some(t@),
        None => None,
    }
}

/// Whether a discovered device is a camera of the supported kind: it is
/// named `hd` and its hardware is `HW0100302`.
pub open spec fn is_radcam(device: OnvifDevice) -> bool {
    optional_text(device.name) == Some("hd"@) && optional_text(device.hardware) == Some(
        "HW0100302"@,
    )
}

/// The camera that a supported device is: its identifier and address, with
/// the login that such cameras leave the factory with.
pub open spec fn camera_of(device: OnvifDevice) -> CameraView {
    CameraView {
        uuid: device.uuid,
        hostname: device.ip@,
        credentials: Some(("admin"@, "blue"@)),
    }
}

/// The cameras among the devices, in the order of the devices.
pub open spec fn radcams_of(devices: Seq<OnvifDevice>) -> Seq<CameraView>
    decreases devices.len(),
{
    if devices.len() == 0 {
        Seq::empty()
    } else if is_radcam(devices.last()) {
        radcams_of(devices.drop_last()).push(camera_of(devices.last()))
    } else {
        radcams_of(devices.drop_last())
    }
}

/// The values of a list of cameras.
pub open spec fn cameras_view(cameras: Seq<Camera>) -> Seq<CameraView> {
    Seq::new(cameras.len(), |i: int| cameras[i]@)
}

fn text_is(s: &Option<String>, expected: &str) -> (r: bool)
    ensures
        r == (optional_text(*s) == Some(expected@)),
{
    match s {
        Some(t) => same_text(t.as_str(), expected),
        None => false,
    }
}

/// The cameras of the supported kind among the discovered devices, in the
/// order of the devices.
pub fn radcams_from_onvif_devices(devices: &Vec<OnvifDevice>) -> (cameras: Vec<Camera>)
    ensures
        cameras_view(cameras@) == radcams_of(devices@),
{
    let mut cameras: Vec<Camera> = Vec::new();
    let mut i: usize = 0;
    assert(devices@.take(0) =~= Seq::empty());
    while i < devices.len()
        invariant
            i <= devices.len(),
            cameras_view(cameras@) =~= radcams_of(devices@.take(i as int)),
        decreases devices.len() - i,
    {
        let device = &devices[i];
        let ghost before = cameras_view(cameras@);
        proof {
            assert(devices@.take(i + 1).drop_last() =~= devices@.take(i as int));
            assert(devices@.take(i + 1).last() == devices@[i as int]);
        }
        if text_is(&device.name, "hd") && text_is(&device.hardware, "HW0100302") {
            cameras.push(
                Camera {
                    uuid: device.uuid,
                    hostname: device.ip,
                    credentials: Some(
                        Credentials {
                            username: String::from_str("admin"),
                            password: String::from_str("blue"),
                        },
                    ),
                },
            );
            assert(cameras_view(cameras@) =~= before.push(camera_of(*device)));
        }
        i += 1;
    }
    assert(devices@.take(devices.len() as int) =~= devices@);
    cameras
}

/// The name under which the supported cameras appear as video sources.
pub const RADCAM_SOURCE_NAME: &'static str = "HDIPC - IPCamera (IPCamera)";

/// Whether a video source is a camera of the supported kind: it carries the
/// cameras' source name.
pub fn is_radcam_source(source: &ApiVideoSource) -> (r: bool)
    ensures
        r == (source.name@ == RADCAM_SOURCE_NAME@),
{
    same_text(source.name.as_str(), RADCAM_SOURCE_NAME)
}

/// The stream endpoint of a video source, where the source is a network
/// camera of the supported kind: one with the cameras' source name, model
/// `HDIPC` and manufacturer `IPCamera`.
pub fn radcam_stream_endpoint(source: &VideoSourceType) -> (r: Option<&str>)
    ensures
        match *source {
            VideoSourceType::Onvif(onvif) => if onvif.name@ == RADCAM_SOURCE_NAME@
                && onvif.device_information.model@ == "HDIPC"@
                && onvif.device_information.manufacturer@ == "IPCamera"@ {
                onvif.source matches VideoSourceOnvifType::Onvif(endpoint) && r matches Some(e)
                    && e@ == endpoint@
            } else {
                r is None
            },
            _ => r is None,
        },
{
    match source {
        VideoSourceType::Onvif(onvif) => {
            if same_text(onvif.name.as_str(), RADCAM_SOURCE_NAME) && same_text(
                onvif.device_information.model.as_str(),
                "HDIPC",
            ) && same_text(onvif.device_information.manufacturer.as_str(), "IPCamera") {
                match &onvif.source {
                    VideoSourceOnvifType::Onvif(endpoint) => Some(endpoint.as_str()),
                }
            } else {
                None
            }
        },
        _ => None,
    }
}

/// Whether a stream of this encoding is offered to the vehicle.
pub open spec fn streamable(encode: VideoEncodeType) -> bool {
    encode is H264 || encode is H265
}

/// The position of the first format of a streamable encoding, if any.
pub open spec fn first_streamable(formats: Seq<Format>) -> Option<int>
    decreases formats.len(),
{
    if formats.len() == 0 {
        None
    } else {
        match first_streamable(formats.drop_last()) {
            Some(i) => Some(i),
            None => if streamable(formats.last().encode) {
                Some(formats.len() - 1)
            } else {
                None
            },
        }
    }
}

/// What stands in the way of streaming a video source.
#[derive(Debug, Clone, Copy, PartialEq, Eq, Structural)]
pub enum StreamRefusal {
    /// No format of a streamable encoding is offered.
    EmptyFormats,
    /// The chosen format offers no size.
    EmptySizes,
    /// The chosen size offers no frame interval.
    EmptyIntervals,
}

/// The capture configuration that a video source is streamed with: the
/// first format in H.264 or H.265, its first size, and that size's first
/// frame interval.
pub fn pick_configuration(source: &ApiVideoSource) -> (r: Result<
    VideoCaptureConfiguration,
    StreamRefusal,
>)
    ensures
        match first_streamable(source.formats@) {
            None => r == Err::<VideoCaptureConfiguration, StreamRefusal>(
                StreamRefusal::EmptyFormats,
            ),
            Some(i) => {
                let format = source.formats@[i];
                if format.sizes@.len() == 0 {
                    r == Err::<VideoCaptureConfiguration, StreamRefusal>(StreamRefusal::EmptySizes)
                } else if format.sizes@[0].intervals@.len() == 0 {
                    r == Err::<VideoCaptureConfiguration, StreamRefusal>(
                        StreamRefusal::EmptyIntervals,
                    )
                } else {
                    r matches Ok(c) && {
                        &&& c.encode == format.encode
                        &&& c.width == format.sizes@[0].width
                        &&& c.height == format.sizes@[0].height
                        &&& c.frame_interval == format.sizes@[0].intervals@[0]
                    }
                }
            },
        },
{
    let mut i: usize = 0;
    assert(source.formats@.take(0) =~= Seq::empty());
    while i < source.formats.len()
        invariant
            i <= source.formats.len(),
            first_streamable(source.formats@.take(i as int)) is None,
        decreases source.formats.len() - i,
    {
        let format = &source.formats[i];
        proof {
            assert(source.formats@.take(i + 1).drop_last() =~= source.formats@.take(i as int));
            assert(source.formats@.take(i + 1).last() == source.formats@[i as int]);
        }
        let h264 = match format.encode {
            VideoEncodeType::H264 => true,
            _ => false,
        };
        let h265 = match format.encode {
            VideoEncodeType::H265 => true,
            _ => false,
        };
        if h264 || h265 {
            proof {
                lemma_first_streamable(source.formats@, i as int);
            }
            if format.sizes.len() == 0 {
                return Err(StreamRefusal::EmptySizes);
            }
            let size = &format.sizes[0];
            if size.intervals.len() == 0 {
                return Err(StreamRefusal::EmptyIntervals);
            }
            return Ok(
                VideoCaptureConfiguration {
                    encode: if h264 {
                        VideoEncodeType::H264
                    } else {
                        VideoEncodeType::H265
                    },
                    height: size.height,
                    width: size.width,
                    frame_interval: size.intervals[0],
                },
            );
        }
        i += 1;
    }
    assert(source.formats@.take(source.formats.len() as int) =~= source.formats@);
    Err(StreamRefusal::EmptyFormats)
}

/// Where no format before position `i` is streamable and the one at `i`
/// is, `i` is the first streamable position of the whole list.
pub proof fn lemma_first_streamable(formats: Seq<Format>, i: int)
    requires
        0 <= i < formats.len(),
        first_streamable(formats.take(i)) is None,
        streamable(formats[i].encode),
    ensures
        first_streamable(formats) == Some(i),
    decreases formats.len(),
{
    if formats.len() - 1 == i {
        assert(formats.drop_last() =~= formats.take(i));
    } else {
        let front = formats.drop_last();
        assert(front.take(i) =~= formats.take(i));
        lemma_first_streamable(front, i);
    }
}

} // verus!
