use radcam_manager::api::{
    CameraID, CameraType, ChannelFunction, MountType, ScriptFunction, ServoChannel,
    TiltChannelFunction,
};
use radcam_manager::camera::{
    BaseExposureTimeValue, BaseMaxExposureValue, BaseParameterSetting, BaseRotateValue,
    VideoChannelValue, VideoEncodeTypeValue, VideoEncodingProfileValue, VideoParameterSettings,
    VideoRcModeValue, VideoResolutionValue,
};
use radcam_manager::cli::{
    args, autopilot_scripts_file, default_api_version, init_with, is_reset, is_tracing,
    is_verbose, mavlink_component_id, mavlink_system_id, Args,
};
use radcam_manager::discovery::{
    pick_configuration, radcams_from_onvif_devices, ApiVideoSource, Camera, Credentials, Format,
    FrameInterval, OnvifDevice, Size, StreamRefusal, VideoEncodeType,
};
use radcam_manager::error::CoreError;
use radcam_manager::frames::{MavHeader, MavMessage};
use radcam_manager::text::{
    decimal_string, ends_with, ipv4_text, push_decimal, push_hex, push_signed_decimal, same_text,
    starts_with, uuid_text,
};
use radcam_manager::transport::{
    on_bus_error, recv, send_inner, BusError, LinkAction, ReconnectCoordinator, RecvOutcome,
};
use radcam_manager::web::{widgets, ServerMetadata};

#[test]
fn decimal_notation() {
    assert_eq!(decimal_string(0), "0");
    assert_eq!(decimal_string(7), "7");
    assert_eq!(decimal_string(10), "10");
    assert_eq!(decimal_string(1905), "1905");
    assert_eq!(decimal_string(u64::MAX), "18446744073709551615");
    let mut s = "x".to_string();
    push_decimal(&mut s, 42);
    push_signed_decimal(&mut s, -42);
    push_signed_decimal(&mut s, 0);
    assert_eq!(s, "x42-420");
}

#[test]
fn text_predicates() {
    assert!(starts_with("settings.json.1.bak", "settings.json."));
    assert!(starts_with("abc", ""));
    assert!(starts_with("abc", "abc"));
    assert!(!starts_with("abc", "abcd"));
    assert!(!starts_with("abc", "b"));
    assert!(ends_with("radcam.lua", ".lua"));
    assert!(ends_with("abc", ""));
    assert!(!ends_with("lua", ".lua"));
    assert!(!ends_with("radcam.lua.txt", ".lua"));
    assert!(ends_with("caf\u{e9}", "f\u{e9}"));
    assert!(same_text("STAT_RUNTIME", "STAT_RUNTIME"));
    assert!(!same_text("STAT_RUNTIME", "STAT_RUNTIM"));
    assert!(!same_text("a", "b"));
}

#[test]
fn identifier_and_address_text() {
    assert_eq!(
        uuid_text(0xbc071801_c50f_8301_ac36_bc071801c50f),
        "bc071801-c50f-8301-ac36-bc071801c50f"
    );
    assert_eq!(uuid_text(0), "00000000-0000-0000-0000-000000000000");
    assert_eq!(uuid_text(u128::MAX), "ffffffff-ffff-ffff-ffff-ffffffffffff");
    assert_eq!(uuid_text(0x0123456789abcdef_0123456789abcdef), "01234567-89ab-cdef-0123-456789abcdef");
    assert_eq!(ipv4_text(&[192, 168, 0, 200]), "192.168.0.200");
    assert_eq!(ipv4_text(&[0, 0, 0, 0]), "0.0.0.0");
    let mut s = String::new();
    push_hex(&mut s, 0xAB, 4);
    push_hex(&mut s, 0x12345, 2);
    push_hex(&mut s, 9, 0);
    assert_eq!(s, "00ab45");
}

#[test]
fn codes_of_the_enumerations() {
    assert_eq!(CameraID::CAM1.code(), 1);
    assert_eq!(CameraID::CAM2.code(), 2);
    assert_eq!(CameraID::from_code(2), Some(CameraID::CAM2));
    assert_eq!(CameraID::from_code(0), None);
    assert_eq!(CameraID::CAM2.mount(), TiltChannelFunction::MNT2);
    assert_eq!(TiltChannelFunction::MNT1.code(), 7);
    assert_eq!(TiltChannelFunction::MNT2.code(), 13);
    assert_eq!(MountType::Servo.code(), 1);
    assert_eq!(MountType::BrushlessPWM.code(), 7);
    assert_eq!(MountType::from_code(7), Some(MountType::BrushlessPWM));
    assert_eq!(MountType::from_code(2), None);
    assert_eq!(ServoChannel::SERVO1.code(), 1);
    assert_eq!(ServoChannel::SERVO32.code(), 32);
    for n in 1..=32u8 {
        assert_eq!(ServoChannel::from_code(n).unwrap().code(), n);
    }
    assert_eq!(ServoChannel::from_code(0), None);
    assert_eq!(ServoChannel::from_code(33), None);
    assert_eq!(ScriptFunction::SCRIPT1.code(), 94);
    assert_eq!(ScriptFunction::SCRIPT16.code(), 109);
    for n in 94..=109u8 {
        assert_eq!(ScriptFunction::from_code(n).unwrap().code(), n);
    }
    assert_eq!(ScriptFunction::from_code(93), None);
    assert_eq!(ScriptFunction::from_code(110), None);
    assert_eq!(ChannelFunction::Disabled.code(), 0);
    assert_eq!(ChannelFunction::CameraFocus.code(), 92);
    assert_eq!(ChannelFunction::CameraZoom.code(), 180);
    assert_eq!(ChannelFunction::Mount1Pitch.code(), 7);
    assert_eq!(ChannelFunction::Mount2Pitch.code(), 13);
    assert_eq!(CameraType::Disabled.code(), 0);
    assert_eq!(CameraType::Servo.code(), 1);
    assert_eq!(MountType::default(), MountType::BrushlessPWM);
    assert_eq!(TiltChannelFunction::default(), TiltChannelFunction::MNT1);
    assert_eq!(ScriptFunction::default(), ScriptFunction::SCRIPT1);
    assert_eq!(CameraID::default(), CameraID::CAM1);
}

#[test]
fn video_parameter_codes() {
    assert_eq!(VideoChannelValue::ThirdStream.code(), 2);
    assert_eq!(VideoChannelValue::from_code(0), Some(VideoChannelValue::MainStream));
    assert_eq!(VideoChannelValue::from_code(3), None);
    assert_eq!(VideoEncodingProfileValue::from_code(1), Some(VideoEncodingProfileValue::MainProfile));
    assert_eq!(VideoEncodingProfileValue::HighProfile.code(), 2);
    assert_eq!(VideoEncodeTypeValue::H264.code(), 1);
    assert_eq!(VideoEncodeTypeValue::from_code(5), Some(VideoEncodeTypeValue::H265));
    assert_eq!(VideoEncodeTypeValue::from_code(2), None);
    assert_eq!(VideoRcModeValue::from_code(0), Some(VideoRcModeValue::VariableBitRate));
    assert_eq!(VideoRcModeValue::ConstantBitRate.code(), 1);
    let changed = VideoParameterSettings {
        bitrate: Some(6144),
        channel: Some(VideoChannelValue::MainStream),
        encode_profile: Some(VideoEncodingProfileValue::MainProfile),
        encode_type: Some(VideoEncodeTypeValue::H264),
        frame_rate: Some(25),
        gop: Some(50),
        max_framerate: Some(25),
        pic_height: Some(1440),
        pic_width: Some(2560),
        rc_mode: Some(VideoRcModeValue::VariableBitRate),
        pixel_list: Some(vec![
            VideoResolutionValue { width: 2560, height: 1440 },
            VideoResolutionValue { width: 1920, height: 1080 },
        ]),
    };
    let back = changed.read_back();
    assert_eq!(back.channel, Some(VideoChannelValue::MainStream));
    assert_eq!(back.bitrate, None);
    assert_eq!(back.pixel_list, None);
}

#[test]
fn command_line_accessors() {
    let parsed = Args {
        verbose: true,
        web_server: "0.0.0.0:8080".to_string(),
        enable_tracing_level_log_file: false,
        log_path: Some("./logs".to_string()),
        default_api_version: 1,
        mcm_address: "127.0.0.1:6020".to_string(),
        autopilot_scripts_file: Some("./scripts/radcam.lua".to_string()),
        settings_file: "./settings.json".to_string(),
        reset: true,
        mavlink_connection_string: "tcpout:127.0.0.1:5777".to_string(),
        mavlink_system_id: 1,
        mavlink_component_id: 56,
    };
    let mut m = init_with(parsed);
    assert!(is_verbose(&m));
    assert!(!is_tracing(&m));
    assert!(is_reset(&m));
    assert_eq!(default_api_version(&m), 1);
    assert_eq!(mavlink_system_id(&m), 1);
    assert_eq!(mavlink_component_id(&m), 56);
    assert_eq!(args(&m).web_server, "0.0.0.0:8080");
    assert_eq!(autopilot_scripts_file(&m), Some("./scripts/radcam.lua"));
    m.clap_matches.autopilot_scripts_file = Some("./scripts/radcam.txt".to_string());
    assert_eq!(autopilot_scripts_file(&m), None);
    m.clap_matches.autopilot_scripts_file = None;
    assert_eq!(autopilot_scripts_file(&m), None);
}

fn device(uuid: u128, name: Option<&str>, hardware: Option<&str>) -> OnvifDevice {
    OnvifDevice {
        uuid,
        ip: [192, 168, 0, uuid as u8],
        types: Vec::new(),
        hardware: hardware.map(|s| s.to_string()),
        name: name.map(|s| s.to_string()),
    }
}

#[test]
fn only_supported_devices_are_cameras() {
    let devices = vec![
        device(1, Some("hd"), Some("HW0100302")),
        device(2, Some("hd"), Some("HW0100303")),
        device(3, None, Some("HW0100302")),
        device(4, Some("HD"), Some("HW0100302")),
        device(5, Some("hd"), None),
        device(200, Some("hd"), Some("HW0100302")),
    ];
    let cameras = radcams_from_onvif_devices(&devices);
    assert_eq!(
        cameras,
        vec![
            Camera {
                uuid: 1,
                hostname: [192, 168, 0, 1],
                credentials: Some(Credentials {
                    username: "admin".to_string(),
                    password: "blue".to_string()
                }),
            },
            Camera {
                uuid: 200,
                hostname: [192, 168, 0, 200],
                credentials: Some(Credentials {
                    username: "admin".to_string(),
                    password: "blue".to_string()
                }),
            },
        ]
    );
    assert!(radcams_from_onvif_devices(&Vec::new()).is_empty());
}

fn format(encode: VideoEncodeType, sizes: Vec<Size>) -> Format {
    Format { encode, sizes }
}

fn size(width: u32, height: u32, intervals: Vec<FrameInterval>) -> Size {
    Size { width, height, intervals }
}

#[test]
fn stream_configuration_is_the_first_streamable_offer() {
    let every = FrameInterval { numerator: 1, denominator: 30 };
    let source = ApiVideoSource {
        name: "HDIPC - IPCamera (IPCamera)".to_string(),
        source: "rtsp://192.168.0.200:554/stream_0".to_string(),
        formats: vec![
            format(VideoEncodeType::Mjpg, vec![size(1, 1, vec![every])]),
            format(VideoEncodeType::Unknown("x".to_string()), Vec::new()),
            format(
                VideoEncodeType::H265,
                vec![
                    size(1920, 1080, vec![every, FrameInterval { numerator: 1, denominator: 60 }]),
                    size(640, 480, vec![every]),
                ],
            ),
            format(VideoEncodeType::H264, vec![size(2, 2, vec![every])]),
        ],
    };
    let picked = pick_configuration(&source).unwrap();
    assert_eq!(picked.encode, VideoEncodeType::H265);
    assert_eq!((picked.width, picked.height), (1920, 1080));
    assert_eq!(picked.frame_interval, every);

    let none = ApiVideoSource {
        formats: vec![format(VideoEncodeType::Yuyv, Vec::new())],
        ..ApiVideoSource { name: String::new(), source: String::new(), formats: Vec::new() }
    };
    assert_eq!(pick_configuration(&none), Err(StreamRefusal::EmptyFormats));
    let no_size = ApiVideoSource {
        name: String::new(),
        source: String::new(),
        formats: vec![format(VideoEncodeType::H264, Vec::new()), format(VideoEncodeType::H265, vec![size(1, 1, vec![every])])],
    };
    assert_eq!(pick_configuration(&no_size), Err(StreamRefusal::EmptySizes));
    let no_interval = ApiVideoSource {
        name: String::new(),
        source: String::new(),
        formats: vec![format(VideoEncodeType::H264, vec![size(1, 1, Vec::new())])],
    };
    assert_eq!(pick_configuration(&no_interval), Err(StreamRefusal::EmptyIntervals));
}

#[test]
fn registration_document_and_widgets() {
    let meta = ServerMetadata::new("1.2.3".to_string());
    assert_eq!(meta.name, "RadCam Manager");
    assert_eq!(meta.version, "1.2.3");
    assert_eq!(meta.api, "/docs");
    assert_eq!(meta.route, None);
    assert_eq!(meta.new_page, Some(false));
    assert_eq!(meta.works_in_relative_paths, Some(true));
    assert_eq!(meta.extras.unwrap().cockpit, "/cockpit_extras.json");
    assert_eq!(ServerMetadata::default().version, "0.0.0");

    let cameras = vec![
        Camera { uuid: 0xbc071801_c50f_8301_ac36_bc071801c50f, hostname: [192, 168, 0, 200], credentials: None },
        Camera { uuid: 1, hostname: [10, 0, 0, 1], credentials: None },
    ];
    let w = widgets(&cameras, "0.9.0");
    assert_eq!(w.len(), 2);
    assert_eq!(w[0].name, "RadCam (192.168.0.200)");
    assert_eq!(w[0].iframe_url, "/?uuid=bc071801-c50f-8301-ac36-bc071801c50f");
    assert_eq!(w[0].iframe_icon, "/assets/logo.svg");
    assert_eq!(w[0].config_iframe_url, None);
    assert_eq!(w[0].version, "0.9.0");
    assert_eq!(w[1].name, "RadCam (10.0.0.1)");
    assert_eq!(w[1].iframe_url, "/?uuid=00000000-0000-0000-0000-000000000001");
}

#[test]
fn link_decisions() {
    let frame = (MavHeader { system_id: 1, component_id: 1, sequence: 0 }, MavMessage::Other(0));
    assert_eq!(recv(RecvOutcome::Frame(frame)), LinkAction::Deliver(frame));
    assert_eq!(recv(RecvOutcome::Parse), LinkAction::Continue);
    assert_eq!(recv(RecvOutcome::Io), LinkAction::Reconnect);
    assert_eq!(recv(RecvOutcome::TimedOut), LinkAction::Reconnect);
    assert_eq!(send_inner(true), None);
    assert_eq!(send_inner(false), Some(LinkAction::Reconnect));
    assert_eq!(on_bus_error(BusError::Lagged(12)), None);
    assert_eq!(on_bus_error(BusError::Closed), Some(CoreError::Transport));
}

#[test]
fn only_one_reconnects_at_a_time() {
    let mut c = ReconnectCoordinator::new();
    assert!(c.reconnect());
    assert!(!c.reconnect());
    assert!(!c.reconnect());
    c.finish();
    assert!(c.reconnect());
    assert!(!c.reconnect());
}

#[test]
fn basic_image_setting_codes() {
    assert_eq!(BaseMaxExposureValue::_30.code(), 30);
    assert_eq!(BaseMaxExposureValue::from_code(8000), Some(BaseMaxExposureValue::_8000));
    assert_eq!(BaseMaxExposureValue::from_code(10000), None);
    assert_eq!(BaseExposureTimeValue::from_code(34464), Some(BaseExposureTimeValue::_34464));
    assert_eq!(BaseExposureTimeValue::_60.code(), 60);
    assert_eq!(BaseRotateValue::_270.code(), 3);
    assert_eq!(BaseRotateValue::from_code(1), Some(BaseRotateValue::_90));
    assert_eq!(BaseRotateValue::from_code(4), None);
    let settings = BaseParameterSetting {
        hue: Some(128),
        brightness: Some(128),
        sharpness: Some(128),
        contrast: Some(128),
        saturation: Some(137),
        gamma: Some(128),
        blc_level: None,
        max_exposure: None,
        set_default: None,
        anti_fog: None,
        frame_turbo_pro: None,
        scene_mode: None,
        auto_exposure_strategy_mode: None,
        auto_exposure_ex: None,
        exposure_time: None,
        auto_awb: None,
        awb_red: None,
        awb_green: None,
        awb_blue: None,
        awb_auto_mode: None,
        awb_style_red: None,
        awb_style_green: None,
        awb_style_blue: None,
        auto_gain_mode: None,
        auto_d_gain_max: None,
        auto_a_gain_max: None,
        max_sys_gain: None,
        manual_a_gain_enable: None,
        manual_a_gain: None,
        manual_d_gain_enable: None,
        manual_d_gain: None,
        rotate: None,
    };
    assert_eq!(settings.saturation, Some(137));
    assert_eq!(settings.rotate, None);
}
