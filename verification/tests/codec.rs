use radcam_manager::error::CoreError;
use radcam_manager::parameters::{
    MavParamType, ParamEncodingType, ParamType, ParamValueData, Parameter,
};
use radcam_manager::wire::{single_from_i32, single_from_u32, single_nan, single_to_int};

fn frame(word: u32, kind: MavParamType) -> ParamValueData {
    ParamValueData {
        param_value: word,
        param_count: 1,
        param_index: 0,
        param_id: Parameter::param_name_to_id("TEST"),
        param_type: kind,
    }
}

#[test]
fn single_from_u32_matches_the_hardware_cast() {
    let samples: [u32; 24] = [
        0, 1, 2, 3, 7, 92, 180, 255, 256, 1500, 65535, 65536, 16777215, 16777216, 16777217,
        16777218, 16777219, 33554431, 33554433, 2147483647, 2147483648, 4294967167, 4294967168,
        4294967295,
    ];
    for v in samples {
        assert_eq!(single_from_u32(v), (v as f32).to_bits(), "value {}", v);
    }
    let mut v: u32 = 1;
    for _ in 0..4000 {
        v = v.wrapping_mul(1664525).wrapping_add(1013904223);
        assert_eq!(single_from_u32(v), (v as f32).to_bits(), "value {}", v);
    }
}

#[test]
fn single_from_i32_matches_the_hardware_cast() {
    let samples: [i32; 14] = [
        0, 1, -1, -90, 90, 127, -128, 32767, -32768, 16777217, -16777217, i32::MAX, i32::MIN,
        -2147483647,
    ];
    for v in samples {
        assert_eq!(single_from_i32(v), (v as f32).to_bits(), "value {}", v);
    }
    let mut v: u32 = 7;
    for _ in 0..4000 {
        v = v.wrapping_mul(1664525).wrapping_add(1013904223);
        let s = v as i32;
        assert_eq!(single_from_i32(s), (s as f32).to_bits(), "value {}", s);
    }
}

#[test]
fn single_to_int_matches_the_hardware_cast() {
    let samples: [f32; 22] = [
        0.0, -0.0, 0.4, 0.5, 0.99, 1.0, 1.5, -1.5, 2.0, 92.0, 255.0, 255.9, 256.0, -0.9, -128.0,
        -129.0, 65535.5, 4294967040.0, 4294967296.0, -2147483648.0, 1.0e30, -1.0e30,
    ];
    for f in samples {
        let b = f.to_bits();
        assert_eq!(single_to_int(b, 0, 255), (f as u8) as i64, "u8 of {}", f);
        assert_eq!(single_to_int(b, -128, 127), (f as i8) as i64, "i8 of {}", f);
        assert_eq!(single_to_int(b, 0, 65535), (f as u16) as i64, "u16 of {}", f);
        assert_eq!(single_to_int(b, -32768, 32767), (f as i16) as i64, "i16 of {}", f);
        assert_eq!(single_to_int(b, 0, 4294967295), (f as u32) as i64, "u32 of {}", f);
        assert_eq!(
            single_to_int(b, -2147483648, 2147483647),
            (f as i32) as i64,
            "i32 of {}",
            f
        );
    }
    for f in [f32::NAN, f32::INFINITY, f32::NEG_INFINITY, f32::MIN_POSITIVE, 1.0e-40] {
        let b = f.to_bits();
        assert_eq!(single_to_int(b, 0, 255), (f as u8) as i64);
        assert_eq!(single_to_int(b, -2147483648, 2147483647), (f as i32) as i64);
    }
    let mut v: u32 = 99;
    for _ in 0..4000 {
        v = v.wrapping_mul(1664525).wrapping_add(1013904223);
        let f = f32::from_bits(v);
        assert_eq!(single_to_int(v, 0, 4294967295), (f as u32) as i64);
        assert_eq!(single_to_int(v, -32768, 32767), (f as i16) as i64);
    }
}

#[test]
fn single_nan_tells_numbers_from_the_rest() {
    assert!(single_nan(f32::NAN.to_bits()));
    assert!(!single_nan(f32::INFINITY.to_bits()));
    assert!(!single_nan(1.0f32.to_bits()));
    assert!(!single_nan(0));
}

#[test]
fn encode_ccast_is_the_numeric_cast() {
    let e = ParamEncodingType::CCast;
    assert_eq!(ParamType::UINT8(92).encode(e), Ok(92.0f32.to_bits()));
    assert_eq!(ParamType::INT8(-5).encode(e), Ok((-5.0f32).to_bits()));
    assert_eq!(ParamType::UINT16(1500).encode(e), Ok(1500.0f32.to_bits()));
    assert_eq!(ParamType::INT16(-300).encode(e), Ok((-300.0f32).to_bits()));
    assert_eq!(ParamType::UINT32(16777217).encode(e), Ok(16777216.0f32.to_bits()));
    assert_eq!(ParamType::INT32(-90).encode(e), Ok((-90.0f32).to_bits()));
    assert_eq!(ParamType::REAL32(1.25f32.to_bits()).encode(e), Ok(1.25f32.to_bits()));
}

#[test]
fn encode_bytewise_is_the_bit_pattern() {
    let e = ParamEncodingType::ByteWise;
    assert_eq!(ParamType::UINT8(92).encode(e), Ok(92));
    assert_eq!(ParamType::INT8(-1).encode(e), Ok(0xFF));
    assert_eq!(ParamType::UINT16(1500).encode(e), Ok(1500));
    assert_eq!(ParamType::INT16(-2).encode(e), Ok(0xFFFE));
    assert_eq!(ParamType::UINT32(0xDEADBEEF).encode(e), Ok(0xDEADBEEF));
    assert_eq!(ParamType::INT32(-1).encode(e), Ok(0xFFFF_FFFF));
    assert_eq!(ParamType::REAL32(0x3F80_0000).encode(e), Ok(0x3F80_0000));
}

#[test]
fn unsupported_encoding_fails_every_way() {
    let e = ParamEncodingType::Unsupported;
    assert_eq!(ParamType::UINT8(1).encode(e), Err(CoreError::UnsupportedEncoding));
    assert_eq!(ParamType::UINT64(1).encode(e), Err(CoreError::UnsupportedEncoding));
    assert_eq!(
        ParamType::decode(&frame(0, MavParamType::MAV_PARAM_TYPE_UINT8), e),
        Err(CoreError::UnsupportedEncoding)
    );
    let mut slot = ParamType::INT16(7);
    assert_eq!(slot.set_value(ParamType::UINT8(1), e), Err(CoreError::UnsupportedEncoding));
    assert_eq!(slot, ParamType::INT16(7));
    assert_eq!(
        Parameter::try_new(&frame(0, MavParamType::MAV_PARAM_TYPE_REAL32), e),
        Err(CoreError::UnsupportedEncoding)
    );
}

#[test]
fn decode_follows_the_type_tag() {
    let c = ParamEncodingType::CCast;
    let b = ParamEncodingType::ByteWise;
    assert_eq!(
        ParamType::decode(&frame(180.0f32.to_bits(), MavParamType::MAV_PARAM_TYPE_UINT8), c),
        Ok(ParamType::UINT8(180))
    );
    assert_eq!(
        ParamType::decode(&frame(300.0f32.to_bits(), MavParamType::MAV_PARAM_TYPE_UINT8), c),
        Ok(ParamType::UINT8(255))
    );
    assert_eq!(
        ParamType::decode(&frame((-90.7f32).to_bits(), MavParamType::MAV_PARAM_TYPE_INT32), c),
        Ok(ParamType::INT32(-90))
    );
    assert_eq!(
        ParamType::decode(&frame(0x1FF, MavParamType::MAV_PARAM_TYPE_UINT8), b),
        Ok(ParamType::UINT8(0xFF))
    );
    assert_eq!(
        ParamType::decode(&frame(0xFF, MavParamType::MAV_PARAM_TYPE_INT8), b),
        Ok(ParamType::INT8(-1))
    );
    assert_eq!(
        ParamType::decode(&frame(0xFFFF_FFFE, MavParamType::MAV_PARAM_TYPE_INT32), b),
        Ok(ParamType::INT32(-2))
    );
    assert_eq!(
        ParamType::decode(&frame(0x8000, MavParamType::MAV_PARAM_TYPE_INT16), b),
        Ok(ParamType::INT16(-32768))
    );
    assert_eq!(
        ParamType::decode(&frame(0x4040_0000, MavParamType::MAV_PARAM_TYPE_REAL32), b),
        Ok(ParamType::REAL32(0x4040_0000))
    );
}

#[test]
fn round_trip_holds_on_sample_values() {
    let values = [
        ParamType::UINT8(0),
        ParamType::UINT8(255),
        ParamType::INT8(-128),
        ParamType::INT8(127),
        ParamType::UINT16(65535),
        ParamType::INT16(-32768),
        ParamType::UINT32(16777216),
        ParamType::INT32(-16777216),
        ParamType::INT32(90),
        ParamType::REAL32(0x7FC0_0001),
    ];
    for encoding in [ParamEncodingType::CCast, ParamEncodingType::ByteWise] {
        for v in values {
            let word = v.encode(encoding).unwrap();
            let back = ParamType::decode(&frame(word, v.kind()), encoding).unwrap();
            assert_eq!(back, v);
        }
    }
    let big = ParamType::UINT32(4000000001);
    let word = big.encode(ParamEncodingType::ByteWise).unwrap();
    assert_eq!(
        ParamType::decode(&frame(word, big.kind()), ParamEncodingType::ByteWise),
        Ok(big)
    );
    let word = big.encode(ParamEncodingType::CCast).unwrap();
    assert_eq!(
        ParamType::decode(&frame(word, big.kind()), ParamEncodingType::CCast),
        Ok(ParamType::UINT32(4000000000))
    );
}

#[test]
fn set_value_restamps_the_slot_in_its_own_type() {
    let mut slot = ParamType::UINT8(3);
    slot.set_value(ParamType::INT16(92), ParamEncodingType::CCast).unwrap();
    assert_eq!(slot, ParamType::UINT8(92));
    let mut slot = ParamType::REAL32(0);
    slot.set_value(ParamType::UINT8(1), ParamEncodingType::CCast).unwrap();
    assert_eq!(slot, ParamType::REAL32(1.0f32.to_bits()));
    let mut slot = ParamType::INT16(0);
    slot.set_value(ParamType::UINT16(40000), ParamEncodingType::CCast).unwrap();
    assert_eq!(slot, ParamType::INT16(32767));
    let mut slot = ParamType::INT8(0);
    slot.set_value(ParamType::UINT16(0x1FF), ParamEncodingType::ByteWise).unwrap();
    assert_eq!(slot, ParamType::INT8(-1));
}

#[test]
fn name_codec_round_trip() {
    for name in ["SERVO10_FUNCTION", "SCR_ENABLE", "A", "", "MNT1_PITCH_MIN", "caf\u{e9}"] {
        let id = Parameter::param_name_to_id(name);
        assert_eq!(Parameter::param_id_to_name(id), name);
    }
}

#[test]
fn name_codec_pads_and_truncates() {
    let id = Parameter::param_name_to_id("CAM1_TYPE");
    assert_eq!(&id[..9], b"CAM1_TYPE");
    assert!(id[9..].iter().all(|b| *b == 0));
    let long = Parameter::param_name_to_id("ABCDEFGHIJKLMNOPQRSTUVWXYZ");
    assert_eq!(&long, b"ABCDEFGHIJKLMNOP");
    assert_eq!(Parameter::param_id_to_name(long), "ABCDEFGHIJKLMNOP");
    let mut cut = [0u8; 16];
    cut[0] = b'A';
    cut[2] = b'B';
    assert_eq!(Parameter::param_id_to_name(cut), "A");
}

#[test]
fn parameter_reports_its_type_id_and_word() {
    let p = Parameter { name: "SERVO11_MIN".to_string(), value: ParamType::UINT16(935) };
    assert_eq!(p.param_type(), MavParamType::MAV_PARAM_TYPE_UINT16);
    assert_eq!(p.param_type().code(), 3);
    assert_eq!(p.param_id(), Parameter::param_name_to_id("SERVO11_MIN"));
    assert_eq!(p.param_value(ParamEncodingType::CCast), Ok(935.0f32.to_bits()));
    assert_eq!(p.param_value(ParamEncodingType::ByteWise), Ok(935));
    let q = Parameter::try_new(
        &ParamValueData {
            param_value: 935.0f32.to_bits(),
            param_count: 10,
            param_index: 3,
            param_id: Parameter::param_name_to_id("SERVO11_MIN"),
            param_type: MavParamType::MAV_PARAM_TYPE_UINT16,
        },
        ParamEncodingType::CCast,
    )
    .unwrap();
    assert_eq!(q, p);
    assert_eq!(MavParamType::from_code(9), Some(MavParamType::MAV_PARAM_TYPE_REAL32));
    assert_eq!(MavParamType::from_code(0), None);
    assert_eq!(MavParamType::from_code(11), None);
}

#[test]
fn a_value_that_went_through_the_wire_stays_as_it_is() {
    let kinds = [
        MavParamType::MAV_PARAM_TYPE_UINT8,
        MavParamType::MAV_PARAM_TYPE_INT8,
        MavParamType::MAV_PARAM_TYPE_UINT16,
        MavParamType::MAV_PARAM_TYPE_INT16,
        MavParamType::MAV_PARAM_TYPE_UINT32,
        MavParamType::MAV_PARAM_TYPE_INT32,
        MavParamType::MAV_PARAM_TYPE_REAL32,
    ];
    let mut words: Vec<u32> = vec![
        0,
        1,
        0x8000_0000,
        0x3F80_0000,
        0x4F80_0000,
        0x4F7F_FFFF,
        0x4F00_0000,
        0xCF00_0000,
        0xCF00_0001,
        0x7F80_0000,
        0xFF80_0000,
        0x7FC0_0000,
        0x4B80_0000,
        0x4B7F_FFFF,
        0xFFFF_FFFF,
    ];
    let mut w: u32 = 5;
    for _ in 0..2000 {
        w = w.wrapping_mul(1664525).wrapping_add(1013904223);
        words.push(w);
    }
    for encoding in [ParamEncodingType::CCast, ParamEncodingType::ByteWise] {
        for kind in kinds {
            for word in &words {
                let first = ParamType::decode(&frame(*word, kind), encoding).unwrap();
                let again = first.encode(encoding).unwrap();
                let second = ParamType::decode(&frame(again, kind), encoding).unwrap();
                assert_eq!(first, second, "word {:#x} as {:?} under {:?}", word, kind, encoding);
                let mut slot = first;
                slot.set_value(first, encoding).unwrap();
                assert_eq!(slot, first);
            }
        }
    }
}
