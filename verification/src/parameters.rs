//! Autopilot parameters: typed values, their two wire encodings, the name
//! field of the wire frames, and the actuator parameter record.

use vstd::prelude::*;
use vstd::arithmetic::power2::lemma2_to64;
use vstd::slice::slice_subrange;
use vstd::string::*;
use vstd::utf8::{decode_utf8, encode_utf8, valid_utf8, encode_utf8_decode_utf8, encode_utf8_valid_utf8};
use crate::api::{ActuatorsParametersConfig, CameraID, MountType, ScriptFunction, ServoChannel};
use crate::error::CoreError;
use crate::wire::{
    SINGLE_ONE, int_of_single, lemma_single_round_trip, lemma_single_stable, single_from_i32, single_from_u32, single_of_int,
    single_to_int,
};

verus! {

/// How a typed value maps to the 32-bit wire word of a parameter frame.
#[derive(Debug, Clone, Copy, PartialEq, Eq, Structural)]
pub enum ParamEncodingType {
    /// The word is the single-precision number nearest to the value.
    CCast,
    /// The word's bits are the value's bits.
    ByteWise,
    /// The autopilot advertises neither encoding: nothing can be coded.
    Unsupported,
}

impl Default for ParamEncodingType {
    fn default() -> (r: Self)
        ensures
            r == ParamEncodingType::Unsupported,
    {
        ParamEncodingType::Unsupported
    }
}

/// The type tag that a parameter frame carries.
#[derive(Debug, Clone, Copy, PartialEq, Eq, Structural)]
#[allow(non_camel_case_types)]
pub enum MavParamType {
    MAV_PARAM_TYPE_UINT8,
    MAV_PARAM_TYPE_INT8,
    MAV_PARAM_TYPE_UINT16,
    MAV_PARAM_TYPE_INT16,
    MAV_PARAM_TYPE_UINT32,
    MAV_PARAM_TYPE_INT32,
    MAV_PARAM_TYPE_UINT64,
    MAV_PARAM_TYPE_INT64,
    MAV_PARAM_TYPE_REAL32,
    MAV_PARAM_TYPE_REAL64,
}

impl MavParamType {
    /// Whether values of this type need more than one wire word.
    pub open spec fn spec_is_wide(self) -> bool {
        self == MavParamType::MAV_PARAM_TYPE_UINT64 || self == MavParamType::MAV_PARAM_TYPE_INT64
            || self == MavParamType::MAV_PARAM_TYPE_REAL64
    }

    /// Whether values of this type need more than one wire word.
    #[verifier::when_used_as_spec(spec_is_wide)]
    pub fn is_wide(self) -> (r: bool)
        ensures
            r == self.spec_is_wide(),
    {
        match self {
            MavParamType::MAV_PARAM_TYPE_UINT64 => true,
            MavParamType::MAV_PARAM_TYPE_INT64 => true,
            MavParamType::MAV_PARAM_TYPE_REAL64 => true,
            _ => false,
        }
    }

    /// The number of the tag on the wire, from 1 to 10.
    pub open spec fn spec_code(self) -> u8 {
        match self {
            MavParamType::MAV_PARAM_TYPE_UINT8 => 1,
            MavParamType::MAV_PARAM_TYPE_INT8 => 2,
            MavParamType::MAV_PARAM_TYPE_UINT16 => 3,
            MavParamType::MAV_PARAM_TYPE_INT16 => 4,
            MavParamType::MAV_PARAM_TYPE_UINT32 => 5,
            MavParamType::MAV_PARAM_TYPE_INT32 => 6,
            MavParamType::MAV_PARAM_TYPE_UINT64 => 7,
            MavParamType::MAV_PARAM_TYPE_INT64 => 8,
            MavParamType::MAV_PARAM_TYPE_REAL32 => 9,
            MavParamType::MAV_PARAM_TYPE_REAL64 => 10,
        }
    }

    /// The number of the tag on the wire, from 1 to 10.
    #[verifier::when_used_as_spec(spec_code)]
    pub fn code(self) -> (c: u8)
        ensures
            c == self.spec_code(),
    {
        match self {
            MavParamType::MAV_PARAM_TYPE_UINT8 => 1,
            MavParamType::MAV_PARAM_TYPE_INT8 => 2,
            MavParamType::MAV_PARAM_TYPE_UINT16 => 3,
            MavParamType::MAV_PARAM_TYPE_INT16 => 4,
            MavParamType::MAV_PARAM_TYPE_UINT32 => 5,
            MavParamType::MAV_PARAM_TYPE_INT32 => 6,
            MavParamType::MAV_PARAM_TYPE_UINT64 => 7,
            MavParamType::MAV_PARAM_TYPE_INT64 => 8,
            MavParamType::MAV_PARAM_TYPE_REAL32 => 9,
            MavParamType::MAV_PARAM_TYPE_REAL64 => 10,
        }
    }

    /// The tag with the given number, if there is one.
    pub fn from_code(c: u8) -> (r: Option<MavParamType>)
        ensures
            r matches Some(t) ==> t.spec_code() == c,
            r is None <==> !(1 <= c <= 10),
    {
        match c {
            1 => Some(MavParamType::MAV_PARAM_TYPE_UINT8),
            2 => Some(MavParamType::MAV_PARAM_TYPE_INT8),
            3 => Some(MavParamType::MAV_PARAM_TYPE_UINT16),
            4 => Some(MavParamType::MAV_PARAM_TYPE_INT16),
            5 => Some(MavParamType::MAV_PARAM_TYPE_UINT32),
            6 => Some(MavParamType::MAV_PARAM_TYPE_INT32),
            7 => Some(MavParamType::MAV_PARAM_TYPE_UINT64),
            8 => Some(MavParamType::MAV_PARAM_TYPE_INT64),
            9 => Some(MavParamType::MAV_PARAM_TYPE_REAL32),
            10 => Some(MavParamType::MAV_PARAM_TYPE_REAL64),
            _ => None,
        }
    }
}

/// A typed parameter value. The two real variants hold the bit pattern of
/// the number.
#[derive(Debug, Clone, Copy, PartialEq, Eq, Structural)]
pub enum ParamType {
    UINT8(u8),
    INT8(i8),
    UINT16(u16),
    INT16(i16),
    UINT32(u32),
    INT32(i32),
    UINT64(u64),
    INT64(i64),
    REAL32(u32),
    REAL64(u64),
}

/// The content of a parameter frame from the autopilot. The value is the
/// wire word as a bit pattern.
#[derive(Debug, Clone, Copy, PartialEq, Eq)]
pub struct ParamValueData {
    pub param_value: u32,
    pub param_count: u16,
    pub param_index: u16,
    pub param_id: [u8; 16],
    pub param_type: MavParamType,
}

/// The bits of an integer in two's complement of the given modulus.
pub open spec fn to_unsigned(v: int, modulus: int) -> int {
    if v < 0 {
        v + modulus
    } else {
        v
    }
}

/// The signed reading of the bits below the given modulus.
pub open spec fn to_signed(w: int, modulus: int) -> int {
    if 2 * (w % modulus) < modulus {
        w % modulus
    } else {
        w % modulus - modulus
    }
}

/// The wire word of a single-word value under the bit-for-bit encoding.
pub open spec fn bytewise_word(v: ParamType) -> int {
    match v {
        ParamType::UINT8(x) => x as int,
        ParamType::INT8(x) => to_unsigned(x as int, 0x100),
        ParamType::UINT16(x) => x as int,
        ParamType::INT16(x) => to_unsigned(x as int, 0x1_0000),
        ParamType::UINT32(x) => x as int,
        ParamType::INT32(x) => to_unsigned(x as int, 0x1_0000_0000),
        ParamType::REAL32(b) => b as int,
        _ => 0,
    }
}

/// The wire word of a single-word value under the numeric-cast encoding.
pub open spec fn ccast_word(v: ParamType) -> int {
    match v {
        ParamType::UINT8(x) => single_of_int(x as int),
        ParamType::INT8(x) => single_of_int(x as int),
        ParamType::UINT16(x) => single_of_int(x as int),
        ParamType::INT16(x) => single_of_int(x as int),
        ParamType::UINT32(x) => single_of_int(x as int),
        ParamType::INT32(x) => single_of_int(x as int),
        ParamType::REAL32(b) => b as int,
        _ => 0,
    }
}

/// The wire word of a single-word value under a supported encoding.
pub open spec fn wire_word(v: ParamType, encoding: ParamEncodingType) -> int {
    match encoding {
        ParamEncodingType::CCast => ccast_word(v),
        _ => bytewise_word(v),
    }
}

/// The value of the given single-word type that a wire word stands for
/// under the bit-for-bit encoding: the low bits of the word.
pub open spec fn bytewise_value(word: u32, kind: MavParamType) -> ParamType {
    match kind {
        MavParamType::MAV_PARAM_TYPE_UINT8 => ParamType::UINT8((word as int % 0x100) as u8),
        MavParamType::MAV_PARAM_TYPE_INT8 => ParamType::INT8(to_signed(word as int, 0x100) as i8),
        MavParamType::MAV_PARAM_TYPE_UINT16 => ParamType::UINT16((word as int % 0x1_0000) as u16),
        MavParamType::MAV_PARAM_TYPE_INT16 => ParamType::INT16(
            to_signed(word as int, 0x1_0000) as i16,
        ),
        MavParamType::MAV_PARAM_TYPE_UINT32 => ParamType::UINT32(word),
        MavParamType::MAV_PARAM_TYPE_INT32 => ParamType::INT32(
            to_signed(word as int, 0x1_0000_0000) as i32,
        ),
        _ => ParamType::REAL32(word),
    }
}

/// The value of the given single-word type that a wire word stands for
/// under the numeric-cast encoding: the number rounded toward zero and held
/// to the type's range.
pub open spec fn ccast_value(word: u32, kind: MavParamType) -> ParamType {
    match kind {
        MavParamType::MAV_PARAM_TYPE_UINT8 => ParamType::UINT8(
            int_of_single(word, 0, 0xFF) as u8,
        ),
        MavParamType::MAV_PARAM_TYPE_INT8 => ParamType::INT8(
            int_of_single(word, -0x80, 0x7F) as i8,
        ),
        MavParamType::MAV_PARAM_TYPE_UINT16 => ParamType::UINT16(
            int_of_single(word, 0, 0xFFFF) as u16,
        ),
        MavParamType::MAV_PARAM_TYPE_INT16 => ParamType::INT16(
            int_of_single(word, -0x8000, 0x7FFF) as i16,
        ),
        MavParamType::MAV_PARAM_TYPE_UINT32 => ParamType::UINT32(
            int_of_single(word, 0, 0xFFFF_FFFF) as u32,
        ),
        MavParamType::MAV_PARAM_TYPE_INT32 => ParamType::INT32(
            int_of_single(word, -0x8000_0000, 0x7FFF_FFFF) as i32,
        ),
        _ => ParamType::REAL32(word),
    }
}

/// The value of the given single-word type that a wire word stands for under
/// a supported encoding.
pub open spec fn wire_value(word: u32, kind: MavParamType, encoding: ParamEncodingType)
    -> ParamType {
    match encoding {
        ParamEncodingType::CCast => ccast_value(word, kind),
        _ => bytewise_value(word, kind),
    }
}

impl ParamType {
    /// The type tag of the value.
    pub open spec fn spec_kind(self) -> MavParamType {
        match self {
            ParamType::UINT8(_) => MavParamType::MAV_PARAM_TYPE_UINT8,
            ParamType::INT8(_) => MavParamType::MAV_PARAM_TYPE_INT8,
            ParamType::UINT16(_) => MavParamType::MAV_PARAM_TYPE_UINT16,
            ParamType::INT16(_) => MavParamType::MAV_PARAM_TYPE_INT16,
            ParamType::UINT32(_) => MavParamType::MAV_PARAM_TYPE_UINT32,
            ParamType::INT32(_) => MavParamType::MAV_PARAM_TYPE_INT32,
            ParamType::UINT64(_) => MavParamType::MAV_PARAM_TYPE_UINT64,
            ParamType::INT64(_) => MavParamType::MAV_PARAM_TYPE_INT64,
            ParamType::REAL32(_) => MavParamType::MAV_PARAM_TYPE_REAL32,
            ParamType::REAL64(_) => MavParamType::MAV_PARAM_TYPE_REAL64,
        }
    }

    /// The type tag of the value.
    #[verifier::when_used_as_spec(spec_kind)]
    pub fn kind(self) -> (k: MavParamType)
        ensures
            k == self.spec_kind(),
    {
        match self {
            ParamType::UINT8(_) => MavParamType::MAV_PARAM_TYPE_UINT8,
            ParamType::INT8(_) => MavParamType::MAV_PARAM_TYPE_INT8,
            ParamType::UINT16(_) => MavParamType::MAV_PARAM_TYPE_UINT16,
            ParamType::INT16(_) => MavParamType::MAV_PARAM_TYPE_INT16,
            ParamType::UINT32(_) => MavParamType::MAV_PARAM_TYPE_UINT32,
            ParamType::INT32(_) => MavParamType::MAV_PARAM_TYPE_INT32,
            ParamType::UINT64(_) => MavParamType::MAV_PARAM_TYPE_UINT64,
            ParamType::INT64(_) => MavParamType::MAV_PARAM_TYPE_INT64,
            ParamType::REAL32(_) => MavParamType::MAV_PARAM_TYPE_REAL32,
            ParamType::REAL64(_) => MavParamType::MAV_PARAM_TYPE_REAL64,
        }
    }

    /// Whether the value needs more than one wire word: the 64-bit integers
    /// and the double-precision real. Such values cannot be coded.
    pub open spec fn spec_is_wide(self) -> bool {
        self.spec_kind().spec_is_wide()
    }

    /// Whether the value needs more than one wire word.
    #[verifier::when_used_as_spec(spec_is_wide)]
    pub fn is_wide(self) -> (r: bool)
        ensures
            r == self.spec_is_wide(),
    {
        self.kind().is_wide()
    }

    /// The wire word of the value. Fails exactly under the unsupported
    /// encoding; a value of more than one word must not be passed under the
    /// other two.
    pub fn encode(&self, encoding: ParamEncodingType) -> (r: Result<u32, CoreError>)
        requires
            encoding == ParamEncodingType::Unsupported || !self.spec_is_wide(),
        ensures
            r is Err <==> encoding == ParamEncodingType::Unsupported,
            r matches Err(e) ==> e == CoreError::UnsupportedEncoding,
            r matches Ok(w) ==> w == wire_word(*self, encoding),
    {
        proof {
            lemma2_to64();
        }
        match encoding {
            ParamEncodingType::Unsupported => Err(CoreError::UnsupportedEncoding),
            ParamEncodingType::CCast => {
                let word = match self {
                    ParamType::UINT8(v) => single_from_u32(*v as u32),
                    ParamType::INT8(v) => single_from_i32(*v as i32),
                    ParamType::UINT16(v) => single_from_u32(*v as u32),
                    ParamType::INT16(v) => single_from_i32(*v as i32),
                    ParamType::UINT32(v) => single_from_u32(*v),
                    ParamType::INT32(v) => single_from_i32(*v),
                    ParamType::REAL32(b) => *b,
                    _ => 0,
                };
                Ok(word)
            },
            ParamEncodingType::ByteWise => {
                let word = match self {
                    ParamType::UINT8(v) => *v as u32,
                    ParamType::INT8(v) => if *v < 0 {
                        (*v as i64 + 0x100) as u32
                    } else {
                        *v as u32
                    },
                    ParamType::UINT16(v) => *v as u32,
                    ParamType::INT16(v) => if *v < 0 {
                        (*v as i64 + 0x1_0000) as u32
                    } else {
                        *v as u32
                    },
                    ParamType::UINT32(v) => *v,
                    ParamType::INT32(v) => if *v < 0 {
                        (*v as i64 + 0x1_0000_0000) as u32
                    } else {
                        *v as u32
                    },
                    ParamType::REAL32(b) => *b,
                    _ => 0,
                };
                Ok(word)
            },
        }
    }

    /// The typed value that a wire word stands for. Fails exactly under the
    /// unsupported encoding; a type of more than one word must not be passed
    /// under the other two.
    pub fn decode(data: &ParamValueData, encoding: ParamEncodingType) -> (r: Result<
        ParamType,
        CoreError,
    >)
        requires
            encoding == ParamEncodingType::Unsupported || !data.param_type.spec_is_wide(),
        ensures
            r is Err <==> encoding == ParamEncodingType::Unsupported,
            r matches Err(e) ==> e == CoreError::UnsupportedEncoding,
            r matches Ok(v) ==> v == wire_value(data.param_value, data.param_type, encoding),
            r matches Ok(v) ==> v.spec_kind() == data.param_type,
    {
        let word = data.param_value;
        match encoding {
            ParamEncodingType::Unsupported => Err(CoreError::UnsupportedEncoding),
            ParamEncodingType::CCast => {
                let value = match data.param_type {
                    MavParamType::MAV_PARAM_TYPE_UINT8 => ParamType::UINT8(
                        single_to_int(word, 0, 0xFF) as u8,
                    ),
                    MavParamType::MAV_PARAM_TYPE_INT8 => ParamType::INT8(
                        single_to_int(word, -0x80, 0x7F) as i8,
                    ),
                    MavParamType::MAV_PARAM_TYPE_UINT16 => ParamType::UINT16(
                        single_to_int(word, 0, 0xFFFF) as u16,
                    ),
                    MavParamType::MAV_PARAM_TYPE_INT16 => ParamType::INT16(
                        single_to_int(word, -0x8000, 0x7FFF) as i16,
                    ),
                    MavParamType::MAV_PARAM_TYPE_UINT32 => ParamType::UINT32(
                        single_to_int(word, 0, 0xFFFF_FFFF) as u32,
                    ),
                    MavParamType::MAV_PARAM_TYPE_INT32 => ParamType::INT32(
                        single_to_int(word, -0x8000_0000, 0x7FFF_FFFF) as i32,
                    ),
                    _ => ParamType::REAL32(word),
                };
                Ok(value)
            },
            ParamEncodingType::ByteWise => {
                let value = match data.param_type {
                    MavParamType::MAV_PARAM_TYPE_UINT8 => ParamType::UINT8((word % 0x100) as u8),
                    MavParamType::MAV_PARAM_TYPE_INT8 => {
                        let low = (word % 0x100) as i64;
                        ParamType::INT8(
                            if low < 0x80 {
                                low as i8
                            } else {
                                (low - 0x100) as i8
                            },
                        )
                    },
                    MavParamType::MAV_PARAM_TYPE_UINT16 => ParamType::UINT16(
                        (word % 0x1_0000) as u16,
                    ),
                    MavParamType::MAV_PARAM_TYPE_INT16 => {
                        let low = (word % 0x1_0000) as i64;
                        ParamType::INT16(
                            if low < 0x8000 {
                                low as i16
                            } else {
                                (low - 0x1_0000) as i16
                            },
                        )
                    },
                    MavParamType::MAV_PARAM_TYPE_UINT32 => ParamType::UINT32(word),
                    MavParamType::MAV_PARAM_TYPE_INT32 => {
                        let low = word as i64;
                        ParamType::INT32(
                            if low < 0x8000_0000 {
                                low as i32
                            } else {
                                (low - 0x1_0000_0000) as i32
                            },
                        )
                    },
                    _ => ParamType::REAL32(word),
                };
                Ok(value)
            },
        }
    }

    /// Stores `new_value` in this slot the way the wire would carry it: the
    /// new value is encoded, and the slot takes what that word decodes to in
    /// the slot's own type. Fails exactly under the unsupported encoding, and
    /// then leaves the slot as it was.
    pub fn set_value(&mut self, new_value: ParamType, encoding: ParamEncodingType) -> (r: Result<
        (),
        CoreError,
    >)
        requires
            encoding == ParamEncodingType::Unsupported || (!new_value.spec_is_wide() && !old(self).spec_is_wide()),
        ensures
            r is Err <==> encoding == ParamEncodingType::Unsupported,
            r matches Err(e) ==> e == CoreError::UnsupportedEncoding && *final(self) == *old(self),
            r is Ok ==> *final(self) == restamped(*old(self), new_value, encoding),
            final(self).spec_kind() == old(self).spec_kind(),
    {
        let word = match new_value.encode(encoding) {
            Ok(word) => word,
            Err(e) => {
                return Err(e);
            },
        };
        let data = ParamValueData {
            param_value: word,
            param_count: 0,
            param_index: 0,
            param_id: [0u8;16],
            param_type: self.kind(),
        };
        match ParamType::decode(&data, encoding) {
            Ok(value) => {
                *self = value;
                Ok(())
            },
            Err(e) => Err(e),
        }
    }
}

/// What a slot holds after `new_value` went through the wire into it.
pub open spec fn restamped(slot: ParamType, new_value: ParamType, encoding: ParamEncodingType)
    -> ParamType {
    wire_value(wire_word(new_value, encoding) as u32, slot.spec_kind(), encoding)
}

/// Whether the numeric-cast encoding carries the value without loss: every
/// value of 8 and 16 bits, single-precision reals, and the 32-bit integers of
/// magnitude up to 2^24. Larger 32-bit integers may be rounded to 24
/// significant bits.
pub open spec fn ccast_exact(v: ParamType) -> bool {
    match v {
        ParamType::UINT32(x) => x <= 0x100_0000,
        ParamType::INT32(x) => -0x100_0000 <= x <= 0x100_0000,
        _ => !v.spec_is_wide(),
    }
}

/// Round trip under the bit-for-bit encoding: every single-word value
/// decodes from its own wire word.
pub proof fn lemma_bytewise_round_trip(v: ParamType)
    requires
        !v.spec_is_wide(),
    ensures
        0 <= wire_word(v, ParamEncodingType::ByteWise) <= u32::MAX,
        wire_value(
            wire_word(v, ParamEncodingType::ByteWise) as u32,
            v.spec_kind(),
            ParamEncodingType::ByteWise,
        ) == v,
{
}

/// Round trip under the numeric-cast encoding: every value that the encoding
/// carries without loss decodes from its own wire word.
pub proof fn lemma_ccast_round_trip(v: ParamType)
    requires
        ccast_exact(v),
    ensures
        0 <= wire_word(v, ParamEncodingType::CCast) <= u32::MAX,
        wire_value(
            wire_word(v, ParamEncodingType::CCast) as u32,
            v.spec_kind(),
            ParamEncodingType::CCast,
        ) == v,
{
    match v {
        ParamType::UINT8(x) => lemma_single_round_trip(x as int, 0, 0xFF),
        ParamType::INT8(x) => lemma_single_round_trip(x as int, -0x80, 0x7F),
        ParamType::UINT16(x) => lemma_single_round_trip(x as int, 0, 0xFFFF),
        ParamType::INT16(x) => lemma_single_round_trip(x as int, -0x8000, 0x7FFF),
        ParamType::UINT32(x) => lemma_single_round_trip(x as int, 0, 0xFFFF_FFFF),
        ParamType::INT32(x) => lemma_single_round_trip(x as int, -0x8000_0000, 0x7FFF_FFFF),
        _ => {},
    }
}

/// Round-trip fidelity: whatever a wire word decodes to in a single-word
/// type, that value's own wire word decodes to the value again. Rounded and
/// saturated values are no exception: once through the wire, a value stays
/// as it is.
pub proof fn lemma_codec_stable(word: u32, kind: MavParamType, encoding: ParamEncodingType)
    requires
        encoding != ParamEncodingType::Unsupported,
        !kind.spec_is_wide(),
    ensures
        ({
            let v = wire_value(word, kind, encoding);
            &&& v.spec_kind() == kind
            &&& 0 <= wire_word(v, encoding) <= u32::MAX
            &&& wire_value(wire_word(v, encoding) as u32, kind, encoding) == v
        }),
{
    if encoding == ParamEncodingType::CCast {
        match kind {
            MavParamType::MAV_PARAM_TYPE_UINT8 => lemma_single_stable(word, 0, 0xFF),
            MavParamType::MAV_PARAM_TYPE_INT8 => lemma_single_stable(word, -0x80, 0x7F),
            MavParamType::MAV_PARAM_TYPE_UINT16 => lemma_single_stable(word, 0, 0xFFFF),
            MavParamType::MAV_PARAM_TYPE_INT16 => lemma_single_stable(word, -0x8000, 0x7FFF),
            MavParamType::MAV_PARAM_TYPE_UINT32 => lemma_single_stable(word, 0, 0xFFFF_FFFF),
            MavParamType::MAV_PARAM_TYPE_INT32 => lemma_single_stable(
                word,
                -0x8000_0000,
                0x7FFF_FFFF,
            ),
            _ => {},
        }
    }
}

/// Round-trip fidelity of a stored value: what a slot holds after a value
/// went through the wire into it is what the wire carries for the slot, so
/// storing the slot's own value again changes nothing.
pub proof fn lemma_restamp_stable(
    slot: ParamType,
    new_value: ParamType,
    encoding: ParamEncodingType,
)
    requires
        encoding != ParamEncodingType::Unsupported,
        !slot.spec_is_wide(),
    ensures
        ({
            let stored = restamped(slot, new_value, encoding);
            restamped(stored, stored, encoding) == stored
        }),
{
    lemma_codec_stable(wire_word(new_value, encoding) as u32, slot.spec_kind(), encoding);
}

/// Parameter round trip: under either supported encoding, decoding the wire
/// word of a value in the value's own type gives the value again, for every
/// value that the encoding carries without loss.
pub proof fn lemma_round_trip(v: ParamType, encoding: ParamEncodingType)
    requires
        encoding != ParamEncodingType::Unsupported,
        !v.spec_is_wide(),
        encoding == ParamEncodingType::CCast ==> ccast_exact(v),
    ensures
        0 <= wire_word(v, encoding) <= u32::MAX,
        wire_value(wire_word(v, encoding) as u32, v.spec_kind(), encoding) == v,
        restamped(v, v, encoding) == v,
{
    if encoding == ParamEncodingType::CCast {
        lemma_ccast_round_trip(v);
    } else {
        lemma_bytewise_round_trip(v);
    }
}


/// The text that `String::from_utf8_lossy` makes of a byte sequence.
pub uninterp spec fn lossy_text(bytes: Seq<u8>) -> Seq<char>;

/// The text of a byte sequence: its characters where it is valid UTF-8, and
/// otherwise what the lossy conversion makes of it.
pub open spec fn bytes_text(bytes: Seq<u8>) -> Seq<char> {
    if valid_utf8(bytes) {
        decode_utf8(bytes)
    } else {
        lossy_text(bytes)
    }
}

/// `String::from_utf8_lossy`, which turns bytes into text. Valid UTF-8 comes
/// back as the text it encodes; for other input the result is whatever the
/// standard library substitutes, which is named and not described here.
#[verifier::external_body]
fn utf8_lossy(bytes: &[u8]) -> (s: String)
    ensures
        s@ == lossy_text(bytes@),
        s@ == bytes_text(bytes@),
{
    String::from_utf8_lossy(bytes).into_owned()
}

/// The 16-byte name field for a name with the given bytes: the first 16
/// bytes of the name, and zero bytes after a shorter name.
pub open spec fn id_of_bytes(bytes: Seq<u8>) -> Seq<u8> {
    Seq::new(
        16,
        |i: int|
            if i < bytes.len() {
                bytes[i]
            } else {
                0u8
            },
    )
}

/// The number of bytes in front of the first zero byte.
pub open spec fn text_len(id: Seq<u8>) -> int
    decreases id.len(),
{
    if id.len() == 0 || id[0] == 0 {
        0
    } else {
        1 + text_len(id.skip(1))
    }
}

/// The bytes of the name in a name field: those in front of the first zero
/// byte, or all of them where there is none.
pub open spec fn name_bytes(id: Seq<u8>) -> Seq<u8> {
    id.take(text_len(id))
}

/// `text_len` is the first position that holds a zero, or the length.
pub proof fn lemma_text_len(id: Seq<u8>, n: int)
    requires
        0 <= n <= id.len(),
        forall|i: int| 0 <= i < n ==> id[i] != 0,
        n < id.len() ==> id[n] == 0,
    ensures
        text_len(id) == n,
    decreases id.len(),
{
    if n > 0 {
        let rest = id.skip(1);
        assert forall|i: int| 0 <= i < n - 1 implies rest[i] != 0 by {
            assert(rest[i] == id[i + 1]);
        }
        lemma_text_len(rest, n - 1);
    }
}

/// Name codec: a name of at most 16 bytes without a zero byte comes back
/// from its name field unchanged.
pub proof fn lemma_name_round_trip(name: Seq<char>)
    requires
        encode_utf8(name).len() <= 16,
        forall|i: int| 0 <= i < encode_utf8(name).len() ==> encode_utf8(name)[i] != 0,
    ensures
        bytes_text(name_bytes(id_of_bytes(encode_utf8(name)))) == name,
{
    let bytes = encode_utf8(name);
    let id = id_of_bytes(bytes);
    lemma_text_len(id, bytes.len() as int);
    assert(name_bytes(id) =~= bytes);
    encode_utf8_valid_utf8(name);
    encode_utf8_decode_utf8(name);
}

/// Name codec: of a name longer than 16 bytes the name field holds the
/// first 16 bytes.
pub proof fn lemma_name_truncated(bytes: Seq<u8>)
    requires
        bytes.len() >= 16,
    ensures
        id_of_bytes(bytes) == bytes.take(16),
{
    assert(id_of_bytes(bytes) =~= bytes.take(16));
}

/// A named, typed autopilot setting.
#[derive(Debug, PartialEq, Eq)]
pub struct Parameter {
    pub name: String,
    pub value: ParamType,
}

/// The mathematical value of a [`Parameter`].
pub struct ParameterView {
    pub name: Seq<char>,
    pub value: ParamType,
}

impl View for Parameter {
    type V = ParameterView;

    open spec fn view(&self) -> ParameterView {
        ParameterView { name: self.name@, value: self.value }
    }
}

impl Clone for Parameter {
    fn clone(&self) -> (r: Self)
        ensures
            r@ == self@,
    {
        Parameter { name: self.name.clone(), value: self.value }
    }
}

impl Parameter {
    /// The parameter that a frame from the autopilot describes. Fails
    /// exactly under the unsupported encoding.
    pub fn try_new(data: &ParamValueData, encoding: ParamEncodingType) -> (r: Result<
        Parameter,
        CoreError,
    >)
        requires
            encoding == ParamEncodingType::Unsupported || !data.param_type.spec_is_wide(),
        ensures
            r is Err <==> encoding == ParamEncodingType::Unsupported,
            r matches Err(e) ==> e == CoreError::UnsupportedEncoding,
            r matches Ok(p) ==> p@ == (ParameterView {
                name: bytes_text(name_bytes(data.param_id@)),
                value: wire_value(data.param_value, data.param_type, encoding),
            }),
    {
        match ParamType::decode(data, encoding) {
            Ok(value) => Ok(Parameter { name: Parameter::param_id_to_name(data.param_id), value }),
            Err(e) => Err(e),
        }
    }

    /// The wire word of the parameter's value.
    pub fn param_value(&self, encoding: ParamEncodingType) -> (r: Result<u32, CoreError>)
        requires
            encoding == ParamEncodingType::Unsupported || !self.value.spec_is_wide(),
        ensures
            r is Err <==> encoding == ParamEncodingType::Unsupported,
            r matches Err(e) ==> e == CoreError::UnsupportedEncoding,
            r matches Ok(w) ==> w == wire_word(self.value, encoding),
    {
        self.value.encode(encoding)
    }

    /// The type tag of the parameter's value.
    pub fn param_type(&self) -> (t: MavParamType)
        ensures
            t == self.value.spec_kind(),
    {
        self.value.kind()
    }

    /// The name field of the parameter's name.
    pub fn param_id(&self) -> (id: [u8; 16])
        ensures
            id@ == id_of_bytes(encode_utf8(self.name@)),
    {
        Parameter::param_name_to_id(self.name.as_str())
    }

    /// The name in a name field: the text of the bytes in front of the first
    /// zero byte.
    pub fn param_id_to_name(id: [u8; 16]) -> (name: String)
        ensures
            name@ == bytes_text(name_bytes(id@)),
    {
        let mut len: usize = 0;
        while len < 16 && id[len] != 0
            invariant
                len <= 16,
                forall|i: int| 0 <= i < len ==> id@[i] != 0,
            decreases 16 - len,
        {
            len += 1;
        }
        proof {
            lemma_text_len(id@, len as int);
        }
        let prefix = slice_subrange(id.as_slice(), 0, len);
        assert(prefix@ =~= name_bytes(id@));
        utf8_lossy(prefix)
    }

    /// The name field of a name: its first 16 bytes, and zero bytes after a
    /// shorter name.
    pub fn param_name_to_id(name: &str) -> (id: [u8; 16])
        ensures
            id@ == id_of_bytes(encode_utf8(name@)),
    {
        let mut buffer = [0u8;16];
        let bytes = name.as_bytes();
        let len = if bytes.len() < 16 {
            bytes.len()
        } else {
            16
        };
        let mut i: usize = 0;
        while i < len
            invariant
                i <= len <= 16,
                len <= bytes@.len(),
                bytes@ == name.spec_bytes(),
                forall|j: int| 0 <= j < i ==> buffer@[j] == bytes@[j],
                forall|j: int| i <= j < 16 ==> buffer@[j] == 0,
            decreases len - i,
        {
            buffer[i] = bytes[i];
            i += 1;
        }
        assert(buffer@ =~= id_of_bytes(name.spec_bytes()));
        buffer
    }
}

/// The full set of actuator parameters of one camera. The margin gain is the
/// bit pattern of a single-precision number. A trim may lie outside its
/// minimum and maximum: inverted servos need that.
#[derive(Debug, Clone, Copy, PartialEq, Eq, Structural)]
pub struct ActuatorsParameters {
    pub camera_id: CameraID,
    pub focus_channel: ServoChannel,
    pub focus_channel_min: u16,
    pub focus_channel_trim: u16,
    pub focus_channel_max: u16,
    pub focus_margin_gain: u32,
    pub script_function: ScriptFunction,
    pub script_channel: ServoChannel,
    pub script_channel_min: u16,
    pub script_channel_trim: u16,
    pub script_channel_max: u16,
    pub enable_focus_and_zoom_correlation: bool,
    pub zoom_channel: ServoChannel,
    pub zoom_channel_min: u16,
    pub zoom_channel_trim: u16,
    pub zoom_channel_max: u16,
    pub tilt_channel: ServoChannel,
    pub tilt_channel_min: u16,
    pub tilt_channel_trim: u16,
    pub tilt_channel_max: u16,
    pub tilt_channel_reversed: bool,
    pub tilt_mnt_type: MountType,
    pub tilt_mnt_pitch_min: i32,
    pub tilt_mnt_pitch_max: i32,
}

/// The value of an optional field, or the base's where there is none.
pub open spec fn or_default<T>(value: Option<T>, base: T) -> T {
    match value {
        Some(v) => v,
        None => base,
    }
}

fn value_or<T: Copy>(value: Option<T>, base: T) -> (r: T)
    ensures
        r == or_default(value, base),
{
    match value {
        Some(v) => v,
        None => base,
    }
}

impl ActuatorsParameters {
    /// The parameters of a camera that was never configured.
    pub open spec fn spec_default() -> ActuatorsParameters {
        ActuatorsParameters {
            camera_id: CameraID::CAM1,
            focus_channel: ServoChannel::SERVO10,
            focus_channel_min: 870,
            focus_channel_trim: 1500,
            focus_channel_max: 2130,
            focus_margin_gain: SINGLE_ONE,
            script_function: ScriptFunction::SCRIPT1,
            script_channel: ServoChannel::SERVO12,
            script_channel_min: 870,
            script_channel_trim: 1500,
            script_channel_max: 2130,
            enable_focus_and_zoom_correlation: true,
            zoom_channel: ServoChannel::SERVO11,
            zoom_channel_min: 935,
            zoom_channel_trim: 1500,
            zoom_channel_max: 1850,
            tilt_channel: ServoChannel::SERVO16,
            tilt_channel_min: 750,
            tilt_channel_trim: 1500,
            tilt_channel_max: 2250,
            tilt_channel_reversed: false,
            tilt_mnt_type: MountType::Servo,
            tilt_mnt_pitch_min: -90i32,
            tilt_mnt_pitch_max: 90,
        }
    }

    /// The parameters that a patch describes: its values, and the defaults
    /// where it has none.
    pub open spec fn spec_from_config(value: ActuatorsParametersConfig) -> ActuatorsParameters {
        let base = ActuatorsParameters::spec_default();
        ActuatorsParameters {
            camera_id: or_default(value.camera_id, base.camera_id),
            focus_channel: or_default(value.focus_channel, base.focus_channel),
            focus_channel_min: or_default(value.focus_channel_min, base.focus_channel_min),
            focus_channel_trim: or_default(value.focus_channel_trim, base.focus_channel_trim),
            focus_channel_max: or_default(value.focus_channel_max, base.focus_channel_max),
            focus_margin_gain: or_default(value.focus_margin_gain, base.focus_margin_gain),
            script_function: or_default(value.script_function, base.script_function),
            script_channel: or_default(value.script_channel, base.script_channel),
            script_channel_min: or_default(value.script_channel_min, base.script_channel_min),
            script_channel_trim: or_default(value.script_channel_trim, base.script_channel_trim),
            script_channel_max: or_default(value.script_channel_max, base.script_channel_max),
            enable_focus_and_zoom_correlation: or_default(value.enable_focus_and_zoom_correlation, base.enable_focus_and_zoom_correlation),
            zoom_channel: or_default(value.zoom_channel, base.zoom_channel),
            zoom_channel_min: or_default(value.zoom_channel_min, base.zoom_channel_min),
            zoom_channel_trim: or_default(value.zoom_channel_trim, base.zoom_channel_trim),
            zoom_channel_max: or_default(value.zoom_channel_max, base.zoom_channel_max),
            tilt_channel: or_default(value.tilt_channel, base.tilt_channel),
            tilt_channel_min: or_default(value.tilt_channel_min, base.tilt_channel_min),
            tilt_channel_trim: or_default(value.tilt_channel_trim, base.tilt_channel_trim),
            tilt_channel_max: or_default(value.tilt_channel_max, base.tilt_channel_max),
            tilt_channel_reversed: or_default(value.tilt_channel_reversed, base.tilt_channel_reversed),
            tilt_mnt_type: or_default(value.tilt_mnt_type, base.tilt_mnt_type),
            tilt_mnt_pitch_min: or_default(value.tilt_mnt_pitch_min, base.tilt_mnt_pitch_min),
            tilt_mnt_pitch_max: or_default(value.tilt_mnt_pitch_max, base.tilt_mnt_pitch_max),
        }
    }

    /// Whether the four servo outputs are four different outputs.
    pub open spec fn spec_channels_distinct(self) -> bool {
        &&& self.focus_channel != self.script_channel
        &&& self.focus_channel != self.zoom_channel
        &&& self.focus_channel != self.tilt_channel
        &&& self.script_channel != self.zoom_channel
        &&& self.script_channel != self.tilt_channel
        &&& self.zoom_channel != self.tilt_channel
    }

    /// Whether the four servo outputs are four different outputs.
    #[verifier::when_used_as_spec(spec_channels_distinct)]
    pub fn channels_distinct(self) -> (r: bool)
        ensures
            r == self.spec_channels_distinct(),
    {
        self.focus_channel != self.script_channel && self.focus_channel != self.zoom_channel
            && self.focus_channel != self.tilt_channel && self.script_channel
            != self.zoom_channel && self.script_channel != self.tilt_channel && self.zoom_channel
            != self.tilt_channel
    }

    /// The patch that names every field with this record's value.
    pub open spec fn spec_to_config(self) -> ActuatorsParametersConfig {
        ActuatorsParametersConfig {
            camera_id: Some(self.camera_id),
            focus_channel: Some(self.focus_channel),
            focus_channel_min: Some(self.focus_channel_min),
            focus_channel_trim: Some(self.focus_channel_trim),
            focus_channel_max: Some(self.focus_channel_max),
            focus_margin_gain: Some(self.focus_margin_gain),
            script_function: Some(self.script_function),
            script_channel: Some(self.script_channel),
            script_channel_min: Some(self.script_channel_min),
            script_channel_trim: Some(self.script_channel_trim),
            script_channel_max: Some(self.script_channel_max),
            enable_focus_and_zoom_correlation: Some(self.enable_focus_and_zoom_correlation),
            zoom_channel: Some(self.zoom_channel),
            zoom_channel_min: Some(self.zoom_channel_min),
            zoom_channel_trim: Some(self.zoom_channel_trim),
            zoom_channel_max: Some(self.zoom_channel_max),
            tilt_channel: Some(self.tilt_channel),
            tilt_channel_min: Some(self.tilt_channel_min),
            tilt_channel_trim: Some(self.tilt_channel_trim),
            tilt_channel_max: Some(self.tilt_channel_max),
            tilt_channel_reversed: Some(self.tilt_channel_reversed),
            tilt_mnt_type: Some(self.tilt_mnt_type),
            tilt_mnt_pitch_min: Some(self.tilt_mnt_pitch_min),
            tilt_mnt_pitch_max: Some(self.tilt_mnt_pitch_max),
        }
    }

    /// The patch that names every field with this record's value.
    #[verifier::when_used_as_spec(spec_to_config)]
    pub fn to_config(self) -> (r: ActuatorsParametersConfig)
        ensures
            r == self.spec_to_config(),
    {
        ActuatorsParametersConfig {
            camera_id: Some(self.camera_id),
            focus_channel: Some(self.focus_channel),
            focus_channel_min: Some(self.focus_channel_min),
            focus_channel_trim: Some(self.focus_channel_trim),
            focus_channel_max: Some(self.focus_channel_max),
            focus_margin_gain: Some(self.focus_margin_gain),
            script_function: Some(self.script_function),
            script_channel: Some(self.script_channel),
            script_channel_min: Some(self.script_channel_min),
            script_channel_trim: Some(self.script_channel_trim),
            script_channel_max: Some(self.script_channel_max),
            enable_focus_and_zoom_correlation: Some(self.enable_focus_and_zoom_correlation),
            zoom_channel: Some(self.zoom_channel),
            zoom_channel_min: Some(self.zoom_channel_min),
            zoom_channel_trim: Some(self.zoom_channel_trim),
            zoom_channel_max: Some(self.zoom_channel_max),
            tilt_channel: Some(self.tilt_channel),
            tilt_channel_min: Some(self.tilt_channel_min),
            tilt_channel_trim: Some(self.tilt_channel_trim),
            tilt_channel_max: Some(self.tilt_channel_max),
            tilt_channel_reversed: Some(self.tilt_channel_reversed),
            tilt_mnt_type: Some(self.tilt_mnt_type),
            tilt_mnt_pitch_min: Some(self.tilt_mnt_pitch_min),
            tilt_mnt_pitch_max: Some(self.tilt_mnt_pitch_max),
        }
    }
}

impl Default for ActuatorsParameters {
    fn default() -> (r: Self)
        ensures
            r == ActuatorsParameters::spec_default(),
            r.spec_channels_distinct(),
    {
        ActuatorsParameters {
            camera_id: CameraID::CAM1,
            focus_channel: ServoChannel::SERVO10,
            focus_channel_min: 870,
            focus_channel_trim: 1500,
            focus_channel_max: 2130,
            focus_margin_gain: SINGLE_ONE,
            script_function: ScriptFunction::SCRIPT1,
            script_channel: ServoChannel::SERVO12,
            script_channel_min: 870,
            script_channel_trim: 1500,
            script_channel_max: 2130,
            enable_focus_and_zoom_correlation: true,
            zoom_channel: ServoChannel::SERVO11,
            zoom_channel_min: 935,
            zoom_channel_trim: 1500,
            zoom_channel_max: 1850,
            tilt_channel: ServoChannel::SERVO16,
            tilt_channel_min: 750,
            tilt_channel_trim: 1500,
            tilt_channel_max: 2250,
            tilt_channel_reversed: false,
            tilt_mnt_type: MountType::Servo,
            tilt_mnt_pitch_min: -90i32,
            tilt_mnt_pitch_max: 90,
        }
    }
}

impl From<ActuatorsParametersConfig> for ActuatorsParameters {
    fn from(value: ActuatorsParametersConfig) -> (r: Self) {
        let base = ActuatorsParameters::default();
        ActuatorsParameters {
            camera_id: value_or(value.camera_id, base.camera_id),
            focus_channel: value_or(value.focus_channel, base.focus_channel),
            focus_channel_min: value_or(value.focus_channel_min, base.focus_channel_min),
            focus_channel_trim: value_or(value.focus_channel_trim, base.focus_channel_trim),
            focus_channel_max: value_or(value.focus_channel_max, base.focus_channel_max),
            focus_margin_gain: value_or(value.focus_margin_gain, base.focus_margin_gain),
            script_function: value_or(value.script_function, base.script_function),
            script_channel: value_or(value.script_channel, base.script_channel),
            script_channel_min: value_or(value.script_channel_min, base.script_channel_min),
            script_channel_trim: value_or(value.script_channel_trim, base.script_channel_trim),
            script_channel_max: value_or(value.script_channel_max, base.script_channel_max),
            enable_focus_and_zoom_correlation: value_or(value.enable_focus_and_zoom_correlation, base.enable_focus_and_zoom_correlation),
            zoom_channel: value_or(value.zoom_channel, base.zoom_channel),
            zoom_channel_min: value_or(value.zoom_channel_min, base.zoom_channel_min),
            zoom_channel_trim: value_or(value.zoom_channel_trim, base.zoom_channel_trim),
            zoom_channel_max: value_or(value.zoom_channel_max, base.zoom_channel_max),
            tilt_channel: value_or(value.tilt_channel, base.tilt_channel),
            tilt_channel_min: value_or(value.tilt_channel_min, base.tilt_channel_min),
            tilt_channel_trim: value_or(value.tilt_channel_trim, base.tilt_channel_trim),
            tilt_channel_max: value_or(value.tilt_channel_max, base.tilt_channel_max),
            tilt_channel_reversed: value_or(value.tilt_channel_reversed, base.tilt_channel_reversed),
            tilt_mnt_type: value_or(value.tilt_mnt_type, base.tilt_mnt_type),
            tilt_mnt_pitch_min: value_or(value.tilt_mnt_pitch_min, base.tilt_mnt_pitch_min),
            tilt_mnt_pitch_max: value_or(value.tilt_mnt_pitch_max, base.tilt_mnt_pitch_max),
        }
    }
}

impl vstd::std_specs::convert::FromSpecImpl<ActuatorsParametersConfig> for ActuatorsParameters {
    open spec fn obeys_from_spec() -> bool {
        true
    }

    open spec fn from_spec(value: ActuatorsParametersConfig) -> Self {
        ActuatorsParameters::spec_from_config(value)
    }
}

/// A record turned into a patch and back is the record.
pub proof fn lemma_config_round_trip(p: ActuatorsParameters)
    ensures
        ActuatorsParameters::spec_from_config(p.spec_to_config()) == p,
{
}

} // verus!
