//! Shared definitions: error kinds, acknowledgement codes, programme types and
//! the layout descriptor of a message element.

use vstd::prelude::*;
use crate::defs::element_types::{from_code, lemma_registry_entry};
use crate::format::next_element_length;

pub mod element_types;

verus! {

/// Why a received buffer could not be decoded.
#[derive(Debug, Copy, Clone, PartialEq, Eq, Structural)]
pub enum DecodeError {
    /// The first byte of an element is not a registered element code.
    UnknownElementType,
    /// The transmitted checksum differs from the one computed over the frame.
    CRCError,
    /// A declared body length above 255. The length field is one byte wide,
    /// so decoding never reports it.
    MessageTooLarge,
    /// The buffer ends before the bytes that the format announces.
    MessageTooShort,
    /// An escape marker is not followed by one of its three valid offsets.
    BadStuffing,
}

/// Why a frame or an element could not be encoded.
#[derive(Debug, Copy, Clone, PartialEq, Eq, Structural)]
pub enum EncodeError {
    /// An element payload is longer than 254 bytes.
    ElementTooLarge,
    /// The encoded elements of a frame take more than 255 bytes together.
    MessageTooLarge,
    /// The site address does not fit in 10 bits.
    InvalidSiteAddress,
    /// The encoder address is above 64.
    InvalidEncoderAddress,
}

/// Status carried by an acknowledgement, in wire order starting at zero.
#[derive(Debug, Copy, Clone, PartialEq, Eq, Structural)]
pub enum ResponseCode {
    Success,
    CRCError,
    NotReceived,
    UnknownMessage,
    DSNError,
    PSNError,
    ParameterOutOfRange,
    ElementLengthError,
    FieldLengthError,
    NotAcceptable,
    EndMessageMissing,
    BufferOverflow,
    BadStuffing,
    UnexpectedEndOfMessage,
    NotInterpreted,
}

impl ResponseCode {
    /// The byte that stands for this status on the wire.
    pub open spec fn value(self) -> u8 {
        match self {
            ResponseCode::Success => 0,
            ResponseCode::CRCError => 1,
            ResponseCode::NotReceived => 2,
            ResponseCode::UnknownMessage => 3,
            ResponseCode::DSNError => 4,
            ResponseCode::PSNError => 5,
            ResponseCode::ParameterOutOfRange => 6,
            ResponseCode::ElementLengthError => 7,
            ResponseCode::FieldLengthError => 8,
            ResponseCode::NotAcceptable => 9,
            ResponseCode::EndMessageMissing => 10,
            ResponseCode::BufferOverflow => 11,
            ResponseCode::BadStuffing => 12,
            ResponseCode::UnexpectedEndOfMessage => 13,
            ResponseCode::NotInterpreted => 14,
        }
    }

    pub fn as_u8(self) -> (r: u8)
        ensures
            r == self.value(),
    {
        self as u8
    }
}

/// Programme type, in wire order starting at zero.
#[derive(Debug, Copy, Clone, PartialEq, Eq, Structural)]
pub enum PTY {
    Undefined,
    News,
    CurrentAffairs,
    Information,
    Sport,
    Education,
    Drama,
    Culture,
    Science,
    Varied,
    PopMusic,
    RockMusic,
    EasyListening,
    LightClassical,
    SeriousClassical,
    OtherMusic,
    Weather,
    Finance,
    Children,
    SocialAffairs,
    Religion,
    PhoneIn,
    Travel,
    Leisure,
    JazzMusic,
    CountryMusic,
    NationalMusic,
    OldiesMusic,
    FolkMusic,
    Documentary,
    AlarmTest,
    Alarm,
}

impl PTY {
    /// The five-bit number of this programme type.
    pub open spec fn value(self) -> u8 {
        match self {
            PTY::Undefined => 0,
            PTY::News => 1,
            PTY::CurrentAffairs => 2,
            PTY::Information => 3,
            PTY::Sport => 4,
            PTY::Education => 5,
            PTY::Drama => 6,
            PTY::Culture => 7,
            PTY::Science => 8,
            PTY::Varied => 9,
            PTY::PopMusic => 10,
            PTY::RockMusic => 11,
            PTY::EasyListening => 12,
            PTY::LightClassical => 13,
            PTY::SeriousClassical => 14,
            PTY::OtherMusic => 15,
            PTY::Weather => 16,
            PTY::Finance => 17,
            PTY::Children => 18,
            PTY::SocialAffairs => 19,
            PTY::Religion => 20,
            PTY::PhoneIn => 21,
            PTY::Travel => 22,
            PTY::Leisure => 23,
            PTY::JazzMusic => 24,
            PTY::CountryMusic => 25,
            PTY::NationalMusic => 26,
            PTY::OldiesMusic => 27,
            PTY::FolkMusic => 28,
            PTY::Documentary => 29,
            PTY::AlarmTest => 30,
            PTY::Alarm => 31,
        }
    }

    pub fn as_u8(self) -> (r: u8)
        ensures
            r == self.value(),
    {
        self as u8
    }
}

/// How the payload length of an element is known.
#[derive(Debug, Copy, Clone, PartialEq, Eq, Structural)]
pub enum LengthType {
    /// The payload always has this many bytes; no length byte is sent.
    FixedLength(usize),
    /// A length byte precedes the payload.
    VariableLength,
}

/// Which sub-addressing bytes follow the element code.
#[derive(Debug, Copy, Clone, PartialEq, Eq, Structural)]
pub enum DSNPSNType {
    /// Neither a dataset number nor a programme service number.
    Neither,
    /// A dataset number only.
    DSNOnly,
    /// A dataset number, then a programme service number.
    All,
}

impl DSNPSNType {
    /// Number of sub-addressing bytes, 0 to 2.
    pub open spec fn width(self) -> nat {
        match self {
            DSNPSNType::Neither => 0,
            DSNPSNType::DSNOnly => 1,
            DSNPSNType::All => 2,
        }
    }

    pub open spec fn has_dsn(self) -> bool {
        self != DSNPSNType::Neither
    }

    pub open spec fn has_psn(self) -> bool {
        self == DSNPSNType::All
    }
}

/// Layout descriptor of one element code: what stands between the code and
/// the payload, and how long the payload is.
#[derive(Debug, Copy, Clone, PartialEq, Eq, Structural)]
pub struct MessageElementType {
    pub code: u8,
    pub dsn_psn_type: DSNPSNType,
    pub length_type: LengthType,
}

impl MessageElementType {
    pub fn new(code: u8, dsn_psn_type: DSNPSNType, length_type: LengthType) -> (r: Self)
        ensures
            r == (MessageElementType { code, dsn_psn_type, length_type }),
    {
        Self { code, dsn_psn_type, length_type }
    }

    /// How many bytes the element at the start of `bytes` takes: its header
    /// and the payload that the layout or the length byte announces. `None`
    /// where `bytes` is empty, starts with an unregistered code, or ends
    /// before the length byte.
    pub fn get_next_element_length(bytes: &[u8]) -> (r: Option<usize>)
        ensures
            match r {
                Some(n) => next_element_length(bytes@) == Some(n as nat),
                None => next_element_length(bytes@) is None,
            },
    {
        if bytes.len() == 0 {
            return None;
        }
        let element_type = match from_code(bytes[0]) {
            Some(element_type) => element_type,
            None => {
                return None;
            },
        };
        proof {
            lemma_registry_entry(bytes[0]);
        }
        let mut result: usize = 1;

        result += match element_type.dsn_psn_type {
            DSNPSNType::Neither => 0,
            DSNPSNType::DSNOnly => 1,
            DSNPSNType::All => 2,
        };

        result += match element_type.length_type {
            LengthType::FixedLength(x) => x,
            LengthType::VariableLength => {
                if bytes.len() <= result {
                    return None;
                }
                1 + bytes[result] as usize
            },
        };

        Some(result)
    }

    /// Bytes in front of the payload: the code, the sub-addressing bytes and,
    /// for a length-prefixed element, the length byte.
    pub open spec fn header_len(self) -> nat {
        1 + self.dsn_psn_type.width() + if self.length_type is VariableLength {
            1nat
        } else {
            0nat
        }
    }
}

} // verus!
