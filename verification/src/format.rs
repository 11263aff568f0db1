//! The wire format as mathematics: what an element and a frame look like as
//! byte sequences, and what a byte sequence decodes to.

use vstd::prelude::*;
use crate::buffer::be_bytes;
use crate::checksum::checksum16;
use crate::defs::{DSNPSNType, DecodeError, EncodeError, LengthType, MessageElementType};
use crate::defs::element_types::layout_of;
use crate::transparency::{escapes_valid, stuff, unstuff};

verus! {

/// First byte of every frame.
pub const START: u8 = 0xFE;

/// Last byte of every frame.
pub const STOP: u8 = 0xFF;

/// Longest payload of one element.
pub const MAX_ELEMENT_DATA: usize = 254;

/// Longest body of a frame: all its encoded elements together.
pub const MAX_MESSAGE: usize = 255;

/// The address field of a frame: the low ten bits of the site address above
/// the low six bits of the encoder address.
pub open spec fn pack_address(site_address: u16, encoder_address: u8) -> u16 {
    ((site_address % 1024) * 64 + encoder_address % 64) as u16
}

/// The address field for the two addresses, or why there is none: the site
/// address is checked first.
pub open spec fn address_field(site_address: u16, encoder_address: u8) -> Result<u16, EncodeError> {
    if site_address > 1023 {
        Err(EncodeError::InvalidSiteAddress)
    } else if encoder_address > 64 {
        Err(EncodeError::InvalidEncoderAddress)
    } else {
        Ok(pack_address(site_address, encoder_address))
    }
}

/// The site address in an address field: its upper ten bits.
pub open spec fn site_of(address: u16) -> u16 {
    address / 64
}

/// The encoder address in an address field: its lower six bits.
pub open spec fn encoder_of(address: u16) -> u8 {
    (address % 64) as u8
}

/// The 16-bit value whose big-endian bytes are `high` and `low`.
pub open spec fn be_value(high: u8, low: u8) -> u16 {
    (high * 256 + low) as u16
}

/// A message element as a value: its layout, its sub-addresses and its
/// payload.
pub struct ElementView {
    pub element_type: MessageElementType,
    pub dataset_number: u8,
    pub program_service_number: u8,
    pub data: Seq<u8>,
}

/// A frame as a value.
pub struct FrameView {
    pub sequence_counter: u8,
    pub site_address: u16,
    pub encoder_address: u8,
    pub elements: Seq<ElementView>,
}

impl ElementView {
    /// The sub-addressing bytes that the layout asks for: none, the dataset
    /// number, or the dataset number and then the programme service number.
    pub open spec fn subaddress(self) -> Seq<u8> {
        match self.element_type.dsn_psn_type {
            DSNPSNType::Neither => Seq::empty(),
            DSNPSNType::DSNOnly => seq![self.dataset_number],
            DSNPSNType::All => seq![self.dataset_number, self.program_service_number],
        }
    }

    /// The length byte of a length-prefixed element; nothing for a
    /// fixed-length one.
    pub open spec fn length_prefix(self) -> Seq<u8> {
        match self.element_type.length_type {
            LengthType::VariableLength => seq![self.data.len() as u8],
            LengthType::FixedLength(_) => Seq::empty(),
        }
    }

    /// The bytes of the element: code, sub-addresses, length byte, payload.
    pub open spec fn wire(self) -> Seq<u8> {
        seq![self.element_type.code] + self.subaddress() + self.length_prefix() + self.data
    }

    /// The encoding of the element, or why it has none.
    pub open spec fn encoded(self) -> Result<Seq<u8>, EncodeError> {
        if self.data.len() > MAX_ELEMENT_DATA {
            Err(EncodeError::ElementTooLarge)
        } else {
            Ok(self.wire())
        }
    }

    /// An element that decoding gives back unchanged: its layout is the
    /// registered one for its code, its payload has the length that the
    /// layout fixes or one that a length byte can hold, and the sub-addresses
    /// that the layout does not send are zero.
    pub open spec fn canonical(self) -> bool {
        &&& layout_of(self.element_type.code) == Some(self.element_type)
        &&& match self.element_type.length_type {
            LengthType::FixedLength(n) => self.data.len() == n,
            LengthType::VariableLength => self.data.len() <= MAX_ELEMENT_DATA,
        }
        &&& (!self.element_type.dsn_psn_type.has_dsn() ==> self.dataset_number == 0)
        &&& (!self.element_type.dsn_psn_type.has_psn() ==> self.program_service_number == 0)
    }
}

/// The payload length that `bytes` announce for an element of layout `t`
/// that starts at their first byte: the fixed width, or the value of the
/// length byte. Meant for `bytes` that hold the whole header.
pub open spec fn announced_len(t: MessageElementType, bytes: Seq<u8>) -> nat {
    match t.length_type {
        LengthType::FixedLength(n) => n as nat,
        LengthType::VariableLength => bytes[t.header_len() - 1] as nat,
    }
}

/// How many bytes the element at the start of `bytes` takes, where the code
/// is registered and the bytes reach as far as the length needs.
pub open spec fn next_element_length(bytes: Seq<u8>) -> Option<nat> {
    if bytes.len() == 0 {
        None
    } else {
        match layout_of(bytes[0]) {
            None => None,
            Some(t) => if bytes.len() < t.header_len() && t.length_type is VariableLength {
                None
            } else {
                Some(t.header_len() + announced_len(t, bytes))
            },
        }
    }
}

/// The element at the start of `bytes`, or why there is none. Bytes behind
/// the element are not looked at.
pub open spec fn decode_element(bytes: Seq<u8>) -> Result<ElementView, DecodeError> {
    if bytes.len() == 0 {
        Err(DecodeError::MessageTooShort)
    } else {
        match layout_of(bytes[0]) {
            None => Err(DecodeError::UnknownElementType),
            Some(t) => {
                let head = t.header_len();
                if bytes.len() < head || bytes.len() < head + announced_len(t, bytes) {
                    Err(DecodeError::MessageTooShort)
                } else {
                    Ok(
                        ElementView {
                            element_type: t,
                            dataset_number: if t.dsn_psn_type.has_dsn() {
                                bytes[1]
                            } else {
                                0
                            },
                            program_service_number: if t.dsn_psn_type.has_psn() {
                                bytes[2]
                            } else {
                                0
                            },
                            data: bytes.subrange(head as int, (head + announced_len(t, bytes)) as int),
                        },
                    )
                }
            },
        }
    }
}

/// Where the length of the next element is known and lies within `bytes`,
/// the element decodes, takes exactly that many bytes, and the bytes behind
/// it play no part.
pub proof fn lemma_decode_element_prefix(bytes: Seq<u8>, n: nat)
    requires
        next_element_length(bytes) == Some(n),
        n <= bytes.len(),
    ensures
        decode_element(bytes.subrange(0, n as int)) == decode_element(bytes),
        decode_element(bytes) matches Ok(e) && e.element_type.header_len() + e.data.len() == n,
{
    let prefix = bytes.subrange(0, n as int);
    let t = layout_of(bytes[0])->0;
    let head = t.header_len();
    assert(prefix[0] == bytes[0]);
    if t.length_type is VariableLength {
        assert(prefix[head - 1] == bytes[head - 1]);
    }
    assert(prefix.subrange(head as int, n as int) =~= bytes.subrange(head as int, n as int));
}

/// The encodings of `elements`, one after the other.
pub open spec fn elements_wire(elements: Seq<ElementView>) -> Seq<u8>
    decreases elements.len(),
{
    if elements.len() == 0 {
        Seq::empty()
    } else {
        elements[0].wire() + elements_wire(elements.skip(1))
    }
}

/// The elements that `body` splits into, in order, or the reason why the
/// first element that cannot be decoded fails.
pub open spec fn decode_elements(body: Seq<u8>) -> Result<Seq<ElementView>, DecodeError>
    decreases body.len(),
{
    if body.len() == 0 {
        Ok(Seq::empty())
    } else {
        match decode_element(body) {
            Err(e) => Err(e),
            Ok(first) => {
                let taken = first.element_type.header_len() + first.data.len();
                match decode_elements(body.skip(taken as int)) {
                    Err(e) => Err(e),
                    Ok(rest) => Ok(seq![first] + rest),
                }
            },
        }
    }
}

impl FrameView {
    /// The body of the frame: its encoded elements.
    pub open spec fn body(self) -> Seq<u8> {
        elements_wire(self.elements)
    }

    /// What the checksum covers: the address field, the sequence counter,
    /// the body length and the body.
    pub open spec fn protected(self) -> Seq<u8> {
        be_bytes(pack_address(self.site_address, self.encoder_address)) + seq![
            self.sequence_counter,
            self.body().len() as u8,
        ] + self.body()
    }

    /// The frame between its delimiters, before escaping: the protected
    /// bytes and their checksum.
    pub open spec fn inner(self) -> Seq<u8> {
        self.protected() + be_bytes(checksum16(self.protected()))
    }

    /// The bytes of the frame on the wire.
    pub open spec fn wire(self) -> Seq<u8> {
        seq![START] + stuff(self.inner()) + seq![STOP]
    }

    /// Whether some element has a payload too long to encode.
    pub open spec fn has_oversized_element(self) -> bool {
        exists|i: int|
            0 <= i < self.elements.len() && (#[trigger] self.elements[i]).data.len()
                > MAX_ELEMENT_DATA
    }

    /// The encoding of the frame, or why it has none. The elements are
    /// checked first, then the body length, then the two addresses.
    pub open spec fn encoded(self) -> Result<Seq<u8>, EncodeError> {
        if self.has_oversized_element() {
            Err(EncodeError::ElementTooLarge)
        } else if self.body().len() > MAX_MESSAGE {
            Err(EncodeError::MessageTooLarge)
        } else {
            match address_field(self.site_address, self.encoder_address) {
                Err(e) => Err(e),
                Ok(_) => Ok(self.wire()),
            }
        }
    }

    /// A frame that decoding gives back unchanged: every element is
    /// canonical, the body fits, and both addresses fit their bit fields.
    pub open spec fn canonical(self) -> bool {
        &&& forall|i: int| 0 <= i < self.elements.len() ==> (#[trigger] self.elements[i]).canonical()
        &&& self.body().len() <= MAX_MESSAGE
        &&& self.site_address <= 1023
        &&& self.encoder_address <= 63
    }
}

/// The frame that `bytes` hold, or why they hold none.
///
/// The first and the last byte are taken for the delimiters without a look
/// at their values. Bytes between the body and the checksum are ignored.
pub open spec fn decode_frame(bytes: Seq<u8>) -> Result<FrameView, DecodeError> {
    if bytes.len() < 2 {
        Err(DecodeError::MessageTooShort)
    } else {
        let region = bytes.subrange(1, bytes.len() - 1);
        if !escapes_valid(region) {
            Err(DecodeError::BadStuffing)
        } else {
            decode_inner(unstuff(region))
        }
    }
}

/// The frame that the unescaped bytes between the delimiters hold, or why
/// they hold none. The checksum is verified before anything is parsed.
pub open spec fn decode_inner(inner: Seq<u8>) -> Result<FrameView, DecodeError> {
    if inner.len() < 2 {
        Err(DecodeError::MessageTooShort)
    } else {
        let end = inner.len() - 2;
        if checksum16(inner.take(end)) != be_value(inner[end], inner[end + 1]) {
            Err(DecodeError::CRCError)
        } else if end < 4 || end < 4 + inner[3] {
            Err(DecodeError::MessageTooShort)
        } else {
            let address = be_value(inner[0], inner[1]);
            match decode_elements(inner.subrange(4, 4 + inner[3])) {
                Err(e) => Err(e),
                Ok(elements) => Ok(
                    FrameView {
                        sequence_counter: inner[2],
                        site_address: site_of(address),
                        encoder_address: encoder_of(address),
                        elements,
                    },
                ),
            }
        }
    }
}

} // verus!
