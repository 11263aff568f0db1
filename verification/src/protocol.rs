//! Message elements and frames, and their wire form.

use vstd::prelude::*;
use vstd::slice::{slice_subrange, slice_to_vec};
use bytebuffer::ByteBuffer;
use crate::buffer::{buffer_aligned, buffer_data, buffer_rpos};
use crate::checksum::{checksum16, crc_state, crc_step};
use crate::defs::{DSNPSNType, DecodeError, EncodeError, LengthType, MessageElementType};
use crate::defs::element_types::{from_code, lemma_registry_entry};
use crate::format::{
    address_field, be_value, decode_element, decode_elements, decode_frame, elements_wire,
    lemma_decode_element_prefix, ElementView, FrameView, MAX_ELEMENT_DATA, MAX_MESSAGE, START,
    STOP,
};
use crate::transparency::{escapes_valid, lemma_stuff_len, stuff, unstuff, ESCAPE};

verus! {

/// One command or value inside a frame.
#[derive(Debug, Clone, PartialEq, Eq)]
pub struct MessageElement {
    pub element_type: MessageElementType,
    /// Sent only where the layout has a dataset number.
    pub dataset_number: u8,
    /// Sent only where the layout has a programme service number.
    pub program_service_number: u8,
    pub data: Vec<u8>,
}

/// One protocol message.
#[derive(Debug, Clone, PartialEq, Eq)]
pub struct Frame {
    pub sequence_counter: u8,
    pub site_address: u16,
    pub encoder_address: u8,
    pub elements: Vec<MessageElement>,
}

impl View for MessageElement {
    type V = ElementView;

    open spec fn view(&self) -> ElementView {
        ElementView {
            element_type: self.element_type,
            dataset_number: self.dataset_number,
            program_service_number: self.program_service_number,
            data: self.data@,
        }
    }
}

impl View for Frame {
    type V = FrameView;

    open spec fn view(&self) -> FrameView {
        FrameView {
            sequence_counter: self.sequence_counter,
            site_address: self.site_address,
            encoder_address: self.encoder_address,
            elements: self.elements@.map_values(|e: MessageElement| e@),
        }
    }
}

/// The bytes of an encoding result as a sequence.
pub open spec fn encoded_view(r: Result<Vec<u8>, EncodeError>) -> Result<Seq<u8>, EncodeError> {
    match r {
        Ok(bytes) => Ok(bytes@),
        Err(e) => Err(e),
    }
}

/// A decoded element, or the error, as a value.
pub open spec fn element_view(r: Result<MessageElement, DecodeError>) -> Result<
    ElementView,
    DecodeError,
> {
    match r {
        Ok(element) => Ok(element@),
        Err(e) => Err(e),
    }
}

/// Decoded elements, or the error, as a value.
pub open spec fn elements_view(r: Result<Vec<MessageElement>, DecodeError>) -> Result<
    Seq<ElementView>,
    DecodeError,
> {
    match r {
        Ok(elements) => Ok(elements@.map_values(|e: MessageElement| e@)),
        Err(e) => Err(e),
    }
}

/// A decoded frame, or the error, as a value.
pub open spec fn frame_view(r: Result<Frame, DecodeError>) -> Result<FrameView, DecodeError> {
    match r {
        Ok(frame) => Ok(frame@),
        Err(e) => Err(e),
    }
}

/// `rest` behind the elements `done`: the whole list, or the error of `rest`.
pub open spec fn behind(done: Seq<ElementView>, rest: Result<Seq<ElementView>, DecodeError>) -> Result<
    Seq<ElementView>,
    DecodeError,
> {
    match rest {
        Ok(elements) => Ok(done + elements),
        Err(e) => Err(e),
    }
}

/// The source of sequence counters: each frame takes the next one, and after
/// 255 comes 0.
#[derive(Debug)]
pub struct SequenceCounter {
    /// The counter that the next frame gets.
    pub next: u8,
}

/// The counter that follows `counter` after `steps` frames.
pub open spec fn counter_after(counter: u8, steps: nat) -> u8 {
    ((counter + steps) % 256) as u8
}

/// Moving on step by step is moving on by the sum of the steps.
pub proof fn lemma_counter_steps(counter: u8, a: nat, b: nat)
    ensures
        counter_after(counter_after(counter, a), b) == counter_after(counter, a + b),
{
}

/// Sequence counters repeat only after a full cycle: frames fewer than 256
/// apart never have the same counter, and frames exactly 256 apart do.
pub proof fn lemma_counter_cycle(counter: u8, i: nat, j: nat)
    requires
        i < j,
    ensures
        j - i < 256 ==> counter_after(counter, i) != counter_after(counter, j),
        j - i == 256 ==> counter_after(counter, i) == counter_after(counter, j),
{
}

impl SequenceCounter {
    /// A source whose first counter is 1.
    pub fn new() -> (r: SequenceCounter)
        ensures
            r.next == 1,
    {
        SequenceCounter { next: 1 }
    }

    /// Hands out the next counter and moves on by one.
    pub fn fetch(&mut self) -> (r: u8)
        ensures
            r == old(self).next,
            final(self).next == counter_after(r, 1),
    {
        let current = self.next;
        self.next = if current == 255 {
            0
        } else {
            current + 1
        };
        current
    }
}

impl MessageElement {
    /// An element of the given layout with `data` as its payload and both
    /// sub-addresses zero.
    pub fn new(element_type: MessageElementType, data: &[u8]) -> (r: MessageElement)
        ensures
            r@ == (ElementView {
                element_type,
                dataset_number: 0,
                program_service_number: 0,
                data: data@,
            }),
    {
        MessageElement {
            element_type,
            dataset_number: 0,
            program_service_number: 0,
            data: slice_to_vec(data),
        }
    }

    /// Decodes the element at the start of `bytes`.
    pub fn from_bytes(bytes: &[u8]) -> (r: Result<MessageElement, DecodeError>)
        ensures
            element_view(r) == decode_element(bytes@),
    {
        let mut buffer = ByteBuffer::from_bytes(bytes);
        if buffer.len() == 0 {
            return Err(DecodeError::MessageTooShort);
        }
        let first_byte = buffer.read_u8();
        let element_type = match from_code(first_byte) {
            Some(element_type) => element_type,
            None => {
                return Err(DecodeError::UnknownElementType);
            },
        };
        proof {
            lemma_registry_entry(first_byte);
        }

        let subaddress_len: usize = match element_type.dsn_psn_type {
            DSNPSNType::Neither => 0,
            DSNPSNType::DSNOnly => 1,
            DSNPSNType::All => 2,
        };
        if buffer.len() - buffer.get_rpos() < subaddress_len {
            return Err(DecodeError::MessageTooShort);
        }
        let dataset_number: u8 = match element_type.dsn_psn_type {
            DSNPSNType::DSNOnly | DSNPSNType::All => buffer.read_u8(),
            DSNPSNType::Neither => 0,
        };
        let program_service_number: u8 = match element_type.dsn_psn_type {
            DSNPSNType::All => buffer.read_u8(),
            _ => 0,
        };

        let data_len: usize = match element_type.length_type {
            LengthType::VariableLength => {
                if buffer.len() - buffer.get_rpos() < 1 {
                    return Err(DecodeError::MessageTooShort);
                }
                buffer.read_u8() as usize
            },
            LengthType::FixedLength(width) => width,
        };
        if buffer.len() - buffer.get_rpos() < data_len {
            return Err(DecodeError::MessageTooShort);
        }
        let data: Vec<u8> = buffer.read_bytes(data_len);

        Ok(MessageElement { element_type, dataset_number, program_service_number, data })
    }

    /// Encodes the element: code, sub-addresses, length byte, payload.
    ///
    /// The layout of the element itself decides what is written. The payload
    /// of a fixed-length layout goes out as it is: its length is not compared
    /// with the width of the layout.
    pub fn into_bytes(&self) -> (r: Result<Vec<u8>, EncodeError>)
        ensures
            encoded_view(r) == self@.encoded(),
    {
        if self.data.len() > MAX_ELEMENT_DATA {
            return Err(EncodeError::ElementTooLarge);
        }
        let mut buffer = ByteBuffer::new();

        buffer.write_u8(self.element_type.code);

        match self.element_type.dsn_psn_type {
            DSNPSNType::Neither => {},
            DSNPSNType::DSNOnly => {
                buffer.write_u8(self.dataset_number);
            },
            DSNPSNType::All => {
                buffer.write_u8(self.dataset_number);
                buffer.write_u8(self.program_service_number);
            },
        }

        match self.element_type.length_type {
            LengthType::VariableLength => {
                buffer.write_u8(self.data.len() as u8);
            },
            LengthType::FixedLength(_) => {},
        }

        buffer.write_bytes(self.data.as_slice());

        let bytes = buffer.to_bytes();
        assert(bytes@ =~= self@.wire());
        Ok(bytes)
    }
}

/// Reads two bytes and joins them, the first as the high byte. The buffer's
/// own 16-bit read goes through a pointer cast that needs an even address, so
/// the two bytes are read one by one.
fn read_be16(buffer: &mut ByteBuffer) -> (r: u16)
    requires
        buffer_aligned(*old(buffer)),
        buffer_rpos(*old(buffer)) + 2 <= buffer_data(*old(buffer)).len(),
    ensures
        r == be_value(
            buffer_data(*old(buffer))[buffer_rpos(*old(buffer)) as int],
            buffer_data(*old(buffer))[buffer_rpos(*old(buffer)) as int + 1],
        ),
        buffer_data(*final(buffer)) == buffer_data(*old(buffer)),
        buffer_rpos(*final(buffer)) == buffer_rpos(*old(buffer)) + 2,
        buffer_aligned(*final(buffer)),
{
    let high = buffer.read_u8();
    let low = buffer.read_u8();
    let value = ((high as u16) << 8) | (low as u16);
    assert(((high as u16) << 8) | (low as u16) == (high * 256 + low) as u16) by (bit_vector);
    value
}

impl Frame {
    /// An empty frame for the broadcast addresses, stamped with the next
    /// counter of `counter`.
    pub fn new(counter: &mut SequenceCounter) -> (r: Frame)
        ensures
            r@ == (FrameView {
                sequence_counter: old(counter).next,
                site_address: 0,
                encoder_address: 0,
                elements: Seq::empty(),
            }),
            final(counter).next == counter_after(old(counter).next, 1),
    {
        let frame = Frame {
            sequence_counter: counter.fetch(),
            site_address: 0,
            encoder_address: 0,
            elements: Vec::new(),
        };
        assert(frame@.elements =~= Seq::empty());
        frame
    }

    /// Decodes a frame from its wire bytes, delimiters included.
    pub fn from_bytes(bytes: &[u8]) -> (r: Result<Frame, DecodeError>)
        ensures
            frame_view(r) == decode_frame(bytes@),
    {
        if bytes.len() < 2 {
            return Err(DecodeError::MessageTooShort);
        }
        let last_index = bytes.len() - 1;
        let region = slice_subrange(bytes, 1, last_index);
        if !Self::has_valid_escapes(region) {
            return Err(DecodeError::BadStuffing);
        }
        let unstuffed_bytes = Self::revert_byte_stuffing(region);
        let mut buffer = ByteBuffer::from_bytes(unstuffed_bytes.as_slice());
        let ghost inner = unstuffed_bytes@;
        if buffer.len() < 2 {
            return Err(DecodeError::MessageTooShort);
        }
        let protected_len = buffer.len() - 2;

        let crc_data = buffer.read_bytes(protected_len);
        let frame_crc = read_be16(&mut buffer);
        assert(crc_data@ =~= inner.take(protected_len as int));

        let computed_crc = Self::compute_crc16_genibus(crc_data.as_slice());
        if computed_crc != frame_crc {
            return Err(DecodeError::CRCError);
        }
        buffer.set_rpos(0);
        if protected_len < 4 {
            return Err(DecodeError::MessageTooShort);
        }
        let address = read_be16(&mut buffer);
        let site_address: u16 = (address & 0xFFC0) >> 6;
        let encoder_address: u8 = (address & 0x3F) as u8;
        assert((address & 0xFFC0) >> 6 == address / 64 && (address & 0x3F) as u8 == (address % 64) as u8)
            by (bit_vector);

        let sequence_counter = buffer.read_u8();
        let message_length = buffer.read_u8() as usize;
        if protected_len - buffer.get_rpos() < message_length {
            return Err(DecodeError::MessageTooShort);
        }
        let message = buffer.read_bytes(message_length);

        match Frame::decode_message_field(message.as_slice()) {
            Ok(elements) => Ok(Frame { sequence_counter, site_address, encoder_address, elements }),
            Err(e) => Err(e),
        }
    }

    /// Encodes the frame to its wire bytes, delimiters included.
    pub fn into_bytes(&self) -> (r: Result<Vec<u8>, EncodeError>)
        ensures
            encoded_view(r) == self@.encoded(),
    {
        let mut message_bytes: Vec<u8> = Vec::new();
        let mut i: usize = 0;
        assert(self@.elements.skip(0) =~= self@.elements);
        while i < self.elements.len()
            invariant
                i <= self.elements.len(),
                forall|j: int| 0 <= j < i ==> (#[trigger] self@.elements[j]).data.len() <= MAX_ELEMENT_DATA,
                elements_wire(self@.elements) == message_bytes@ + elements_wire(
                    self@.elements.skip(i as int),
                ),
            decreases self.elements.len() - i,
        {
            let ghost sofar = message_bytes@;
            let mut element_bytes = match self.elements[i].into_bytes() {
                Ok(element_bytes) => element_bytes,
                Err(e) => {
                    assert(self@.elements[i as int].data.len() > MAX_ELEMENT_DATA);
                    return Err(e);
                },
            };
            message_bytes.append(&mut element_bytes);
            proof {
                let rest = self@.elements.skip(i as int);
                assert(rest[0] == self@.elements[i as int]);
                assert(rest.skip(1) =~= self@.elements.skip(i + 1));
                assert(message_bytes@ + elements_wire(self@.elements.skip(i + 1)) =~= sofar
                    + elements_wire(rest));
            }
            i += 1;
        }
        assert(message_bytes@ =~= self@.body());
        assert(!self@.has_oversized_element());

        if message_bytes.len() > MAX_MESSAGE {
            return Err(EncodeError::MessageTooLarge);
        }
        let addr_field: u16 = match Self::get_address_field(self.site_address, self.encoder_address) {
            Ok(addr_field) => addr_field,
            Err(e) => {
                return Err(e);
            },
        };

        let mut frame = ByteBuffer::new();
        frame.write_u16(addr_field);
        frame.write_u8(self.sequence_counter);
        frame.write_u8(message_bytes.len() as u8);
        frame.write_bytes(message_bytes.as_slice());

        let protected = frame.to_bytes();
        assert(protected@ =~= self@.protected());
        let crc = Self::compute_crc16_genibus(protected.as_slice());
        frame.write_u16(crc);

        let inner = frame.to_bytes();
        let stuffed_frame = Self::apply_byte_stuffing(inner.as_slice());
        proof {
            lemma_stuff_len(inner@);
        }

        let mut final_frame = ByteBuffer::new();
        final_frame.write_u8(START);
        final_frame.write_bytes(stuffed_frame.as_slice());
        final_frame.write_u8(STOP);

        let wire = final_frame.to_bytes();
        assert(wire@ =~= self@.wire());
        Ok(wire)
    }

    /// Sets both addresses. Whether they can be encoded is checked when the
    /// frame is.
    pub fn set_addresses(&mut self, site_address: u16, encoder_address: u8)
        ensures
            final(self)@ == (FrameView { site_address, encoder_address, ..old(self)@ }),
    {
        self.site_address = site_address;
        self.encoder_address = encoder_address;
    }

    /// Splits a frame body into its elements.
    pub fn decode_message_field(bytes: &[u8]) -> (r: Result<Vec<MessageElement>, DecodeError>)
        ensures
            elements_view(r) == decode_elements(bytes@),
    {
        let mut result: Vec<MessageElement> = Vec::new();
        let last_index = bytes.len();
        let mut i: usize = 0;
        assert(bytes@.skip(0) =~= bytes@);
        assert(result@.map_values(|e: MessageElement| e@) + Seq::<ElementView>::empty()
            =~= Seq::<ElementView>::empty());
        while i < bytes.len()
            invariant
                i <= bytes.len(),
                last_index == bytes.len(),
                decode_elements(bytes@) == behind(
                    result@.map_values(|e: MessageElement| e@),
                    decode_elements(bytes@.skip(i as int)),
                ),
            decreases bytes.len() - i,
        {
            let readable_bytes = slice_subrange(bytes, i, last_index);
            assert(readable_bytes@ =~= bytes@.skip(i as int));
            let element_length = match MessageElementType::get_next_element_length(readable_bytes) {
                Some(element_length) => element_length,
                None => {
                    if from_code(readable_bytes[0]).is_none() {
                        return Err(DecodeError::UnknownElementType);
                    } else {
                        return Err(DecodeError::MessageTooShort);
                    }
                },
            };
            if element_length > readable_bytes.len() {
                return Err(DecodeError::MessageTooShort);
            }
            let element_bytes = slice_subrange(readable_bytes, 0, element_length);
            let ghost done = result@.map_values(|e: MessageElement| e@);
            proof {
                lemma_decode_element_prefix(readable_bytes@, element_length as nat);
            }
            match MessageElement::from_bytes(element_bytes) {
                Ok(element) => {
                    proof {
                        assert(bytes@.skip(i as int).skip(element_length as int) =~= bytes@.skip(
                            i + element_length,
                        ));
                    }
                    result.push(element);
                    proof {
                        let now = result@.map_values(|e: MessageElement| e@);
                        assert(now =~= done.push(element@));
                        let rest = decode_elements(bytes@.skip(i + element_length));
                        if let Ok(others) = rest {
                            assert(now + others =~= done + (seq![element@] + others));
                        }
                    }
                },
                Err(e) => {
                    return Err(e);
                },
            }
            i += element_length;
        }
        assert(result@.map_values(|e: MessageElement| e@) + Seq::<ElementView>::empty()
            =~= result@.map_values(|e: MessageElement| e@));
        Ok(result)
    }

    /// Packs the two addresses into the address field.
    ///
    /// An encoder address of 64 passes the bound, although six bits hold 0 to
    /// 63 only; it is packed as 0.
    pub fn get_address_field(site_address: u16, encoder_address: u8) -> (r: Result<u16, EncodeError>)
        ensures
            r == address_field(site_address, encoder_address),
    {
        if site_address > 1023 {
            return Err(EncodeError::InvalidSiteAddress);
        }
        if encoder_address > 64 {
            return Err(EncodeError::InvalidEncoderAddress);
        }
        let mut address: u16 = (site_address & 0x3FF) << 6;
        address |= (encoder_address & 0x3F) as u16;
        assert(((site_address & 0x3FF) << 6) | ((encoder_address & 0x3F) as u16) == ((site_address
            % 1024) * 64 + encoder_address % 64) as u16) by (bit_vector);
        Ok(address)
    }

    /// The checksum of `data`.
    pub fn compute_crc16_genibus(data: &[u8]) -> (r: u16)
        ensures
            r == checksum16(data@),
    {
        let mut crc: u16 = 0xFFFF;
        let mut i: usize = 0;
        while i < data.len()
            invariant
                i <= data.len(),
                crc == crc_state(data@.take(i as int)),
            decreases data.len() - i,
        {
            let c = data[i];
            let ghost before = crc;
            crc = (crc >> 8) | (crc << 8);
            crc ^= c as u16;
            crc ^= (crc & 0xFF) >> 4;
            crc ^= (crc << 8) << 4;
            crc ^= ((crc & 0xFF) << 4) << 1;
            proof {
                assert(crc == crc_step(before, c)) by (bit_vector)
                    requires
                        crc == ({
                            let mixed = ((before >> 8) | (before << 8)) ^ (c as u16);
                            let folded = mixed ^ ((mixed & 0xFF) >> 4);
                            let spread = folded ^ ((folded << 8) << 4);
                            spread ^ (((spread & 0xFF) << 4) << 1)
                        }),
                ;
                let upto = data@.take(i + 1);
                assert(upto.drop_last() =~= data@.take(i as int));
            }
            i += 1;
        }
        assert(data@.take(i as int) =~= data@);
        crc ^ 0xFFFF
    }

    /// Escapes `data` for the region between the frame delimiters.
    pub fn apply_byte_stuffing(data: &[u8]) -> (r: Vec<u8>)
        ensures
            r@ == stuff(data@),
    {
        let mut result: Vec<u8> = Vec::new();
        let mut i: usize = 0;
        assert(data@.skip(0) =~= data@);
        while i < data.len()
            invariant
                i <= data.len(),
                stuff(data@) == result@ + stuff(data@.skip(i as int)),
            decreases data.len() - i,
        {
            let current = data[i];
            proof {
                assert(data@.skip(i as int).skip(1) =~= data@.skip(i + 1));
            }
            let ghost sofar = result@;
            if current >= 0xFD {
                result.push(0xFD);
                result.push(current - 0xFD);
            } else {
                result.push(current);
            }
            assert(result@ + stuff(data@.skip(i + 1)) =~= sofar + stuff(data@.skip(i as int)));
            i += 1;
        }
        result
    }

    /// Whether every escape marker in `data` is followed by a valid distance.
    pub fn has_valid_escapes(data: &[u8]) -> (r: bool)
        ensures
            r == escapes_valid(data@),
    {
        let mut i: usize = 0;
        assert(data@.skip(0) =~= data@);
        while i < data.len()
            invariant
                i <= data.len(),
                escapes_valid(data@) == escapes_valid(data@.skip(i as int)),
            decreases data.len() - i,
        {
            if data[i] == ESCAPE {
                if data.len() - i < 2 || data[i + 1] > 2 {
                    return false;
                }
                assert(data@.skip(i as int).skip(2) =~= data@.skip(i + 2));
                i += 2;
            } else {
                assert(data@.skip(i as int).skip(1) =~= data@.skip(i + 1));
                i += 1;
            }
        }
        true
    }

    /// Reverses `apply_byte_stuffing`.
    pub fn revert_byte_stuffing(data: &[u8]) -> (r: Vec<u8>)
        requires
            escapes_valid(data@),
        ensures
            r@ == unstuff(data@),
    {
        let mut result: Vec<u8> = Vec::new();
        let mut i: usize = 0;
        assert(data@.skip(0) =~= data@);
        while i < data.len()
            invariant
                i <= data.len(),
                escapes_valid(data@.skip(i as int)),
                unstuff(data@) == result@ + unstuff(data@.skip(i as int)),
            decreases data.len() - i,
        {
            let current = data[i];
            let ghost sofar = result@;
            if current == ESCAPE {
                assert(data@.skip(i as int).skip(2) =~= data@.skip(i + 2));
                result.push(ESCAPE + data[i + 1]);
                assert(result@ + unstuff(data@.skip(i + 2)) =~= sofar + unstuff(
                    data@.skip(i as int),
                ));
                i += 2;
            } else {
                assert(data@.skip(i as int).skip(1) =~= data@.skip(i + 1));
                result.push(current);
                assert(result@ + unstuff(data@.skip(i + 1)) =~= sofar + unstuff(
                    data@.skip(i as int),
                ));
                i += 1;
            }
        }
        result
    }
}

} // verus!
