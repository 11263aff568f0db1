//! Building command frames and acknowledgements.

use vstd::prelude::*;
use crate::defs::{MessageElementType, ResponseCode};
use crate::defs::element_types::{layout_of, uecp_ack};
use crate::format::{ElementView, FrameView};
use crate::protocol::{counter_after, Frame, MessageElement, SequenceCounter};

verus! {

/// Code of the acknowledgement element.
pub const ACK_CODE: u8 = 0x18;

/// A frame for the broadcast addresses with one element of the given layout
/// and payload, both sub-addresses zero.
pub open spec fn command_frame(
    sequence_counter: u8,
    element_type: MessageElementType,
    data: Seq<u8>,
) -> FrameView {
    FrameView {
        sequence_counter,
        site_address: 0,
        encoder_address: 0,
        elements: seq![
            ElementView { element_type, dataset_number: 0, program_service_number: 0, data },
        ],
    }
}

/// The payload of an acknowledgement: the status, and for every status but
/// success the sequence counter of the frame that it answers.
pub open spec fn acknowledgement_data(code: ResponseCode, request_counter: u8) -> Seq<u8> {
    if code == ResponseCode::Success {
        seq![code.value()]
    } else {
        seq![code.value(), request_counter]
    }
}

/// The acknowledgement of `request` with status `code`: one acknowledgement
/// element, addressed as the request was.
pub open spec fn acknowledgement(
    sequence_counter: u8,
    request: FrameView,
    code: ResponseCode,
) -> FrameView {
    FrameView {
        site_address: request.site_address,
        encoder_address: request.encoder_address,
        ..command_frame(
            sequence_counter,
            layout_of(ACK_CODE)->0,
            acknowledgement_data(code, request.sequence_counter),
        )
    }
}

/// Builds the acknowledgement of `request` with the status `response_code`,
/// stamped with the next counter of `counter`.
pub fn acknowledge(
    counter: &mut SequenceCounter,
    request: &Frame,
    response_code: ResponseCode,
) -> (r: Frame)
    ensures
        r@ == acknowledgement(old(counter).next, request@, response_code),
        final(counter).next == counter_after(old(counter).next, 1),
{
    let mut ack_data: Vec<u8> = Vec::new();
    ack_data.push(response_code.as_u8());
    if response_code != ResponseCode::Success {
        ack_data.push(request.sequence_counter);
    }
    assert(ack_data@ =~= acknowledgement_data(response_code, request.sequence_counter));

    let mut response = create_command_frame(counter, uecp_ack(), ack_data.as_slice());
    response.set_addresses(request.site_address, request.encoder_address);
    response
}

/// Answers `request`: asks `cb` for the status and builds the
/// acknowledgement for it. There is always an answer.
pub fn process_incoming_frame<F>(counter: &mut SequenceCounter, request: &Frame, cb: F) -> (r: Option<
    Frame,
>) where F: Fn(&Frame) -> ResponseCode
    requires
        call_requires(cb, (request,)),
    ensures
        r matches Some(response) && exists|code: ResponseCode|
            call_ensures(cb, (request,), code) && response@ == acknowledgement(
                old(counter).next,
                request@,
                code,
            ),
        final(counter).next == counter_after(old(counter).next, 1),
{
    let response_code = cb(request);
    Some(acknowledge(counter, request, response_code))
}

/// Builds a frame that carries one element with the given layout and
/// payload, stamped with the next counter of `counter`.
pub fn create_command_frame(
    counter: &mut SequenceCounter,
    element_type: MessageElementType,
    data: &[u8],
) -> (r: Frame)
    ensures
        r@ == command_frame(old(counter).next, element_type, data@),
        final(counter).next == counter_after(old(counter).next, 1),
{
    let mut frame = Frame::new(counter);
    frame.elements.push(MessageElement::new(element_type, data));
    assert(frame@.elements =~= command_frame(old(counter).next, element_type, data@).elements);
    frame
}

} // verus!
