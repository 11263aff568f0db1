//! What encoding and decoding owe each other: a canonical frame comes back
//! from its own bytes, and a frame damaged within one byte is refused.

use vstd::prelude::*;
use crate::buffer::be_bytes;
use crate::checksum::{checksum16, differ_in_one_byte, lemma_checksum_detects_byte_change};
use crate::defs::{DecodeError, EncodeError};
use crate::defs::element_types::{layout_of, lemma_registry_entry};
use crate::format::{
    be_value, decode_element, decode_elements, decode_frame, decode_inner, elements_wire,
    encoder_of, next_element_length, pack_address, site_of, ElementView, FrameView, START, STOP,
};
use crate::transparency::{lemma_unstuff_stuff, stuff};

verus! {

/// Joining the big-endian bytes of a value gives the value back.
pub proof fn lemma_be_round_trip(v: u16)
    ensures
        be_bytes(v).len() == 2,
        be_value(be_bytes(v)[0], be_bytes(v)[1]) == v,
{
}

/// Unpacking an address field gives back a site address below 1024 and an
/// encoder address below 64.
pub proof fn lemma_address_round_trip(site_address: u16, encoder_address: u8)
    requires
        site_address <= 1023,
        encoder_address <= 63,
    ensures
        site_of(pack_address(site_address, encoder_address)) == site_address,
        encoder_of(pack_address(site_address, encoder_address)) == encoder_address,
{
}

/// A canonical element has an encoding, and decoding that encoding gives the
/// element back, whatever bytes follow it.
pub proof fn lemma_element_round_trip(e: ElementView, rest: Seq<u8>)
    requires
        e.canonical(),
    ensures
        e.encoded() == Ok::<Seq<u8>, EncodeError>(e.wire()),
        e.wire().len() == e.element_type.header_len() + e.data.len(),
        next_element_length(e.wire() + rest) == Some(e.wire().len()),
        decode_element(e.wire() + rest) == Ok::<ElementView, DecodeError>(e),
{
    let bytes = e.wire() + rest;
    let t = e.element_type;
    let head = t.header_len();
    lemma_registry_entry(t.code);
    assert(bytes[0] == t.code);
    if t.dsn_psn_type.has_dsn() {
        assert(bytes[1] == e.dataset_number);
    }
    if t.dsn_psn_type.has_psn() {
        assert(bytes[2] == e.program_service_number);
    }
    if t.length_type is VariableLength {
        assert(bytes[head - 1] == e.data.len() as u8);
    }
    assert(bytes.subrange(head as int, (head + e.data.len()) as int) =~= e.data);
}

/// The encodings of canonical elements, one after the other, split into the
/// same elements in the same order.
pub proof fn lemma_elements_round_trip(elements: Seq<ElementView>)
    requires
        forall|i: int| 0 <= i < elements.len() ==> (#[trigger] elements[i]).canonical(),
    ensures
        decode_elements(elements_wire(elements)) == Ok::<Seq<ElementView>, DecodeError>(elements),
    decreases elements.len(),
{
    if elements.len() == 0 {
        assert(elements =~= Seq::empty());
    } else {
        let first = elements[0];
        let others = elements.skip(1);
        let tail = elements_wire(others);
        let body = first.wire() + tail;
        assert forall|i: int| 0 <= i < others.len() implies (#[trigger] others[i]).canonical() by {
            assert(others[i] == elements[i + 1]);
        }
        lemma_element_round_trip(first, tail);
        lemma_elements_round_trip(others);
        assert(elements_wire(elements) == body);
        assert(body.skip(first.wire().len() as int) =~= tail);
        assert(seq![first] + others =~= elements);
    }
}

/// Round trip: a canonical frame has an encoding, and decoding that encoding
/// gives the frame back, field for field and element for element.
pub proof fn lemma_frame_round_trip(frame: FrameView)
    requires
        frame.canonical(),
    ensures
        frame.encoded() == Ok::<Seq<u8>, EncodeError>(frame.wire()),
        decode_frame(frame.wire()) == Ok::<FrameView, DecodeError>(frame),
{
    let protected = frame.protected();
    let inner = frame.inner();
    let wire = frame.wire();
    let body = frame.body();
    let address = pack_address(frame.site_address, frame.encoder_address);

    assert(!frame.has_oversized_element()) by {
        assert forall|i: int| 0 <= i < frame.elements.len() implies (
        #[trigger] frame.elements[i]).data.len() <= 254 by {
            let e = frame.elements[i];
            assert(e.canonical());
            lemma_registry_entry(e.element_type.code);
        }
    }

    lemma_unstuff_stuff(inner);
    assert(wire.subrange(1, wire.len() - 1) =~= stuff(inner));

    lemma_be_round_trip(checksum16(protected));
    lemma_be_round_trip(address);
    lemma_address_round_trip(frame.site_address, frame.encoder_address);
    let end = inner.len() - 2;
    assert(inner.take(end) =~= protected);
    assert(inner[end] == be_bytes(checksum16(protected))[0]);
    assert(inner[end + 1] == be_bytes(checksum16(protected))[1]);
    assert(inner[0] == be_bytes(address)[0]);
    assert(inner[1] == be_bytes(address)[1]);
    assert(inner[2] == frame.sequence_counter);
    assert(inner[3] == body.len() as u8);
    assert(inner.subrange(4, 4 + inner[3]) =~= body);
    lemma_elements_round_trip(frame.elements);
}

/// Unknown code rejection: bytes that start with a code outside the registry
/// give no element and no length, and a body that starts so gives no element
/// list; the error is `UnknownElementType` each time.
pub proof fn lemma_unknown_code_rejected(bytes: Seq<u8>)
    requires
        bytes.len() > 0,
        layout_of(bytes[0]) is None,
    ensures
        next_element_length(bytes) is None,
        decode_element(bytes) == Err::<ElementView, DecodeError>(DecodeError::UnknownElementType),
        decode_elements(bytes) == Err::<Seq<ElementView>, DecodeError>(
            DecodeError::UnknownElementType,
        ),
{
}

/// Corruption detection: when the bytes between the delimiters of a frame are
/// changed within one byte before they are escaped, whether in the protected
/// part or in the checksum, decoding fails with `CRCError`.
pub proof fn lemma_frame_corruption_detected(frame: FrameView, corrupted: Seq<u8>, at: int)
    requires
        differ_in_one_byte(frame.inner(), corrupted, at),
    ensures
        decode_inner(corrupted) == Err::<FrameView, DecodeError>(DecodeError::CRCError),
        decode_frame(seq![START] + stuff(corrupted) + seq![STOP]) == Err::<FrameView, DecodeError>(
            DecodeError::CRCError,
        ),
{
    let protected = frame.protected();
    let inner = frame.inner();
    let sum = checksum16(protected);
    let end = inner.len() - 2;
    lemma_be_round_trip(sum);
    assert(inner.take(end) =~= protected);
    assert(inner[end] == be_bytes(sum)[0]);
    assert(inner[end + 1] == be_bytes(sum)[1]);
    if at < end {
        assert(differ_in_one_byte(protected, corrupted.take(end), at));
        lemma_checksum_detects_byte_change(protected, corrupted.take(end), at);
        assert(corrupted[end] == inner[end]);
        assert(corrupted[end + 1] == inner[end + 1]);
    } else {
        assert(corrupted.take(end) =~= protected);
        if at == end {
            assert(corrupted[end + 1] == inner[end + 1]);
        } else {
            assert(corrupted[end] == inner[end]);
        }
    }
    let wire = seq![START] + stuff(corrupted) + seq![STOP];
    lemma_unstuff_stuff(corrupted);
    assert(wire.subrange(1, wire.len() - 1) =~= stuff(corrupted));
}

} // verus!
