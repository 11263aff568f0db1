use uecp_rs::defs::element_types;
use uecp_rs::defs::{DecodeError, EncodeError};
use uecp_rs::protocol::{Frame, MessageElement, SequenceCounter};

fn frame(seq: u8, site: u16, encoder: u8, elements: Vec<MessageElement>) -> Frame {
    Frame { sequence_counter: seq, site_address: site, encoder_address: encoder, elements }
}

fn element(layout: uecp_rs::defs::MessageElementType, dsn: u8, psn: u8, data: &[u8]) -> MessageElement {
    let mut e = MessageElement::new(layout, data);
    e.dataset_number = dsn;
    e.program_service_number = psn;
    e
}

fn four_elements() -> Vec<MessageElement> {
    vec![
        element(element_types::pi(), 3, 4, &[0xAB, 0xCD]),
        element(element_types::rt(), 5, 6, &[0x41, 0x42]),
        element(element_types::oda_ident(), 7, 0, &[1, 2, 3]),
        element(element_types::comm_mode(), 0, 0, &[9]),
    ]
}

const FOUR_ELEMENTS_WIRE: [u8; 30] = [
    0xFE, 0xFD, 0x02, 0xFD, 0x02, 0xFD, 0x02, 0x13, 0x01, 0x03, 0x04, 0xAB, 0xCD, 0x0A, 0x05,
    0x06, 0x02, 0x41, 0x42, 0x41, 0x07, 0x03, 0x01, 0x02, 0x03, 0x2C, 0x09, 0x3C, 0x5C, 0xFF,
];

const PI_WIRE: [u8; 13] =
    [0xFE, 0x0F, 0x8E, 0x0C, 0x05, 0x01, 0x00, 0x00, 0xC2, 0x01, 0xC7, 0x65, 0xFF];

#[test]
fn checksum_of_known_inputs() {
    assert_eq!(Frame::compute_crc16_genibus(b"123456789"), 0xD64E);
    assert_eq!(Frame::compute_crc16_genibus(&[]), 0x0000);
    assert_eq!(Frame::compute_crc16_genibus(&[0x00]), 0x1E0F);
}

#[test]
fn checksum_is_the_same_each_time() {
    let data = [0x0F, 0x8E, 0x0C, 0x05, 0x01, 0x00, 0x00, 0xC2, 0x01];
    let first = Frame::compute_crc16_genibus(&data);
    assert_eq!(first, 0xC765);
    assert_eq!(Frame::compute_crc16_genibus(&data), first);
    assert_eq!(Frame::compute_crc16_genibus(&data.to_vec()), first);
}

#[test]
fn checksum_differs_after_any_change_of_one_byte() {
    let data = [0x0F, 0x8E, 0x0C, 0x05, 0x01, 0x00, 0x00, 0xC2, 0x01];
    let sum = Frame::compute_crc16_genibus(&data);
    for at in 0..data.len() {
        for value in 0..=255u8 {
            if value != data[at] {
                let mut changed = data;
                changed[at] = value;
                assert_ne!(Frame::compute_crc16_genibus(&changed), sum);
            }
        }
    }
}

#[test]
fn stuffing_of_edge_cases() {
    assert_eq!(Frame::apply_byte_stuffing(&[]), Vec::<u8>::new());
    assert_eq!(Frame::apply_byte_stuffing(&[0xFC]), vec![0xFC]);
    assert_eq!(Frame::apply_byte_stuffing(&[0xFD]), vec![0xFD, 0x00]);
    assert_eq!(Frame::apply_byte_stuffing(&[0xFE]), vec![0xFD, 0x01]);
    assert_eq!(Frame::apply_byte_stuffing(&[0xFF]), vec![0xFD, 0x02]);
    assert_eq!(
        Frame::apply_byte_stuffing(&[0xFF, 0xFF, 0xFD]),
        vec![0xFD, 0x02, 0xFD, 0x02, 0xFD, 0x00]
    );
    assert_eq!(Frame::apply_byte_stuffing(&[0x00, 0x01, 0x02]), vec![0x00, 0x01, 0x02]);
}

#[test]
fn unstuffing_of_edge_cases() {
    assert_eq!(Frame::revert_byte_stuffing(&[]), Vec::<u8>::new());
    assert_eq!(Frame::revert_byte_stuffing(&[0xFD, 0x00]), vec![0xFD]);
    assert_eq!(Frame::revert_byte_stuffing(&[0xFD, 0x01]), vec![0xFE]);
    assert_eq!(Frame::revert_byte_stuffing(&[0xFD, 0x02]), vec![0xFF]);
    assert_eq!(Frame::revert_byte_stuffing(&[0x00, 0x01, 0x02]), vec![0x00, 0x01, 0x02]);
    // A delimiter value that was not escaped stands for itself.
    assert_eq!(Frame::revert_byte_stuffing(&[0x01, 0xFE, 0xFF]), vec![0x01, 0xFE, 0xFF]);
}

#[test]
fn stuffing_round_trip_of_every_byte() {
    let all: Vec<u8> = (0..=255u8).collect();
    let stuffed = Frame::apply_byte_stuffing(&all);
    assert_eq!(stuffed.len(), 259);
    assert!(stuffed.iter().all(|b| *b <= 0xFD));
    assert!(Frame::has_valid_escapes(&stuffed));
    assert_eq!(Frame::revert_byte_stuffing(&stuffed), all);
}

#[test]
fn escapes_are_checked() {
    assert!(Frame::has_valid_escapes(&[]));
    assert!(Frame::has_valid_escapes(&[0x12, 0xFD, 0x00, 0x15, 0xFD, 0x02, 0xAB, 0xFD, 0x01]));
    assert!(Frame::has_valid_escapes(&[0xFE, 0xFF]));
    // A marker at the end.
    assert!(!Frame::has_valid_escapes(&[0xFD]));
    assert!(!Frame::has_valid_escapes(&[0x12, 0xFD, 0x00, 0xFD]));
    // A marker before a distance above two.
    assert!(!Frame::has_valid_escapes(&[0xFD, 0x03]));
    assert!(!Frame::has_valid_escapes(&[0xFD, 0xFD, 0x00]));
    assert!(!Frame::has_valid_escapes(&[0x01, 0xFD, 0xFF, 0x02]));
}

#[test]
fn address_field_bounds() {
    assert_eq!(Frame::get_address_field(0, 0), Ok(0x0000));
    assert_eq!(Frame::get_address_field(1023, 63), Ok(0xFFFF));
    assert_eq!(Frame::get_address_field(62, 14), Ok(0x0F8E));
    assert_eq!(Frame::get_address_field(1, 0), Ok(0x0040));
    assert_eq!(Frame::get_address_field(1024, 0), Err(EncodeError::InvalidSiteAddress));
    assert_eq!(Frame::get_address_field(0xFFFF, 0), Err(EncodeError::InvalidSiteAddress));
    assert_eq!(Frame::get_address_field(0, 65), Err(EncodeError::InvalidEncoderAddress));
    assert_eq!(Frame::get_address_field(0, 255), Err(EncodeError::InvalidEncoderAddress));
    // The site address is checked first.
    assert_eq!(Frame::get_address_field(1024, 65), Err(EncodeError::InvalidSiteAddress));
}

#[test]
fn encoder_address_64_is_accepted_and_packs_as_zero() {
    // 64 passes the bound although six bits hold 0 to 63 only.
    assert_eq!(Frame::get_address_field(5, 64), Ok(0x0140));
    assert_eq!(Frame::get_address_field(5, 0), Ok(0x0140));
    let sent = frame(1, 5, 64, vec![]);
    let wire = sent.into_bytes().unwrap();
    assert_eq!(wire, vec![0xFE, 0x01, 0x40, 0x01, 0x00, 0x23, 0x17, 0xFF]);
    let received = Frame::from_bytes(&wire).unwrap();
    assert_eq!(received.site_address, 5);
    assert_eq!(received.encoder_address, 0);
}

#[test]
fn new_frame_is_empty_and_takes_the_next_counter() {
    let mut counter = SequenceCounter::new();
    let first = Frame::new(&mut counter);
    assert_eq!(first, frame(1, 0, 0, vec![]));
    let second = Frame::new(&mut counter);
    assert_eq!(second.sequence_counter, 2);
    assert_eq!(counter.next, 3);
}

#[test]
fn set_addresses_changes_the_addresses_only() {
    let mut f = frame(9, 1, 2, four_elements());
    f.set_addresses(341, 21);
    assert_eq!(f, frame(9, 341, 21, four_elements()));
    // Nothing is checked here.
    f.set_addresses(5000, 200);
    assert_eq!(f.site_address, 5000);
    assert_eq!(f.encoder_address, 200);
}

#[test]
fn encode_an_empty_frame() {
    assert_eq!(
        frame(7, 0, 0, vec![]).into_bytes(),
        Ok(vec![0xFE, 0x00, 0x00, 0x07, 0x00, 0xE2, 0xA8, 0xFF])
    );
}

#[test]
fn encode_four_elements_with_escaped_header() {
    let f = frame(255, 1023, 63, four_elements());
    assert_eq!(f.into_bytes(), Ok(FOUR_ELEMENTS_WIRE.to_vec()));
}

#[test]
fn encode_escapes_counter_and_payload() {
    let f = frame(0xFD, 0, 0, vec![MessageElement::new(element_types::pi(), &[0xFE, 0xFF])]);
    assert_eq!(
        f.into_bytes(),
        Ok(vec![
            0xFE, 0x00, 0x00, 0xFD, 0x00, 0x05, 0x01, 0x00, 0x00, 0xFD, 0x01, 0xFD, 0x02, 0xE5,
            0x71, 0xFF
        ])
    );
}

#[test]
fn encode_refuses_an_oversized_element() {
    let big = MessageElement::new(element_types::specific_command(), &vec![0u8; 255]);
    let f = frame(1, 0, 0, vec![MessageElement::new(element_types::comm_mode(), &[1]), big]);
    assert_eq!(f.into_bytes(), Err(EncodeError::ElementTooLarge));
}

#[test]
fn encode_body_of_255_bytes_fits_and_256_does_not() {
    // 2 + 253 payload bytes: a body of 255 bytes.
    let fits = frame(
        1,
        0,
        0,
        vec![MessageElement::new(element_types::specific_command(), &vec![0u8; 253])],
    );
    let wire = fits.into_bytes().unwrap();
    // The body length 255 is itself escaped.
    assert_eq!(&wire[..8], &[0xFE, 0x00, 0x00, 0x01, 0xFD, 0x02, 0x2D, 253]);
    assert_eq!(Frame::from_bytes(&wire), Ok(fits));
    // 2 + 254 payload bytes: a body of 256 bytes.
    let over = frame(
        1,
        0,
        0,
        vec![MessageElement::new(element_types::specific_command(), &vec![0u8; 254])],
    );
    assert_eq!(over.into_bytes(), Err(EncodeError::MessageTooLarge));
}

#[test]
fn encode_errors_in_their_order() {
    let big = MessageElement::new(element_types::specific_command(), &vec![0u8; 255]);
    let long: Vec<MessageElement> =
        (0..2).map(|_| MessageElement::new(element_types::specific_command(), &vec![0u8; 200])).collect();
    // An oversized element comes before everything else.
    assert_eq!(frame(1, 2000, 70, vec![big]).into_bytes(), Err(EncodeError::ElementTooLarge));
    // Then the body length.
    assert_eq!(frame(1, 2000, 70, long).into_bytes(), Err(EncodeError::MessageTooLarge));
    // Then the site address, then the encoder address.
    assert_eq!(frame(1, 2000, 70, vec![]).into_bytes(), Err(EncodeError::InvalidSiteAddress));
    assert_eq!(frame(1, 1023, 70, vec![]).into_bytes(), Err(EncodeError::InvalidEncoderAddress));
}

#[test]
fn decode_the_programme_identification_frame() {
    let decoded = Frame::from_bytes(&PI_WIRE).unwrap();
    assert_eq!(
        decoded,
        frame(12, 62, 14, vec![MessageElement::new(element_types::pi(), &[0xC2, 0x01])])
    );
}

#[test]
fn decode_four_elements_in_order() {
    assert_eq!(Frame::from_bytes(&FOUR_ELEMENTS_WIRE), Ok(frame(255, 1023, 63, four_elements())));
}

#[test]
fn decode_does_not_look_at_the_delimiters() {
    let mut wire = PI_WIRE.to_vec();
    wire[0] = 0x00;
    wire[12] = 0x00;
    let decoded = Frame::from_bytes(&wire).unwrap();
    assert_eq!(decoded.sequence_counter, 12);
    assert_eq!(decoded.elements.len(), 1);
}

#[test]
fn decode_short_input() {
    assert_eq!(Frame::from_bytes(&[]), Err(DecodeError::MessageTooShort));
    assert_eq!(Frame::from_bytes(&[0xFE]), Err(DecodeError::MessageTooShort));
    assert_eq!(Frame::from_bytes(&[0xFE, 0xFF]), Err(DecodeError::MessageTooShort));
    assert_eq!(Frame::from_bytes(&[0xFE, 0x00, 0xFF]), Err(DecodeError::MessageTooShort));
}

#[test]
fn decode_bad_stuffing() {
    let mut marker_at_end = PI_WIRE.to_vec();
    marker_at_end[11] = 0xFD;
    assert_eq!(Frame::from_bytes(&marker_at_end), Err(DecodeError::BadStuffing));
    let mut bad_distance = PI_WIRE.to_vec();
    bad_distance[5] = 0xFD;
    bad_distance[6] = 0x03;
    assert_eq!(Frame::from_bytes(&bad_distance), Err(DecodeError::BadStuffing));
}

#[test]
fn decode_checksum_mismatch() {
    let mut wire = PI_WIRE.to_vec();
    wire[10] = 0xC8;
    assert_eq!(Frame::from_bytes(&wire), Err(DecodeError::CRCError));
    // Two bytes that are no checksum of nothing.
    assert_eq!(Frame::from_bytes(&[0xFE, 0x12, 0x34, 0xFF]), Err(DecodeError::CRCError));
}

fn with_checksum(protected: &[u8]) -> Vec<u8> {
    let sum = Frame::compute_crc16_genibus(protected);
    let mut inner = protected.to_vec();
    inner.push((sum >> 8) as u8);
    inner.push((sum & 0xFF) as u8);
    let mut wire = vec![0xFE];
    wire.extend(Frame::apply_byte_stuffing(&inner));
    wire.push(0xFF);
    wire
}

#[test]
fn decode_valid_checksum_over_a_short_header() {
    // The checksum of the empty sequence is zero.
    assert_eq!(Frame::from_bytes(&[0xFE, 0x00, 0x00, 0xFF]), Err(DecodeError::MessageTooShort));
    assert_eq!(Frame::from_bytes(&with_checksum(&[0x0F, 0x8E, 0x0C])), Err(DecodeError::MessageTooShort));
}

#[test]
fn decode_body_length_beyond_the_frame() {
    let wire = with_checksum(&[0x0F, 0x8E, 0x0C, 0x06, 0x01, 0x00, 0x00, 0xC2, 0x01]);
    assert_eq!(Frame::from_bytes(&wire), Err(DecodeError::MessageTooShort));
}

#[test]
fn decode_ignores_bytes_between_body_and_checksum() {
    let wire = with_checksum(&[0x0F, 0x8E, 0x0C, 0x05, 0x01, 0x00, 0x00, 0xC2, 0x01, 0x77, 0x78]);
    let decoded = Frame::from_bytes(&wire).unwrap();
    assert_eq!(
        decoded,
        frame(12, 62, 14, vec![MessageElement::new(element_types::pi(), &[0xC2, 0x01])])
    );
}

#[test]
fn decode_unknown_element_in_the_body() {
    let first = with_checksum(&[0x0F, 0x8E, 0x0C, 0x02, 0x00, 0x01]);
    assert_eq!(Frame::from_bytes(&first), Err(DecodeError::UnknownElementType));
    let second = with_checksum(&[0x0F, 0x8E, 0x0C, 0x04, 0x2C, 0x09, 0x08, 0x00]);
    assert_eq!(Frame::from_bytes(&second), Err(DecodeError::UnknownElementType));
}

#[test]
fn decode_element_that_runs_past_the_body() {
    // A fixed element of five bytes in a body of four.
    let fixed = with_checksum(&[0x0F, 0x8E, 0x0C, 0x04, 0x01, 0x00, 0x00, 0xC2]);
    assert_eq!(Frame::from_bytes(&fixed), Err(DecodeError::MessageTooShort));
    // A length byte that announces more than the body holds.
    let prefixed = with_checksum(&[0x0F, 0x8E, 0x0C, 0x04, 0x2D, 0x05, 0x01, 0x02]);
    assert_eq!(Frame::from_bytes(&prefixed), Err(DecodeError::MessageTooShort));
    // A body that ends before the length byte.
    let no_length = with_checksum(&[0x0F, 0x8E, 0x0C, 0x03, 0x0A, 0x00, 0x00]);
    assert_eq!(Frame::from_bytes(&no_length), Err(DecodeError::MessageTooShort));
}

#[test]
fn decode_message_field_splits_a_body() {
    let body = [
        0x01, 0x03, 0x04, 0xAB, 0xCD, 0x0A, 0x05, 0x06, 0x02, 0x41, 0x42, 0x41, 0x07, 0x03, 0x01,
        0x02, 0x03, 0x2C, 0x09,
    ];
    assert_eq!(Frame::decode_message_field(&body), Ok(four_elements()));
    assert_eq!(Frame::decode_message_field(&[]), Ok(vec![]));
    assert_eq!(Frame::decode_message_field(&[0x2C, 0x09, 0x00]), Err(DecodeError::UnknownElementType));
    assert_eq!(Frame::decode_message_field(&[0x2C, 0x09, 0x01, 0x00]), Err(DecodeError::MessageTooShort));
    assert_eq!(Frame::decode_message_field(&[0x2C, 0x09, 0x2D]), Err(DecodeError::MessageTooShort));
}

#[test]
fn frame_round_trip_with_escapes_everywhere() {
    let source = frame(
        0xFE,
        1023,
        61,
        vec![
            element(element_types::ps(), 0xFD, 0xFE, &[0xFF, 0xFE, 0xFD, 0xFC, 0, 1, 2, 0xFF]),
            element(element_types::rt(), 0xFF, 0xFF, &[0xFD; 40]),
            element(element_types::tdc(), 0, 0, &[]),
        ],
    );
    let wire = source.into_bytes().unwrap();
    assert_eq!(wire[0], 0xFE);
    assert_eq!(wire[wire.len() - 1], 0xFF);
    assert!(wire[1..wire.len() - 1].iter().all(|b| *b <= 0xFD));
    assert_eq!(Frame::from_bytes(&wire), Ok(source));
}

#[test]
fn any_flipped_bit_between_the_delimiters_is_detected() {
    for at in 1..PI_WIRE.len() - 1 {
        for bit in 0..8 {
            let mut wire = PI_WIRE.to_vec();
            wire[at] ^= 1 << bit;
            assert_eq!(Frame::from_bytes(&wire), Err(DecodeError::CRCError));
        }
    }
}

#[test]
fn any_changed_byte_before_escaping_is_detected() {
    let inner = [0x0F, 0x8E, 0x0C, 0x05, 0x01, 0x00, 0x00, 0xC2, 0x01, 0xC7, 0x65];
    for at in 0..inner.len() {
        for value in 0..=255u8 {
            if value != inner[at] {
                let mut changed = inner.to_vec();
                changed[at] = value;
                let mut wire = vec![0xFE];
                wire.extend(Frame::apply_byte_stuffing(&changed));
                wire.push(0xFF);
                assert_eq!(Frame::from_bytes(&wire), Err(DecodeError::CRCError));
            }
        }
    }
}

#[test]
fn sequence_counter_starts_at_one_and_wraps() {
    let mut counter = SequenceCounter::new();
    assert_eq!(counter.fetch(), 1);
    assert_eq!(counter.fetch(), 2);
    counter.next = 255;
    assert_eq!(counter.fetch(), 255);
    assert_eq!(counter.fetch(), 0);
    assert_eq!(counter.fetch(), 1);
}

#[test]
fn sequence_counters_cover_a_full_cycle_before_repeating() {
    let mut counter = SequenceCounter::new();
    let mut seen = [false; 256];
    for _ in 0..256 {
        let value = Frame::new(&mut counter).sequence_counter;
        assert!(!seen[value as usize]);
        seen[value as usize] = true;
    }
    assert!(seen.iter().all(|s| *s));
    assert_eq!(Frame::new(&mut counter).sequence_counter, 1);
}
