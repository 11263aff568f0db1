//! The registry of element codes: for each code that the protocol defines,
//! the layout of the element that it introduces.

use vstd::prelude::*;
use crate::defs::{DSNPSNType, LengthType, MessageElementType};

verus! {

/// Largest payload width of a fixed-length element in the registry.
pub const MAX_FIXED_WIDTH: usize = 8;

/// The layout with the given code and fields.
pub open spec fn layout(code: u8, dsn_psn_type: DSNPSNType, length_type: LengthType) -> MessageElementType {
    MessageElementType { code, dsn_psn_type, length_type }
}

/// The registry as a table: the layout registered under `code`, if any.
pub open spec fn layout_of(code: u8) -> Option<MessageElementType> {
    match code {
        0x01 => Some(layout(0x01, DSNPSNType::All, LengthType::FixedLength(2))),
        0x02 => Some(layout(0x02, DSNPSNType::All, LengthType::FixedLength(8))),
        0x03 => Some(layout(0x03, DSNPSNType::All, LengthType::FixedLength(1))),
        0x04 => Some(layout(0x04, DSNPSNType::All, LengthType::FixedLength(1))),
        0x05 => Some(layout(0x05, DSNPSNType::All, LengthType::FixedLength(1))),
        0x06 => Some(layout(0x06, DSNPSNType::All, LengthType::FixedLength(2))),
        0x07 => Some(layout(0x07, DSNPSNType::All, LengthType::FixedLength(1))),
        0x09 => Some(layout(0x09, DSNPSNType::Neither, LengthType::FixedLength(2))),
        0x0A => Some(layout(0x0A, DSNPSNType::All, LengthType::VariableLength)),
        0x0B => Some(layout(0x0B, DSNPSNType::DSNOnly, LengthType::VariableLength)),
        0x0D => Some(layout(0x0D, DSNPSNType::Neither, LengthType::FixedLength(8))),
        0x0E => Some(layout(0x0E, DSNPSNType::Neither, LengthType::FixedLength(2))),
        0x13 => Some(layout(0x13, DSNPSNType::All, LengthType::VariableLength)),
        0x14 => Some(layout(0x14, DSNPSNType::All, LengthType::VariableLength)),
        0x15 => Some(layout(0x15, DSNPSNType::Neither, LengthType::FixedLength(2))),
        0x16 => Some(layout(0x16, DSNPSNType::DSNOnly, LengthType::VariableLength)),
        0x17 => Some(layout(0x17, DSNPSNType::Neither, LengthType::VariableLength)),
        0x18 => Some(layout(0x18, DSNPSNType::Neither, LengthType::FixedLength(2))),
        0x19 => Some(layout(0x19, DSNPSNType::Neither, LengthType::FixedLength(1))),
        0x1A => Some(layout(0x1A, DSNPSNType::DSNOnly, LengthType::FixedLength(2))),
        0x1C => Some(layout(0x1C, DSNPSNType::Neither, LengthType::FixedLength(1))),
        0x1D => Some(layout(0x1D, DSNPSNType::Neither, LengthType::FixedLength(1))),
        0x1E => Some(layout(0x1E, DSNPSNType::Neither, LengthType::FixedLength(1))),
        0x22 => Some(layout(0x22, DSNPSNType::Neither, LengthType::FixedLength(2))),
        0x23 => Some(layout(0x23, DSNPSNType::Neither, LengthType::FixedLength(3))),
        0x24 => Some(layout(0x24, DSNPSNType::Neither, LengthType::FixedLength(6))),
        0x25 => Some(layout(0x25, DSNPSNType::Neither, LengthType::FixedLength(6))),
        0x26 => Some(layout(0x26, DSNPSNType::Neither, LengthType::VariableLength)),
        0x27 => Some(layout(0x27, DSNPSNType::Neither, LengthType::FixedLength(2))),
        0x28 => Some(layout(0x28, DSNPSNType::DSNOnly, LengthType::VariableLength)),
        0x29 => Some(layout(0x29, DSNPSNType::DSNOnly, LengthType::VariableLength)),
        0x2A => Some(layout(0x2A, DSNPSNType::Neither, LengthType::FixedLength(2))),
        0x2B => Some(layout(0x2B, DSNPSNType::Neither, LengthType::FixedLength(5))),
        0x2C => Some(layout(0x2C, DSNPSNType::Neither, LengthType::FixedLength(1))),
        0x2D => Some(layout(0x2D, DSNPSNType::Neither, LengthType::VariableLength)),
        0x2E => Some(layout(0x2E, DSNPSNType::All, LengthType::FixedLength(2))),
        0x30 => Some(layout(0x30, DSNPSNType::Neither, LengthType::VariableLength)),
        0x38 => Some(layout(0x38, DSNPSNType::DSNOnly, LengthType::VariableLength)),
        0x3A => Some(layout(0x3A, DSNPSNType::Neither, LengthType::FixedLength(3))),
        0x3B => Some(layout(0x3B, DSNPSNType::Neither, LengthType::FixedLength(2))),
        0x3C => Some(layout(0x3C, DSNPSNType::Neither, LengthType::FixedLength(2))),
        0x3D => Some(layout(0x3D, DSNPSNType::Neither, LengthType::FixedLength(2))),
        0x3E => Some(layout(0x3E, DSNPSNType::All, LengthType::FixedLength(8))),
        0x3F => Some(layout(0x3F, DSNPSNType::All, LengthType::FixedLength(1))),
        0x40 => Some(layout(0x40, DSNPSNType::Neither, LengthType::FixedLength(7))),
        0x41 => Some(layout(0x41, DSNPSNType::DSNOnly, LengthType::VariableLength)),
        0x42 => Some(layout(0x42, DSNPSNType::Neither, LengthType::FixedLength(7))),
        0x43 => Some(layout(0x43, DSNPSNType::Neither, LengthType::VariableLength)),
        0x44 => Some(layout(0x44, DSNPSNType::Neither, LengthType::FixedLength(2))),
        0x45 => Some(layout(0x45, DSNPSNType::Neither, LengthType::FixedLength(4))),
        0x46 => Some(layout(0x46, DSNPSNType::Neither, LengthType::VariableLength)),
        0x47 => Some(layout(0x47, DSNPSNType::Neither, LengthType::FixedLength(4))),
        0x48 => Some(layout(0x48, DSNPSNType::Neither, LengthType::VariableLength)),
        0xAA => Some(layout(0xAA, DSNPSNType::Neither, LengthType::VariableLength)),
        _ => None,
    }
}

/// Whether `t` is a layout of the registry, under its own code.
pub open spec fn registered(t: MessageElementType) -> bool {
    layout_of(t.code) == Some(t)
}

/// A registered layout stands under its own code, and a fixed payload width in
/// the registry is at most `MAX_FIXED_WIDTH`.
pub proof fn lemma_registry_entry(code: u8)
    ensures
        layout_of(code) matches Some(t) ==> {
            &&& t.code == code
            &&& registered(t)
            &&& (t.length_type matches LengthType::FixedLength(n) ==> n <= MAX_FIXED_WIDTH)
        },
{
}

/// Looks `code` up in the registry.
pub fn from_code(code: u8) -> (r: Option<MessageElementType>)
    ensures
        r == layout_of(code),
{
    match code {
        0x01 => Some(pi()),
        0x02 => Some(ps()),
        0x03 => Some(ta_tp()),
        0x04 => Some(di()),
        0x05 => Some(ms()),
        0x06 => Some(pin()),
        0x07 => Some(pty()),
        0x09 => Some(rtc_correction()),
        0x0A => Some(rt()),
        0x0B => Some(psn_toggle()),
        0x0D => Some(rtc()),
        0x0E => Some(rds_level()),
        0x13 => Some(af()),
        0x14 => Some(eon_af()),
        0x15 => Some(eon_ta_control()),
        0x16 => Some(group_sequence()),
        0x17 => Some(uecp_request()),
        0x18 => Some(uecp_ack()),
        0x19 => Some(ct_on_off()),
        0x1A => Some(slow_labeling()),
        0x1C => Some(dataset_select()),
        0x1D => Some(reference_input_select()),
        0x1E => Some(rds_on_off()),
        0x22 => Some(rds_phase()),
        0x23 => Some(site_address()),
        0x24 => Some(free_format()),
        0x25 => Some(ih()),
        0x26 => Some(tdc()),
        0x27 => Some(encoder_address()),
        0x28 => Some(make_psn_list()),
        0x29 => Some(group_variant_code_sequence()),
        0x2A => Some(ta_control()),
        0x2B => Some(ews()),
        0x2C => Some(comm_mode()),
        0x2D => Some(specific_command()),
        0x2E => Some(linkage_info()),
        0x30 => Some(tmc()),
        0x38 => Some(extended_group_sequence()),
        0x3A => Some(encoder_access_right()),
        0x3B => Some(comm_port_mode()),
        0x3C => Some(comm_port_speed()),
        0x3D => Some(comm_port_timeout()),
        0x3E => Some(ptyn()),
        0x3F => Some(eon_elements_toggle()),
        0x40 => Some(oda_config()),
        0x41 => Some(oda_ident()),
        0x42 => Some(oda_free_format()),
        0x43 => Some(oda_priority()),
        0x44 => Some(oda_burst_mode()),
        0x45 => Some(oda_spinning_wheel()),
        0x46 => Some(oda_data()),
        0x47 => Some(oda_data_acl()),
        0x48 => Some(dab_dl_command()),
        0xAA => Some(dab_dl_message()),
        _ => None,
    }
}

/// Programme identification.
pub fn pi() -> (r: MessageElementType)
    ensures
        layout_of(0x01) == Some(r),
{
    MessageElementType::new(0x01, DSNPSNType::All, LengthType::FixedLength(2))
}

/// Programme service name.
pub fn ps() -> (r: MessageElementType)
    ensures
        layout_of(0x02) == Some(r),
{
    MessageElementType::new(0x02, DSNPSNType::All, LengthType::FixedLength(8))
}

/// Programme item number.
pub fn pin() -> (r: MessageElementType)
    ensures
        layout_of(0x06) == Some(r),
{
    MessageElementType::new(0x06, DSNPSNType::All, LengthType::FixedLength(2))
}

/// Decoder information.
pub fn di() -> (r: MessageElementType)
    ensures
        layout_of(0x04) == Some(r),
{
    MessageElementType::new(0x04, DSNPSNType::All, LengthType::FixedLength(1))
}

/// Traffic announcement and traffic programme flags.
pub fn ta_tp() -> (r: MessageElementType)
    ensures
        layout_of(0x03) == Some(r),
{
    MessageElementType::new(0x03, DSNPSNType::All, LengthType::FixedLength(1))
}

/// Music/speech switch.
pub fn ms() -> (r: MessageElementType)
    ensures
        layout_of(0x05) == Some(r),
{
    MessageElementType::new(0x05, DSNPSNType::All, LengthType::FixedLength(1))
}

/// Programme type.
pub fn pty() -> (r: MessageElementType)
    ensures
        layout_of(0x07) == Some(r),
{
    MessageElementType::new(0x07, DSNPSNType::All, LengthType::FixedLength(1))
}

/// Programme type name.
pub fn ptyn() -> (r: MessageElementType)
    ensures
        layout_of(0x3E) == Some(r),
{
    MessageElementType::new(0x3E, DSNPSNType::All, LengthType::FixedLength(8))
}

/// Radiotext.
pub fn rt() -> (r: MessageElementType)
    ensures
        layout_of(0x0A) == Some(r),
{
    MessageElementType::new(0x0A, DSNPSNType::All, LengthType::VariableLength)
}

/// Alternative frequencies.
pub fn af() -> (r: MessageElementType)
    ensures
        layout_of(0x13) == Some(r),
{
    MessageElementType::new(0x13, DSNPSNType::All, LengthType::VariableLength)
}

/// Alternative frequencies of other networks.
pub fn eon_af() -> (r: MessageElementType)
    ensures
        layout_of(0x14) == Some(r),
{
    MessageElementType::new(0x14, DSNPSNType::All, LengthType::VariableLength)
}

/// Slow labelling codes.
pub fn slow_labeling() -> (r: MessageElementType)
    ensures
        layout_of(0x1A) == Some(r),
{
    MessageElementType::new(0x1A, DSNPSNType::DSNOnly, LengthType::FixedLength(2))
}

/// Linkage information.
pub fn linkage_info() -> (r: MessageElementType)
    ensures
        layout_of(0x2E) == Some(r),
{
    MessageElementType::new(0x2E, DSNPSNType::All, LengthType::FixedLength(2))
}

/// Open data application: configuration and short message.
pub fn oda_config() -> (r: MessageElementType)
    ensures
        layout_of(0x40) == Some(r),
{
    MessageElementType::new(0x40, DSNPSNType::Neither, LengthType::FixedLength(7))
}

/// Open data application: identification group usage sequence.
pub fn oda_ident() -> (r: MessageElementType)
    ensures
        layout_of(0x41) == Some(r),
{
    MessageElementType::new(0x41, DSNPSNType::DSNOnly, LengthType::VariableLength)
}

/// Open data application: free-format group.
pub fn oda_free_format() -> (r: MessageElementType)
    ensures
        layout_of(0x42) == Some(r),
{
    MessageElementType::new(0x42, DSNPSNType::Neither, LengthType::FixedLength(7))
}

/// Open data application: relative priority group sequence.
pub fn oda_priority() -> (r: MessageElementType)
    ensures
        layout_of(0x43) == Some(r),
{
    MessageElementType::new(0x43, DSNPSNType::Neither, LengthType::VariableLength)
}

/// Open data application: burst mode control.
pub fn oda_burst_mode() -> (r: MessageElementType)
    ensures
        layout_of(0x44) == Some(r),
{
    MessageElementType::new(0x44, DSNPSNType::Neither, LengthType::FixedLength(2))
}

/// Open data application: spinning wheel timing control.
pub fn oda_spinning_wheel() -> (r: MessageElementType)
    ensures
        layout_of(0x45) == Some(r),
{
    MessageElementType::new(0x45, DSNPSNType::Neither, LengthType::FixedLength(4))
}

/// Open data application: data.
pub fn oda_data() -> (r: MessageElementType)
    ensures
        layout_of(0x46) == Some(r),
{
    MessageElementType::new(0x46, DSNPSNType::Neither, LengthType::VariableLength)
}

/// Open data application: data command access right.
pub fn oda_data_acl() -> (r: MessageElementType)
    ensures
        layout_of(0x47) == Some(r),
{
    MessageElementType::new(0x47, DSNPSNType::Neither, LengthType::FixedLength(4))
}

/// Transparent data channel.
pub fn tdc() -> (r: MessageElementType)
    ensures
        layout_of(0x26) == Some(r),
{
    MessageElementType::new(0x26, DSNPSNType::Neither, LengthType::VariableLength)
}

/// Emergency warning system.
pub fn ews() -> (r: MessageElementType)
    ensures
        layout_of(0x2B) == Some(r),
{
    MessageElementType::new(0x2B, DSNPSNType::Neither, LengthType::FixedLength(5))
}

/// In-house application.
pub fn ih() -> (r: MessageElementType)
    ensures
        layout_of(0x25) == Some(r),
{
    MessageElementType::new(0x25, DSNPSNType::Neither, LengthType::FixedLength(6))
}

/// Traffic message channel.
pub fn tmc() -> (r: MessageElementType)
    ensures
        layout_of(0x30) == Some(r),
{
    MessageElementType::new(0x30, DSNPSNType::Neither, LengthType::VariableLength)
}

/// Free-format group.
pub fn free_format() -> (r: MessageElementType)
    ensures
        layout_of(0x24) == Some(r),
{
    MessageElementType::new(0x24, DSNPSNType::Neither, LengthType::FixedLength(6))
}

/// Real time clock.
pub fn rtc() -> (r: MessageElementType)
    ensures
        layout_of(0x0D) == Some(r),
{
    MessageElementType::new(0x0D, DSNPSNType::Neither, LengthType::FixedLength(8))
}

/// Real time clock correction.
pub fn rtc_correction() -> (r: MessageElementType)
    ensures
        layout_of(0x09) == Some(r),
{
    MessageElementType::new(0x09, DSNPSNType::Neither, LengthType::FixedLength(2))
}

/// Clock-time group on or off.
pub fn ct_on_off() -> (r: MessageElementType)
    ensures
        layout_of(0x19) == Some(r),
{
    MessageElementType::new(0x19, DSNPSNType::Neither, LengthType::FixedLength(1))
}

/// Data signal on or off.
pub fn rds_on_off() -> (r: MessageElementType)
    ensures
        layout_of(0x1E) == Some(r),
{
    MessageElementType::new(0x1E, DSNPSNType::Neither, LengthType::FixedLength(1))
}

/// Data signal phase.
pub fn rds_phase() -> (r: MessageElementType)
    ensures
        layout_of(0x22) == Some(r),
{
    MessageElementType::new(0x22, DSNPSNType::Neither, LengthType::FixedLength(2))
}

/// Data signal level.
pub fn rds_level() -> (r: MessageElementType)
    ensures
        layout_of(0x0E) == Some(r),
{
    MessageElementType::new(0x0E, DSNPSNType::Neither, LengthType::FixedLength(2))
}

/// Site address list entry.
pub fn site_address() -> (r: MessageElementType)
    ensures
        layout_of(0x23) == Some(r),
{
    MessageElementType::new(0x23, DSNPSNType::Neither, LengthType::FixedLength(3))
}

/// Encoder address list entry.
pub fn encoder_address() -> (r: MessageElementType)
    ensures
        layout_of(0x27) == Some(r),
{
    MessageElementType::new(0x27, DSNPSNType::Neither, LengthType::FixedLength(2))
}

/// Make the list of programme service numbers.
pub fn make_psn_list() -> (r: MessageElementType)
    ensures
        layout_of(0x28) == Some(r),
{
    MessageElementType::new(0x28, DSNPSNType::DSNOnly, LengthType::VariableLength)
}

/// Enable or disable programme service numbers.
pub fn psn_toggle() -> (r: MessageElementType)
    ensures
        layout_of(0x0B) == Some(r),
{
    MessageElementType::new(0x0B, DSNPSNType::DSNOnly, LengthType::VariableLength)
}

/// Enable or disable elements of other networks.
pub fn eon_elements_toggle() -> (r: MessageElementType)
    ensures
        layout_of(0x3F) == Some(r),
{
    MessageElementType::new(0x3F, DSNPSNType::All, LengthType::FixedLength(1))
}

/// Communication mode.
pub fn comm_mode() -> (r: MessageElementType)
    ensures
        layout_of(0x2C) == Some(r),
{
    MessageElementType::new(0x2C, DSNPSNType::Neither, LengthType::FixedLength(1))
}

/// Traffic announcement control.
pub fn ta_control() -> (r: MessageElementType)
    ensures
        layout_of(0x2A) == Some(r),
{
    MessageElementType::new(0x2A, DSNPSNType::Neither, LengthType::FixedLength(2))
}

/// Traffic announcement control of other networks.
pub fn eon_ta_control() -> (r: MessageElementType)
    ensures
        layout_of(0x15) == Some(r),
{
    MessageElementType::new(0x15, DSNPSNType::Neither, LengthType::FixedLength(2))
}

/// Reference input selection.
pub fn reference_input_select() -> (r: MessageElementType)
    ensures
        layout_of(0x1D) == Some(r),
{
    MessageElementType::new(0x1D, DSNPSNType::Neither, LengthType::FixedLength(1))
}

/// Dataset selection.
pub fn dataset_select() -> (r: MessageElementType)
    ensures
        layout_of(0x1C) == Some(r),
{
    MessageElementType::new(0x1C, DSNPSNType::Neither, LengthType::FixedLength(1))
}

/// Group sequence.
pub fn group_sequence() -> (r: MessageElementType)
    ensures
        layout_of(0x16) == Some(r),
{
    MessageElementType::new(0x16, DSNPSNType::DSNOnly, LengthType::VariableLength)
}

/// Extended group sequence.
pub fn extended_group_sequence() -> (r: MessageElementType)
    ensures
        layout_of(0x38) == Some(r),
{
    MessageElementType::new(0x38, DSNPSNType::DSNOnly, LengthType::VariableLength)
}

/// Group variant code sequence.
pub fn group_variant_code_sequence() -> (r: MessageElementType)
    ensures
        layout_of(0x29) == Some(r),
{
    MessageElementType::new(0x29, DSNPSNType::DSNOnly, LengthType::VariableLength)
}

/// Encoder access right.
pub fn encoder_access_right() -> (r: MessageElementType)
    ensures
        layout_of(0x3A) == Some(r),
{
    MessageElementType::new(0x3A, DSNPSNType::Neither, LengthType::FixedLength(3))
}

/// Communication port mode.
pub fn comm_port_mode() -> (r: MessageElementType)
    ensures
        layout_of(0x3B) == Some(r),
{
    MessageElementType::new(0x3B, DSNPSNType::Neither, LengthType::FixedLength(2))
}

/// Communication port speed.
pub fn comm_port_speed() -> (r: MessageElementType)
    ensures
        layout_of(0x3C) == Some(r),
{
    MessageElementType::new(0x3C, DSNPSNType::Neither, LengthType::FixedLength(2))
}

/// Communication port timeout.
pub fn comm_port_timeout() -> (r: MessageElementType)
    ensures
        layout_of(0x3D) == Some(r),
{
    MessageElementType::new(0x3D, DSNPSNType::Neither, LengthType::FixedLength(2))
}

/// Message acknowledgement.
pub fn uecp_ack() -> (r: MessageElementType)
    ensures
        layout_of(0x18) == Some(r),
{
    MessageElementType::new(0x18, DSNPSNType::Neither, LengthType::FixedLength(2))
}

/// Request message.
pub fn uecp_request() -> (r: MessageElementType)
    ensures
        layout_of(0x17) == Some(r),
{
    MessageElementType::new(0x17, DSNPSNType::Neither, LengthType::VariableLength)
}

/// Manufacturer's specific command.
pub fn specific_command() -> (r: MessageElementType)
    ensures
        layout_of(0x2D) == Some(r),
{
    MessageElementType::new(0x2D, DSNPSNType::Neither, LengthType::VariableLength)
}

/// Dynamic label message.
pub fn dab_dl_message() -> (r: MessageElementType)
    ensures
        layout_of(0xAA) == Some(r),
{
    MessageElementType::new(0xAA, DSNPSNType::Neither, LengthType::VariableLength)
}

/// Dynamic label command.
pub fn dab_dl_command() -> (r: MessageElementType)
    ensures
        layout_of(0x48) == Some(r),
{
    MessageElementType::new(0x48, DSNPSNType::Neither, LengthType::VariableLength)
}

} // verus!
