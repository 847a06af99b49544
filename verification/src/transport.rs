//! The USB CMSIS-DAP transport: one vendor interface with a bulk-OUT and a
//! bulk-IN endpoint of one fixed packet size, its configuration-descriptor
//! plan, its string lookup, and the decoding of the executor's status word.

use vstd::prelude::*;

verus! {

/// Size in bytes of one bulk packet; both endpoints share it, and it is the
/// size of every command and response buffer.
pub const MAX_PACKET_SIZE: usize = 64;

/// Interface class code for a vendor-specific interface.
pub const USB_IF_CLASS_VENDOR: u8 = 0xff;

/// Fixed dummy subclass for the vendor interface.
pub const USB_IF_SUBCLASS_VENDOR: u8 = 0x00;

/// Fixed dummy protocol for the vendor interface.
pub const USB_IF_PROTOCOL_NONE: u8 = 0x00;

/// The one and only alternate setting of the interface.
pub const ALTERNATE_SETTING_DEFAULT: u8 = 0x00;

/// One element of the configuration-descriptor sequence the transport emits.
#[derive(Clone, Copy, Debug, PartialEq, Eq, Structural)]
pub enum DescriptorPart {
    Interface {
        number: u8,
        alternate: u8,
        class: u8,
        subclass: u8,
        protocol: u8,
        string_index: u8,
    },
    BulkOut { max_packet: u16 },
    BulkIn { max_packet: u16 },
}

/// The descriptor sequence the transport owes the host: its vendor interface
/// first, then the OUT endpoint, then the IN endpoint.
pub open spec fn planned_descriptors(interface_number: u8, string_index: u8) -> Seq<DescriptorPart> {
    seq![
        DescriptorPart::Interface {
            number: interface_number,
            alternate: ALTERNATE_SETTING_DEFAULT,
            class: USB_IF_CLASS_VENDOR,
            subclass: USB_IF_SUBCLASS_VENDOR,
            protocol: USB_IF_PROTOCOL_NONE,
            string_index: string_index,
        },
        DescriptorPart::BulkOut { max_packet: MAX_PACKET_SIZE as u16 },
        DescriptorPart::BulkIn { max_packet: MAX_PACKET_SIZE as u16 },
    ]
}

/// Emits the transport's part of the configuration descriptor, in the fixed
/// order the host expects: interface, OUT endpoint, IN endpoint.
pub fn configuration_plan(interface_number: u8, string_index: u8) -> (plan: Vec<DescriptorPart>)
    ensures
        plan@ =~= planned_descriptors(interface_number, string_index),
{
    let mut plan: Vec<DescriptorPart> = Vec::new();
    plan.push(DescriptorPart::Interface {
        number: interface_number,
        alternate: ALTERNATE_SETTING_DEFAULT,
        class: USB_IF_CLASS_VENDOR,
        subclass: USB_IF_SUBCLASS_VENDOR,
        protocol: USB_IF_PROTOCOL_NONE,
        string_index: string_index,
    });
    plan.push(DescriptorPart::BulkOut { max_packet: MAX_PACKET_SIZE as u16 });
    plan.push(DescriptorPart::BulkIn { max_packet: MAX_PACKET_SIZE as u16 });
    plan
}

/// The label the transport answers for its own string index.
pub open spec fn interface_label() -> Seq<char> {
    "CMSIS-DAP interface"@
}

/// String-descriptor lookup: answers the interface label for the transport's
/// own string index and defers (no answer) for every other index, so other
/// classes' strings resolve.
pub fn string_for_index(index: u8, own_index: u8) -> (answer: Option<&'static str>)
    ensures
        index == own_index ==> (answer matches Some(label) && label@ == interface_label()),
        index != own_index ==> answer is None,
{
    if index == own_index {
        Some("CMSIS-DAP interface")
    } else {
        None
    }
}

/// Splits the executor's packed status word: the high half counts the request
/// bytes consumed, the low half the response bytes produced.
pub fn split_command_result(raw: u32) -> (counts: (u16, u16))
    ensures
        counts.0 as u32 == raw >> 16,
        counts.1 as u32 == raw & 0xFFFF,
        counts.0 as u32 == raw / 0x10000,
        counts.1 as u32 == raw % 0x10000,
        raw == ((counts.0 as u32) << 16) | (counts.1 as u32),
{
    let consumed: u16 = (raw >> 16) as u16;
    let produced: u16 = raw as u16;
    proof {
        assert(((raw >> 16) as u16) as u32 == raw >> 16) by (bit_vector);
        assert((raw as u16) as u32 == raw & 0xFFFF) by (bit_vector);
        assert(raw >> 16 == raw / 0x10000) by (bit_vector);
        assert((raw & 0xFFFF) == raw % 0x10000) by (bit_vector);
        assert(raw == ((((raw >> 16) as u16) as u32) << 16) | ((raw as u16) as u32))
            by (bit_vector);
    }
    (consumed, produced)
}

} // verus!
