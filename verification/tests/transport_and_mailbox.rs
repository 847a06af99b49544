//! The transport's descriptor plan and string lookup, the executor status
//! word, and the mailbox FIFO on its own.

use rp_selfdebug::mailbox::Mailbox;
use rp_selfdebug::mailbox::frame_batch;
use rp_selfdebug::mailbox::MAILBOX_DEPTH;
use rp_selfdebug::transport::configuration_plan;
use rp_selfdebug::transport::split_command_result;
use rp_selfdebug::transport::string_for_index;
use rp_selfdebug::transport::DescriptorPart;
use rp_selfdebug::transport::ALTERNATE_SETTING_DEFAULT;
use rp_selfdebug::transport::MAX_PACKET_SIZE;
use rp_selfdebug::transport::USB_IF_CLASS_VENDOR;
use rp_selfdebug::transport::USB_IF_PROTOCOL_NONE;
use rp_selfdebug::transport::USB_IF_SUBCLASS_VENDOR;

#[test]
fn descriptor_plan_is_interface_then_out_then_in() {
    let plan = configuration_plan(2, 5);
    assert_eq!(
        plan,
        vec![
            DescriptorPart::Interface {
                number: 2,
                alternate: ALTERNATE_SETTING_DEFAULT,
                class: USB_IF_CLASS_VENDOR,
                subclass: USB_IF_SUBCLASS_VENDOR,
                protocol: USB_IF_PROTOCOL_NONE,
                string_index: 5,
            },
            DescriptorPart::BulkOut { max_packet: 64 },
            DescriptorPart::BulkIn { max_packet: 64 },
        ]
    );
    assert_eq!(USB_IF_CLASS_VENDOR, 0xff);
    assert_eq!(USB_IF_SUBCLASS_VENDOR, 0x00);
    assert_eq!(USB_IF_PROTOCOL_NONE, 0x00);
    assert_eq!(MAX_PACKET_SIZE, 64);
}

#[test]
fn string_lookup_answers_own_index_and_defers_otherwise() {
    assert_eq!(string_for_index(4, 4), Some("CMSIS-DAP interface"));
    assert_eq!(string_for_index(3, 4), None);
    assert_eq!(string_for_index(0, 4), None);
}

#[test]
fn status_word_splits_into_consumed_and_produced() {
    assert_eq!(split_command_result(0x0004_0002), (4, 2));
    assert_eq!(split_command_result(0), (0, 0));
    assert_eq!(split_command_result(0xffff_ffff), (0xffff, 0xffff));
    assert_eq!(split_command_result(0x0001_0040), (1, 64));
}

#[test]
fn mailbox_is_first_in_first_out() {
    let mut mailbox = Mailbox::new();
    assert!(!mailbox.is_read_ready());
    assert!(mailbox.is_write_ready());
    assert!(mailbox.push(10));
    assert!(mailbox.push(20));
    assert!(mailbox.is_read_ready());
    assert_eq!(mailbox.pop(), Some(10));
    assert_eq!(mailbox.pop(), Some(20));
    assert_eq!(mailbox.pop(), None);
}

#[test]
fn full_mailbox_drops_the_push() {
    let mut mailbox = Mailbox::new();
    for i in 0..MAILBOX_DEPTH {
        assert!(mailbox.is_write_ready());
        assert!(mailbox.push(i as u8));
    }
    assert!(!mailbox.is_write_ready());
    assert!(!mailbox.push(99));
    assert_eq!(mailbox.len(), MAILBOX_DEPTH);
    let drained = mailbox.drain();
    assert_eq!(drained, (0..MAILBOX_DEPTH as u8).collect::<Vec<u8>>());
    assert_eq!(mailbox.len(), 0);
}

#[test]
fn frame_wraps_bytes_with_tag_and_line_end() {
    assert_eq!(frame_batch(&Vec::new()), Vec::<u8>::new());
    assert_eq!(frame_batch(&vec![b'a']), b"Fifo: a\r\n".to_vec());
    assert_eq!(frame_batch(&vec![1u8, 2, 3]), {
        let mut expected = b"Fifo: ".to_vec();
        expected.extend_from_slice(&[1, 2, 3]);
        expected.extend_from_slice(b"\r\n");
        expected
    });
}
