//! Transport and command-pump core of a self-targeting CMSIS-DAP debug probe.
//!
//! The device exposes one vendor USB interface carrying CMSIS-DAP request and
//! response packets. Each poll of the USB device drives one pump cycle: drain
//! the cross-core mailbox onto a diagnostic serial endpoint, scan inbound
//! serial bytes for the bootloader re-entry trigger, then read one command
//! packet, hand it to the debug-access executor, and write the response back.
//! The executor acts on the chip's own debug logic, wired up once at startup.

pub mod mailbox;
pub mod pump;
pub mod transport;
