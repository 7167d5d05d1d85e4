//! Protocol engine for uploading a firmware/resource file to a
//! Nextion-family HMI display over a serial link.
//!
//! The engine is pure decision logic: timing derived from baud rates
//! ([`timing`]), the wire frames of the bootloader protocol ([`frames`]),
//! the chunk plan for a file ([`plan`]), and three drivers' state machines
//! — the handshake at one baud rate ([`handshake`]), autodetection over a
//! candidate set ([`autodetect`]), and the renegotiate-and-stream upload
//! session ([`upload`]). The caller owns the serial port and the file,
//! performs each action the machines hand out, and feeds back what
//! happened; every protocol decision is taken, and verified, here.

use vstd::prelude::*;

pub mod autodetect;
pub mod frames;
pub mod handshake;
pub mod plan;
pub mod timing;
pub mod upload;

verus! {

/// What a run of the flasher is given by its caller.
pub struct Args {
    /// The serial device to open, e.g. `/dev/ttyUSB0`.
    pub serial_port: String,
    /// Path of the file to flash.
    pub file_path: String,
    /// Initial baud rate; every common rate is tried when absent.
    pub baud_rate: Option<u32>,
    /// Baud rate the transfer is renegotiated to.
    pub download_baud_rate: u32,
}

} // verus!
