//! Effect encoder: pure functions from an abstract output command to the
//! raw outbound packet of the session's variant, stamped with the output
//! serial.

use vstd::prelude::*;
use crate::config::XType;
use crate::decode::GIP_CMD_VIRTUAL_KEY;
use crate::decode::GIP_OPT_INTERNAL;
use crate::packet::RawPacket;
use crate::packet::XpadError;

verus! {

/// Command tag of the GIP acknowledgement packet.
pub const GIP_CMD_ACK: u8 = 0x01;
/// Command tag of the GIP rumble packet.
pub const GIP_CMD_RUMBLE: u8 = 0x09;
/// Command tag of the GIP LED packet.
pub const GIP_CMD_LED: u8 = 0x0a;
/// Motor-select mask: both main motors and both trigger motors.
pub const GIP_MOTOR_ALL: u8 = 0x0f;

/// An abstract output command: force-feedback magnitudes, an LED pattern,
/// or the acknowledgement a virtual-key packet asked for.
#[derive(Clone, Copy, Debug, PartialEq, Eq, Structural)]
pub enum OutputCommand {
    Rumble { strong: u16, weak: u16 },
    LedPattern(u8),
    HandshakeAck(u8),
}

/// The GIP rumble packet: magnitudes scaled from the 16-bit input range
/// to the 8-bit motor range by integer division by 512 (the 9-bit-to-byte
/// scale of the wire format), serial stamped at byte 2.
pub open spec fn spec_rumble_packet(serial: u8, strong: u16, weak: u16) -> Seq<u8> {
    seq![
        GIP_CMD_RUMBLE,
        0x00,
        serial,
        0x09,
        0x00,
        GIP_MOTOR_ALL,
        0x00,
        0x00,
        (strong / 512) as u8,
        (weak / 512) as u8,
        0xff,
        0x00,
        0xff,
    ]
}

/// The GIP LED packet, serial stamped at byte 2.
pub open spec fn spec_led_packet(serial: u8, pattern: u8) -> Seq<u8> {
    seq![GIP_CMD_LED, GIP_OPT_INTERNAL, serial, 0x03, 0x00, 0x01, pattern]
}

/// The GIP acknowledgement packet answering a virtual-key request whose
/// sequence byte was `code`, serial stamped at byte 2.
pub open spec fn spec_ack_packet(serial: u8, code: u8) -> Seq<u8> {
    seq![
        GIP_CMD_ACK,
        GIP_OPT_INTERNAL,
        serial,
        0x09,
        0x00,
        GIP_CMD_VIRTUAL_KEY,
        GIP_OPT_INTERNAL,
        0x02,
        code,
        0x00,
        0x00,
        0x00,
        0x00,
    ]
}

/// The bytes one output command encodes to on one variant, or nothing
/// where the variant does not carry that command.  Only the Xbox One
/// generation has an output protocol in this core.
pub open spec fn spec_encode(variant: XType, serial: u8, cmd: OutputCommand) -> Option<Seq<u8>> {
    match variant {
        XType::XboxOne => match cmd {
            OutputCommand::Rumble { strong, weak } => Some(spec_rumble_packet(serial, strong, weak)),
            OutputCommand::LedPattern(p) => Some(spec_led_packet(serial, p)),
            OutputCommand::HandshakeAck(c) => Some(spec_ack_packet(serial, c)),
        },
        _ => None,
    }
}

/// Encode one output command for the given variant with the given serial.
/// Succeeds exactly on the (variant, command) pairs that `spec_encode`
/// gives bytes for; every other pair is refused as unsupported rather
/// than encoded malformed.
pub fn encode_command(variant: XType, serial: u8, cmd: &OutputCommand) -> (r: Result<
    RawPacket,
    XpadError,
>)
    ensures
        match r {
            Ok(p) => spec_encode(variant, serial, *cmd) == Some(p@),
            Err(e) => spec_encode(variant, serial, *cmd) is None && e
                == XpadError::UnsupportedCommand,
        },
{
    match variant {
        XType::XboxOne => match *cmd {
            OutputCommand::Rumble { strong, weak } => {
                let bytes: Vec<u8> = vec![
                    GIP_CMD_RUMBLE,
                    0x00,
                    serial,
                    0x09,
                    0x00,
                    GIP_MOTOR_ALL,
                    0x00,
                    0x00,
                    (strong / 512) as u8,
                    (weak / 512) as u8,
                    0xff,
                    0x00,
                    0xff,
                ];
                Ok(RawPacket::new(bytes))
            },
            OutputCommand::LedPattern(p) => {
                let bytes: Vec<u8> = vec![GIP_CMD_LED, GIP_OPT_INTERNAL, serial, 0x03, 0x00, 0x01, p];
                Ok(RawPacket::new(bytes))
            },
            OutputCommand::HandshakeAck(c) => {
                let bytes: Vec<u8> = vec![
                    GIP_CMD_ACK,
                    GIP_OPT_INTERNAL,
                    serial,
                    0x09,
                    0x00,
                    GIP_CMD_VIRTUAL_KEY,
                    GIP_OPT_INTERNAL,
                    0x02,
                    c,
                    0x00,
                    0x00,
                    0x00,
                    0x00,
                ];
                Ok(RawPacket::new(bytes))
            },
        },
        _ => Err(XpadError::UnsupportedCommand),
    }
}

/// The fixed keep-alive poke the guitar quirk requires at its periodic
/// interval; producing it is pure and touches no session state.
pub open spec fn spec_ghl_keepalive() -> Seq<u8> {
    seq![0x22u8, 0x00, 0x00, 0x08, 0x00, 0x0f, 0x00, 0x00, 0x00, 0x00, 0x00, 0x00, 0x00, 0x00]
}

pub fn ghl_keepalive_packet() -> (p: RawPacket)
    ensures
        p@ == spec_ghl_keepalive(),
{
    let bytes: Vec<u8> = vec![
        0x22u8,
        0x00,
        0x00,
        0x08,
        0x00,
        0x0f,
        0x00,
        0x00,
        0x00,
        0x00,
        0x00,
        0x00,
        0x00,
        0x00,
    ];
    RawPacket::new(bytes)
}

/// Law: the rumble encoding carries `strong / 512` at its strong-motor
/// byte, so a strong magnitude of 1024 encodes to motor scale 2 and the
/// scale byte decodes back to the quotient.
pub proof fn lemma_rumble_motor_scale(serial: u8, strong: u16, weak: u16)
    ensures
        spec_rumble_packet(serial, strong, weak)[8] == (strong / 512) as u8,
        spec_rumble_packet(serial, strong, weak)[9] == (weak / 512) as u8,
        spec_rumble_packet(serial, strong, weak).len() == 13,
{
}

} // verus!
