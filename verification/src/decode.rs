//! Packet decoders: pure functions from (configuration, raw inbound bytes)
//! to the abstract frame, presence and acknowledgement outcome of one
//! packet, one decode path per controller variant.

use vstd::prelude::*;
use crate::config::MappingConfig;
use crate::config::PacketType;
use crate::config::QuirkConfig;
use crate::frame::Decoded;
use crate::frame::DpadReport;
use crate::frame::FaceButtons;
use crate::frame::InputFrame;
use crate::frame::PaddleReport;
use crate::frame::StickReport;
use crate::frame::TriggerReport;

verus! {

/// Command tag of the Xbox One virtual-key (mode button) packet.
pub const GIP_CMD_VIRTUAL_KEY: u8 = 0x07;
/// Command tag of the Xbox One firmware-info packet.
pub const GIP_CMD_FIRMWARE: u8 = 0x0c;
/// Command tag of the Xbox One main input packet.
pub const GIP_CMD_INPUT: u8 = 0x20;
/// Command tag of the guitar-quirk input packet.
pub const GIP_CMD_GHL_INPUT: u8 = 0x21;
/// Option bit: the sender asks for an acknowledgement.
pub const GIP_OPT_ACK: u8 = 0x10;
/// Option bit: packet internal to the protocol, not application input.
pub const GIP_OPT_INTERNAL: u8 = 0x20;

/// The signed 16-bit value that two little-endian bytes carry.
pub open spec fn spec_le_i16(lo: u8, hi: u8) -> i16 {
    (((hi as u16) << 8) | (lo as u16)) as i16
}

pub fn le_i16(lo: u8, hi: u8) -> (v: i16)
    ensures
        v == spec_le_i16(lo, hi),
{
    (((hi as u16) << 8) | (lo as u16)) as i16
}

/// D-pad outcome of the shared Xbox / Xbox 360 layout for one flag byte.
/// The bit assignment (buttons and hat arithmetic alike) is the fixed,
/// observed property of the byte layout.
pub open spec fn spec_dpad_x360(dpad_to_buttons: bool, b: u8) -> DpadReport {
    if dpad_to_buttons {
        DpadReport::Buttons {
            pad_left: b & 0x04 != 0,
            pad_right: b & 0x08 != 0,
            pad_up: b & 0x01 != 0,
            pad_down: b & 0x02 != 0,
        }
    } else {
        DpadReport::Hat {
            x: ((if b & 0x04 != 0 { 1int } else { 0int }) - (if b & 0x08 != 0 { 1int } else { 0int })) as i8,
            y: ((if b & 0x01 != 0 { 1int } else { 0int }) - (if b & 0x02 != 0 { 1int } else { 0int })) as i8,
        }
    }
}

/// D-pad outcome of the Xbox One main input layout for one flag byte.  The
/// button bits match the shared layout; the hat arithmetic uses the
/// layout-specific sign assignment.
pub open spec fn spec_dpad_xone(dpad_to_buttons: bool, b: u8) -> DpadReport {
    if dpad_to_buttons {
        DpadReport::Buttons {
            pad_left: b & 0x04 != 0,
            pad_right: b & 0x08 != 0,
            pad_up: b & 0x01 != 0,
            pad_down: b & 0x02 != 0,
        }
    } else {
        DpadReport::Hat {
            x: ((if b & 0x08 != 0 { 1int } else { 0int }) - (if b & 0x04 != 0 { 1int } else { 0int })) as i8,
            y: ((if b & 0x02 != 0 { 1int } else { 0int }) - (if b & 0x01 != 0 { 1int } else { 0int })) as i8,
        }
    }
}

fn dpad_x360(dpad_to_buttons: bool, b: u8) -> (r: DpadReport)
    ensures
        r == spec_dpad_x360(dpad_to_buttons, b),
{
    if dpad_to_buttons {
        DpadReport::Buttons {
            pad_left: b & 0x04 != 0,
            pad_right: b & 0x08 != 0,
            pad_up: b & 0x01 != 0,
            pad_down: b & 0x02 != 0,
        }
    } else {
        let xp: i8 = if b & 0x04 != 0 { 1 } else { 0 };
        let xn: i8 = if b & 0x08 != 0 { 1 } else { 0 };
        let yp: i8 = if b & 0x01 != 0 { 1 } else { 0 };
        let yn: i8 = if b & 0x02 != 0 { 1 } else { 0 };
        DpadReport::Hat { x: xp - xn, y: yp - yn }
    }
}

fn dpad_xone(dpad_to_buttons: bool, b: u8) -> (r: DpadReport)
    ensures
        r == spec_dpad_xone(dpad_to_buttons, b),
{
    if dpad_to_buttons {
        DpadReport::Buttons {
            pad_left: b & 0x04 != 0,
            pad_right: b & 0x08 != 0,
            pad_up: b & 0x01 != 0,
            pad_down: b & 0x02 != 0,
        }
    } else {
        let xp: i8 = if b & 0x08 != 0 { 1 } else { 0 };
        let xn: i8 = if b & 0x04 != 0 { 1 } else { 0 };
        let yp: i8 = if b & 0x02 != 0 { 1 } else { 0 };
        let yn: i8 = if b & 0x01 != 0 { 1 } else { 0 };
        DpadReport::Hat { x: xp - xn, y: yp - yn }
    }
}

/// The frame that the shared Xbox / Xbox 360 layout yields from the bytes
/// at `off` onward: the d-pad flag byte at `off + 2`, the two trigger
/// bytes at `off + 10`, then four little-endian signed 16-bit stick values
/// with both Y axes bitwise-inverted.
pub open spec fn spec_x360_frame(m: MappingConfig, d: Seq<u8>, off: int) -> InputFrame {
    InputFrame {
        face: None,
        mode: None,
        paddles: None,
        dpad: Some(spec_dpad_x360(m.dpad_to_buttons, d[off + 2])),
        triggers: Some(
            if m.triggers_to_buttons {
                TriggerReport::Buttons { left: d[off + 10] != 0, right: d[off + 11] != 0 }
            } else {
                TriggerReport::Axes { left: d[off + 10], right: d[off + 11] }
            },
        ),
        sticks: if m.sticks_to_null {
            None
        } else {
            Some(
                StickReport {
                    lx: spec_le_i16(d[off + 12], d[off + 13]),
                    ly: !spec_le_i16(d[off + 14], d[off + 15]),
                    rx: spec_le_i16(d[off + 16], d[off + 17]),
                    ry: !spec_le_i16(d[off + 18], d[off + 19]),
                },
            )
        },
    }
}

/// Decode the shared Xbox / Xbox 360 layout starting at byte `off`.
pub fn decode_x360_at(m: &MappingConfig, d: &[u8], off: usize) -> (f: InputFrame)
    requires
        off + 20 <= d@.len(),
    ensures
        f == spec_x360_frame(*m, d@, off as int),
{
    let n = d.len();
    assert(off + 20 <= n);
    let triggers = if m.triggers_to_buttons {
        TriggerReport::Buttons { left: d[off + 10] != 0, right: d[off + 11] != 0 }
    } else {
        TriggerReport::Axes { left: d[off + 10], right: d[off + 11] }
    };
    let sticks = if m.sticks_to_null {
        None
    } else {
        Some(
            StickReport {
                lx: le_i16(d[off + 12], d[off + 13]),
                ly: !le_i16(d[off + 14], d[off + 15]),
                rx: le_i16(d[off + 16], d[off + 17]),
                ry: !le_i16(d[off + 18], d[off + 19]),
            },
        )
    };
    InputFrame {
        face: None,
        mode: None,
        paddles: None,
        dpad: Some(dpad_x360(m.dpad_to_buttons, d[off + 2])),
        triggers: Some(triggers),
        sticks,
    }
}

/// The wireless presence flag after one Xbox 360 Wireless packet: a status
/// packet (bit 0x08 of the first byte) carries the new value in bit 0x80
/// of the second byte; any other packet leaves presence unchanged.
pub open spec fn spec_wireless_presence_after(presence: bool, d: Seq<u8>) -> bool {
    if d[0] & 0x08 != 0 {
        d[1] & 0x80 != 0
    } else {
        presence
    }
}

/// The outcome of one Xbox 360 Wireless packet: a status packet signals a
/// presence change exactly on an actual transition and never yields a
/// frame; a pad-data packet (second byte 0x01) is delegated to the shared
/// layout at offset 4, but only while the pad is present.
pub open spec fn spec_wireless_decoded(m: MappingConfig, presence: bool, d: Seq<u8>) -> Decoded {
    if d[0] & 0x08 != 0 {
        let newp = d[1] & 0x80 != 0;
        Decoded {
            frame: None,
            presence_changed: if newp != presence {
                Some(newp)
            } else {
                None
            },
            ack_request: None,
        }
    } else if d[1] == 0x01 && presence {
        Decoded { frame: Some(spec_x360_frame(m, d, 4)), presence_changed: None, ack_request: None }
    } else {
        Decoded::spec_nothing()
    }
}

/// Decode one Xbox 360 Wireless packet; the second result is the presence
/// flag the session must carry afterwards.
pub fn decode_wireless(m: &MappingConfig, presence: bool, d: &[u8]) -> (r: (Decoded, bool))
    requires
        d@.len() >= 24,
    ensures
        r.0 == spec_wireless_decoded(*m, presence, d@),
        r.1 == spec_wireless_presence_after(presence, d@),
{
    if d[0] & 0x08 != 0 {
        let newp = d[1] & 0x80 != 0;
        let ev = if newp != presence {
            Some(newp)
        } else {
            None
        };
        (Decoded { frame: None, presence_changed: ev, ack_request: None }, newp)
    } else if d[1] == 0x01 && presence {
        let f = decode_x360_at(m, d, 4);
        (Decoded { frame: Some(f), presence_changed: None, ack_request: None }, presence)
    } else {
        (Decoded { frame: None, presence_changed: None, ack_request: None }, presence)
    }
}

/// Hat vector of the guitar-quirk d-pad nibble: nine fixed directions,
/// every nibble above eight clamped to the rest vector.
pub open spec fn spec_ghl_hat(n: u8) -> (i8, i8) {
    if n == 0 {
        (0i8, -1i8)
    } else if n == 1 {
        (1i8, -1i8)
    } else if n == 2 {
        (1i8, 0i8)
    } else if n == 3 {
        (1i8, 1i8)
    } else if n == 4 {
        (0i8, 1i8)
    } else if n == 5 {
        (-1i8, 1i8)
    } else if n == 6 {
        (-1i8, 0i8)
    } else if n == 7 {
        (-1i8, -1i8)
    } else {
        (0i8, 0i8)
    }
}

fn ghl_hat(n: u8) -> (r: (i8, i8))
    ensures
        r == spec_ghl_hat(n),
{
    if n == 0 {
        (0i8, -1i8)
    } else if n == 1 {
        (1i8, -1i8)
    } else if n == 2 {
        (1i8, 0i8)
    } else if n == 3 {
        (1i8, 1i8)
    } else if n == 4 {
        (0i8, 1i8)
    } else if n == 5 {
        (-1i8, 1i8)
    } else if n == 6 {
        (-1i8, 0i8)
    } else if n == 7 {
        (-1i8, -1i8)
    } else {
        (0i8, 0i8)
    }
}

/// The outcome of one Xbox One (GIP) packet.  The first byte multiplexes
/// the command sub-decoders:
///
/// - virtual key: one mode button, plus an acknowledgement request when
///   the second byte carries the internal-ack option bits;
/// - firmware info: four paddle buttons, only once the `Xbe2Fw511`
///   revision is negotiated and only while the companion validity byte is
///   zero;
/// - main input: Start/Select and face buttons, the layout-specific d-pad,
///   and the shared stick layout at offset 10;
/// - guitar input (only with the guitar quirk): the nibble-to-hat lookup,
///   which ignores `dpad_to_buttons`;
/// - any other tag yields nothing.
pub open spec fn spec_xone_decoded(
    m: MappingConfig,
    q: QuirkConfig,
    rev: PacketType,
    d: Seq<u8>,
) -> Decoded {
    if d[0] == GIP_CMD_VIRTUAL_KEY {
        Decoded {
            frame: Some(
                InputFrame {
                    face: None,
                    mode: Some(d[4] & 0x03 != 0),
                    paddles: None,
                    dpad: None,
                    triggers: None,
                    sticks: None,
                },
            ),
            presence_changed: None,
            ack_request: if d[1] == (GIP_OPT_ACK | GIP_OPT_INTERNAL) {
                Some(d[2])
            } else {
                None
            },
        }
    } else if d[0] == GIP_CMD_FIRMWARE {
        if rev == PacketType::Xbe2Fw511 {
            let pb = if d[19] != 0 {
                0u8
            } else {
                d[18]
            };
            Decoded {
                frame: Some(
                    InputFrame {
                        face: None,
                        mode: None,
                        paddles: Some(
                            PaddleReport {
                                p1: pb & 0x01 != 0,
                                p2: pb & 0x02 != 0,
                                p3: pb & 0x04 != 0,
                                p4: pb & 0x08 != 0,
                            },
                        ),
                        dpad: None,
                        triggers: None,
                        sticks: None,
                    },
                ),
                presence_changed: None,
                ack_request: None,
            }
        } else {
            Decoded::spec_nothing()
        }
    } else if d[0] == GIP_CMD_INPUT {
        Decoded {
            frame: Some(
                InputFrame {
                    face: Some(
                        FaceButtons {
                            start: d[4] & 0x04 != 0,
                            select: d[4] & 0x08 != 0,
                            a: d[4] & 0x10 != 0,
                            b: d[4] & 0x20 != 0,
                            x: d[4] & 0x40 != 0,
                            y: d[4] & 0x80 != 0,
                        },
                    ),
                    mode: None,
                    paddles: None,
                    dpad: Some(spec_dpad_xone(m.dpad_to_buttons, d[5])),
                    triggers: None,
                    sticks: if m.sticks_to_null {
                        None
                    } else {
                        Some(
                            StickReport {
                                lx: spec_le_i16(d[10], d[11]),
                                ly: !spec_le_i16(d[12], d[13]),
                                rx: spec_le_i16(d[14], d[15]),
                                ry: !spec_le_i16(d[16], d[17]),
                            },
                        )
                    },
                },
            ),
            presence_changed: None,
            ack_request: None,
        }
    } else if d[0] == GIP_CMD_GHL_INPUT && q.ghl_xboxone {
        Decoded {
            frame: Some(
                InputFrame {
                    face: None,
                    mode: None,
                    paddles: None,
                    dpad: Some(
                        DpadReport::Hat {
                            x: spec_ghl_hat(d[6] & 0x0f).0,
                            y: spec_ghl_hat(d[6] & 0x0f).1,
                        },
                    ),
                    triggers: None,
                    sticks: None,
                },
            ),
            presence_changed: None,
            ack_request: None,
        }
    } else {
        Decoded::spec_nothing()
    }
}

/// Decode one Xbox One (GIP) packet.
pub fn decode_xone(m: &MappingConfig, q: &QuirkConfig, rev: PacketType, d: &[u8]) -> (r: Decoded)
    requires
        d@.len() >= 20,
    ensures
        r == spec_xone_decoded(*m, *q, rev, d@),
{
    if d[0] == GIP_CMD_VIRTUAL_KEY {
        let ack = if d[1] == (GIP_OPT_ACK | GIP_OPT_INTERNAL) {
            Some(d[2])
        } else {
            None
        };
        Decoded {
            frame: Some(
                InputFrame {
                    face: None,
                    mode: Some(d[4] & 0x03 != 0),
                    paddles: None,
                    dpad: None,
                    triggers: None,
                    sticks: None,
                },
            ),
            presence_changed: None,
            ack_request: ack,
        }
    } else if d[0] == GIP_CMD_FIRMWARE {
        if rev == PacketType::Xbe2Fw511 {
            let pb = if d[19] != 0 {
                0u8
            } else {
                d[18]
            };
            Decoded {
                frame: Some(
                    InputFrame {
                        face: None,
                        mode: None,
                        paddles: Some(
                            PaddleReport {
                                p1: pb & 0x01 != 0,
                                p2: pb & 0x02 != 0,
                                p3: pb & 0x04 != 0,
                                p4: pb & 0x08 != 0,
                            },
                        ),
                        dpad: None,
                        triggers: None,
                        sticks: None,
                    },
                ),
                presence_changed: None,
                ack_request: None,
            }
        } else {
            Decoded { frame: None, presence_changed: None, ack_request: None }
        }
    } else if d[0] == GIP_CMD_INPUT {
        let face = FaceButtons {
            start: d[4] & 0x04 != 0,
            select: d[4] & 0x08 != 0,
            a: d[4] & 0x10 != 0,
            b: d[4] & 0x20 != 0,
            x: d[4] & 0x40 != 0,
            y: d[4] & 0x80 != 0,
        };
        let sticks = if m.sticks_to_null {
            None
        } else {
            Some(
                StickReport {
                    lx: le_i16(d[10], d[11]),
                    ly: !le_i16(d[12], d[13]),
                    rx: le_i16(d[14], d[15]),
                    ry: !le_i16(d[16], d[17]),
                },
            )
        };
        Decoded {
            frame: Some(
                InputFrame {
                    face: Some(face),
                    mode: None,
                    paddles: None,
                    dpad: Some(dpad_xone(m.dpad_to_buttons, d[5])),
                    triggers: None,
                    sticks,
                },
            ),
            presence_changed: None,
            ack_request: None,
        }
    } else if d[0] == GIP_CMD_GHL_INPUT && q.ghl_xboxone {
        let hat = ghl_hat(d[6] & 0x0f);
        Decoded {
            frame: Some(
                InputFrame {
                    face: None,
                    mode: None,
                    paddles: None,
                    dpad: Some(DpadReport::Hat { x: hat.0, y: hat.1 }),
                    triggers: None,
                    sticks: None,
                },
            ),
            presence_changed: None,
            ack_request: None,
        }
    } else {
        Decoded { frame: None, presence_changed: None, ack_request: None }
    }
}

/// Law: the presence tracker is idempotent.  A status packet signals a
/// change exactly when its presence bit differs from the session's flag;
/// after it is absorbed, a second consecutive status packet carrying the
/// same presence bit signals nothing — so two identical presence packets
/// yield exactly one event on a transition from the initial state, and
/// none otherwise.
pub proof fn lemma_presence_idempotent(m: MappingConfig, presence: bool, d1: Seq<u8>, d2: Seq<u8>)
    requires
        d1[0] & 0x08 != 0,
        d2[0] & 0x08 != 0,
        (d1[1] & 0x80 != 0) == (d2[1] & 0x80 != 0),
    ensures
        (spec_wireless_decoded(m, presence, d1).presence_changed is Some) == (presence != (d1[1]
            & 0x80 != 0)),
        (spec_wireless_decoded(
            m,
            spec_wireless_presence_after(presence, d1),
            d2,
        ).presence_changed is None),
{
}

/// Law: whenever the shared Xbox / Xbox 360 layout reports sticks at all
/// (`sticks_to_null` unset), the reported left-Y is the bitwise complement
/// of the little-endian 16-bit value at its byte offset; a raw value of 0
/// is reported as -1.
pub proof fn lemma_left_y_inverted(m: MappingConfig, d: Seq<u8>, off: int)
    requires
        !m.sticks_to_null,
    ensures
        spec_x360_frame(m, d, off).sticks matches Some(s) && s.ly == !spec_le_i16(
            d[off + 14],
            d[off + 15],
        ),
{
}

/// Law: with `triggers_to_buttons` set, each trigger of the shared layout
/// is reported pressed exactly when its byte is nonzero — any nonzero
/// value, not a threshold.
pub proof fn lemma_trigger_buttons_threshold(m: MappingConfig, d: Seq<u8>, off: int)
    requires
        m.triggers_to_buttons,
    ensures
        spec_x360_frame(m, d, off).triggers == Some(
            TriggerReport::Buttons { left: d[off + 10] != 0, right: d[off + 11] != 0 },
        ),
{
}

/// Law: the shared layout reports the d-pad as buttons exactly when
/// `dpad_to_buttons` is set, and as a hat pair exactly when it is not —
/// never both for the same packet.
pub proof fn lemma_dpad_exclusive_x360(m: MappingConfig, d: Seq<u8>, off: int)
    ensures
        m.dpad_to_buttons ==> (spec_x360_frame(m, d, off).dpad matches Some(r) && r is Buttons),
        !m.dpad_to_buttons ==> (spec_x360_frame(m, d, off).dpad matches Some(r) && r is Hat),
{
}

/// Law: the Xbox One main input command follows the same d-pad
/// exclusivity as the shared layout.
pub proof fn lemma_dpad_exclusive_xone_input(
    m: MappingConfig,
    q: QuirkConfig,
    rev: PacketType,
    d: Seq<u8>,
)
    requires
        d[0] == GIP_CMD_INPUT,
    ensures
        m.dpad_to_buttons ==> (spec_xone_decoded(m, q, rev, d).frame matches Some(f)
            && f.dpad matches Some(r) && r is Buttons),
        !m.dpad_to_buttons ==> (spec_xone_decoded(m, q, rev, d).frame matches Some(f)
            && f.dpad matches Some(r) && r is Hat),
{
}

/// Law: the guitar-quirk input command ignores `dpad_to_buttons` and
/// always reports the hat form, so it too never emits both d-pad forms.
pub proof fn lemma_ghl_always_hat(m: MappingConfig, q: QuirkConfig, rev: PacketType, d: Seq<u8>)
    requires
        d[0] == GIP_CMD_GHL_INPUT,
        q.ghl_xboxone,
    ensures
        spec_xone_decoded(m, q, rev, d).frame matches Some(f) && f.dpad matches Some(r)
            && r is Hat,
{
}

} // verus!
