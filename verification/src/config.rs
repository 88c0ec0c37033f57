//! Per-device configuration: controller variant, negotiated packet-type
//! revision, mapping and quirk flags, and the immutable device profile.

use vstd::prelude::*;

verus! {

/// Controller hardware variant of a connected device.
#[derive(Clone, Copy, Debug, PartialEq, Eq, Structural)]
pub enum XType {
    Xbox,
    Xbox360,
    Xbox360W,
    XboxOne,
    Unknown,
}

/// Packet-type revision negotiated with Xbox One (GIP) firmware.
///
/// `Xb` is the unset/basic revision a session starts with; newer decode
/// paths (paddle reporting) are gated on `Xbe2Fw511`.
#[derive(Clone, Copy, Debug, PartialEq, Eq, Structural)]
pub enum PacketType {
    Xb,
    Xbe1,
    Xbe2FwOld,
    Xbe2Fw5Early,
    Xbe2Fw511,
}

/// Bit of the wire-compatible mapping byte: d-pad reported as buttons.
pub const MAP_DPAD_TO_BUTTONS: u8 = 0x01;
/// Bit of the wire-compatible mapping byte: triggers reported as buttons.
pub const MAP_TRIGGERS_TO_BUTTONS: u8 = 0x02;
/// Bit of the wire-compatible mapping byte: stick axes suppressed.
pub const MAP_STICKS_TO_NULL: u8 = 0x04;
/// Bit of the wire-compatible mapping byte: device has a Select button.
pub const MAP_SELECT_BUTTON: u8 = 0x08;
/// Bit of the wire-compatible mapping byte: device has paddle buttons.
pub const MAP_PADDLES: u8 = 0x10;
/// Bit of the wire-compatible mapping byte: device has a Profile button.
pub const MAP_PROFILE_BUTTON: u8 = 0x20;

/// Mapping flags of a device, one named field per bit of the historical
/// flag byte.  The flags select decode branches and are fixed per session.
#[derive(Clone, Copy, Debug, PartialEq, Eq, Structural)]
pub struct MappingConfig {
    pub dpad_to_buttons: bool,
    pub triggers_to_buttons: bool,
    pub sticks_to_null: bool,
    pub select_button: bool,
    pub paddles: bool,
    pub profile_button: bool,
}

impl MappingConfig {
    /// The empty mapping: every flag clear.
    pub open spec fn spec_empty() -> MappingConfig {
        MappingConfig {
            dpad_to_buttons: false,
            triggers_to_buttons: false,
            sticks_to_null: false,
            select_button: false,
            paddles: false,
            profile_button: false,
        }
    }

    pub fn empty() -> (c: MappingConfig)
        ensures
            c == MappingConfig::spec_empty(),
    {
        MappingConfig {
            dpad_to_buttons: false,
            triggers_to_buttons: false,
            sticks_to_null: false,
            select_button: false,
            paddles: false,
            profile_button: false,
        }
    }

    /// The mapping that a flag byte of the historical bitset form denotes.
    pub open spec fn spec_from_bits(bits: u8) -> MappingConfig {
        MappingConfig {
            dpad_to_buttons: bits & MAP_DPAD_TO_BUTTONS != 0,
            triggers_to_buttons: bits & MAP_TRIGGERS_TO_BUTTONS != 0,
            sticks_to_null: bits & MAP_STICKS_TO_NULL != 0,
            select_button: bits & MAP_SELECT_BUTTON != 0,
            paddles: bits & MAP_PADDLES != 0,
            profile_button: bits & MAP_PROFILE_BUTTON != 0,
        }
    }

    pub fn from_bits(bits: u8) -> (c: MappingConfig)
        ensures
            c == MappingConfig::spec_from_bits(bits),
    {
        MappingConfig {
            dpad_to_buttons: bits & MAP_DPAD_TO_BUTTONS != 0,
            triggers_to_buttons: bits & MAP_TRIGGERS_TO_BUTTONS != 0,
            sticks_to_null: bits & MAP_STICKS_TO_NULL != 0,
            select_button: bits & MAP_SELECT_BUTTON != 0,
            paddles: bits & MAP_PADDLES != 0,
            profile_button: bits & MAP_PROFILE_BUTTON != 0,
        }
    }

    /// The flag byte that this mapping denotes, inverse of `from_bits` on
    /// the six defined bits.
    pub open spec fn spec_bits(self) -> u8 {
        (if self.dpad_to_buttons { MAP_DPAD_TO_BUTTONS } else { 0 })
            | (if self.triggers_to_buttons { MAP_TRIGGERS_TO_BUTTONS } else { 0 })
            | (if self.sticks_to_null { MAP_STICKS_TO_NULL } else { 0 })
            | (if self.select_button { MAP_SELECT_BUTTON } else { 0 })
            | (if self.paddles { MAP_PADDLES } else { 0 })
            | (if self.profile_button { MAP_PROFILE_BUTTON } else { 0 })
    }

    pub fn bits(&self) -> (b: u8)
        ensures
            b == self.spec_bits(),
    {
        (if self.dpad_to_buttons { MAP_DPAD_TO_BUTTONS } else { 0 })
            | (if self.triggers_to_buttons { MAP_TRIGGERS_TO_BUTTONS } else { 0 })
            | (if self.sticks_to_null { MAP_STICKS_TO_NULL } else { 0 })
            | (if self.select_button { MAP_SELECT_BUTTON } else { 0 })
            | (if self.paddles { MAP_PADDLES } else { 0 })
            | (if self.profile_button { MAP_PROFILE_BUTTON } else { 0 })
    }
}

/// Round trip between the named-field form and the historical flag byte:
/// the named fields carry exactly the information of the bitset source
/// form, bit for bit.
pub proof fn lemma_mapping_bits_roundtrip(c: MappingConfig)
    ensures
        MappingConfig::spec_from_bits(c.spec_bits()) == c,
{
    let x1: u8 = if c.dpad_to_buttons { MAP_DPAD_TO_BUTTONS } else { 0 };
    let x2: u8 = if c.triggers_to_buttons { MAP_TRIGGERS_TO_BUTTONS } else { 0 };
    let x3: u8 = if c.sticks_to_null { MAP_STICKS_TO_NULL } else { 0 };
    let x4: u8 = if c.select_button { MAP_SELECT_BUTTON } else { 0 };
    let x5: u8 = if c.paddles { MAP_PADDLES } else { 0 };
    let x6: u8 = if c.profile_button { MAP_PROFILE_BUTTON } else { 0 };
    let b: u8 = x1 | x2 | x3 | x4 | x5 | x6;
    assert(c.spec_bits() == b);
    assert(((b & 0x01 != 0) == (x1 == 0x01)) && ((b & 0x02 != 0) == (x2 == 0x02))
        && ((b & 0x04 != 0) == (x3 == 0x04)) && ((b & 0x08 != 0) == (x4 == 0x08))
        && ((b & 0x10 != 0) == (x5 == 0x10)) && ((b & 0x20 != 0) == (x6 == 0x20)))
        by (bit_vector)
        requires
            (x1 == 0x01 || x1 == 0) && (x2 == 0x02 || x2 == 0) && (x3 == 0x04 || x3 == 0)
                && (x4 == 0x08 || x4 == 0) && (x5 == 0x10 || x5 == 0) && (x6 == 0x20 || x6 == 0),
            b == (x1 | x2 | x3 | x4 | x5 | x6),
    ;
}

/// The mapping preset shared by dance pads: d-pad and triggers as buttons,
/// stick axes suppressed.
pub fn dancepad_map_config() -> (c: MappingConfig)
    ensures
        c == MappingConfig::spec_from_bits(
            MAP_DPAD_TO_BUTTONS | MAP_TRIGGERS_TO_BUTTONS | MAP_STICKS_TO_NULL,
        ),
{
    let c = MappingConfig::from_bits(
        MAP_DPAD_TO_BUTTONS | MAP_TRIGGERS_TO_BUTTONS | MAP_STICKS_TO_NULL,
    );
    c
}

/// Bit of the wire-compatible quirk byte: first start-packet template group.
pub const QUIRK_START_PKT_1: u8 = 0x01;
/// Bit of the wire-compatible quirk byte: second start-packet template group.
pub const QUIRK_START_PKT_2: u8 = 0x02;
/// Bit of the wire-compatible quirk byte: third start-packet template group.
pub const QUIRK_START_PKT_3: u8 = 0x04;
/// Bit of the wire-compatible quirk byte: guitar peripheral on the Xbox One
/// transport, which needs periodic keep-alives and alternate d-pad decoding.
pub const QUIRK_GHL_XBOXONE: u8 = 0x08;

/// Hardware quirk flags of a device, one named field per bit of the
/// historical quirk byte.
#[derive(Clone, Copy, Debug, PartialEq, Eq, Structural)]
pub struct QuirkConfig {
    pub start_pkt_1: bool,
    pub start_pkt_2: bool,
    pub start_pkt_3: bool,
    pub ghl_xboxone: bool,
}

impl QuirkConfig {
    /// The empty quirk set: every flag clear.
    pub open spec fn spec_empty() -> QuirkConfig {
        QuirkConfig { start_pkt_1: false, start_pkt_2: false, start_pkt_3: false, ghl_xboxone: false }
    }

    pub fn empty() -> (c: QuirkConfig)
        ensures
            c == QuirkConfig::spec_empty(),
    {
        QuirkConfig { start_pkt_1: false, start_pkt_2: false, start_pkt_3: false, ghl_xboxone: false }
    }

    /// The quirk set that a quirk byte of the historical bitset form denotes.
    pub open spec fn spec_from_bits(bits: u8) -> QuirkConfig {
        QuirkConfig {
            start_pkt_1: bits & QUIRK_START_PKT_1 != 0,
            start_pkt_2: bits & QUIRK_START_PKT_2 != 0,
            start_pkt_3: bits & QUIRK_START_PKT_3 != 0,
            ghl_xboxone: bits & QUIRK_GHL_XBOXONE != 0,
        }
    }

    pub fn from_bits(bits: u8) -> (c: QuirkConfig)
        ensures
            c == QuirkConfig::spec_from_bits(bits),
    {
        QuirkConfig {
            start_pkt_1: bits & QUIRK_START_PKT_1 != 0,
            start_pkt_2: bits & QUIRK_START_PKT_2 != 0,
            start_pkt_3: bits & QUIRK_START_PKT_3 != 0,
            ghl_xboxone: bits & QUIRK_GHL_XBOXONE != 0,
        }
    }
}

impl QuirkConfig {
    /// The quirk byte that this quirk set denotes, inverse of `from_bits`
    /// on the four defined bits.
    pub open spec fn spec_bits(self) -> u8 {
        (if self.start_pkt_1 { QUIRK_START_PKT_1 } else { 0 })
            | (if self.start_pkt_2 { QUIRK_START_PKT_2 } else { 0 })
            | (if self.start_pkt_3 { QUIRK_START_PKT_3 } else { 0 })
            | (if self.ghl_xboxone { QUIRK_GHL_XBOXONE } else { 0 })
    }

    pub fn bits(&self) -> (b: u8)
        ensures
            b == self.spec_bits(),
    {
        (if self.start_pkt_1 { QUIRK_START_PKT_1 } else { 0 })
            | (if self.start_pkt_2 { QUIRK_START_PKT_2 } else { 0 })
            | (if self.start_pkt_3 { QUIRK_START_PKT_3 } else { 0 })
            | (if self.ghl_xboxone { QUIRK_GHL_XBOXONE } else { 0 })
    }
}

/// Round trip between the named-field quirk form and the historical quirk
/// byte: the named fields carry exactly the information of the bitset
/// source form, bit for bit.
pub proof fn lemma_quirk_bits_roundtrip(c: QuirkConfig)
    ensures
        QuirkConfig::spec_from_bits(c.spec_bits()) == c,
{
    let x1: u8 = if c.start_pkt_1 { QUIRK_START_PKT_1 } else { 0 };
    let x2: u8 = if c.start_pkt_2 { QUIRK_START_PKT_2 } else { 0 };
    let x3: u8 = if c.start_pkt_3 { QUIRK_START_PKT_3 } else { 0 };
    let x4: u8 = if c.ghl_xboxone { QUIRK_GHL_XBOXONE } else { 0 };
    let b: u8 = x1 | x2 | x3 | x4;
    assert(c.spec_bits() == b);
    assert(((b & 0x01 != 0) == (x1 == 0x01)) && ((b & 0x02 != 0) == (x2 == 0x02))
        && ((b & 0x04 != 0) == (x3 == 0x04)) && ((b & 0x08 != 0) == (x4 == 0x08)))
        by (bit_vector)
        requires
            (x1 == 0x01 || x1 == 0) && (x2 == 0x02 || x2 == 0) && (x3 == 0x04 || x3 == 0) && (x4
                == 0x08 || x4 == 0),
            b == (x1 | x2 | x3 | x4),
    ;
}

/// The quirk combination shared by Xbox 360 controllers that want all three
/// start-packet template groups.
pub fn quirk_360_start() -> (c: QuirkConfig)
    ensures
        c == QuirkConfig::spec_from_bits(QUIRK_START_PKT_1 | QUIRK_START_PKT_2 | QUIRK_START_PKT_3),
{
    let c = QuirkConfig::from_bits(QUIRK_START_PKT_1 | QUIRK_START_PKT_2 | QUIRK_START_PKT_3);
    c
}

/// Immutable identity and configuration of one connected device, supplied
/// by the external profile registry when the session is created.
#[derive(Clone, Copy, Debug)]
pub struct DeviceProfile {
    pub vendor_id: u16,
    pub product_id: u16,
    pub name: &'static str,
    pub mapping: MappingConfig,
    pub xtype: XType,
    pub quirks: QuirkConfig,
}

} // verus!
