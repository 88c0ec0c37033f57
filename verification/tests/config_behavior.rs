//! Behaviour of the named-field configuration forms and their
//! equivalence with the historical flag bytes.

use xpad::config::{dancepad_map_config, quirk_360_start, MappingConfig, QuirkConfig};
use xpad::config::{
    MAP_DPAD_TO_BUTTONS, MAP_PADDLES, MAP_PROFILE_BUTTON, MAP_SELECT_BUTTON, MAP_STICKS_TO_NULL,
    MAP_TRIGGERS_TO_BUTTONS,
};

#[test]
fn mapping_empty_has_no_flags() {
    let c = MappingConfig::empty();
    assert!(
        !c.dpad_to_buttons
            && !c.triggers_to_buttons
            && !c.sticks_to_null
            && !c.select_button
            && !c.paddles
            && !c.profile_button
    );
    assert_eq!(c.bits(), 0);
}

#[test]
fn mapping_from_bits_each_flag() {
    assert!(MappingConfig::from_bits(MAP_DPAD_TO_BUTTONS).dpad_to_buttons);
    assert!(MappingConfig::from_bits(MAP_TRIGGERS_TO_BUTTONS).triggers_to_buttons);
    assert!(MappingConfig::from_bits(MAP_STICKS_TO_NULL).sticks_to_null);
    assert!(MappingConfig::from_bits(MAP_SELECT_BUTTON).select_button);
    assert!(MappingConfig::from_bits(MAP_PADDLES).paddles);
    assert!(MappingConfig::from_bits(MAP_PROFILE_BUTTON).profile_button);
}

#[test]
fn mapping_bits_round_trip() {
    for bits in 0u8..0x40 {
        let c = MappingConfig::from_bits(bits);
        assert_eq!(c.bits(), bits);
        assert_eq!(MappingConfig::from_bits(c.bits()), c);
    }
}

#[test]
fn mapping_ignores_undefined_bits() {
    let c = MappingConfig::from_bits(0xc0);
    assert_eq!(c, MappingConfig::empty());
}

#[test]
fn dancepad_preset_flags() {
    let c = dancepad_map_config();
    assert!(c.dpad_to_buttons && c.triggers_to_buttons && c.sticks_to_null);
    assert!(!c.select_button && !c.paddles && !c.profile_button);
}

#[test]
fn quirk_from_bits_each_flag() {
    assert!(QuirkConfig::from_bits(0x01).start_pkt_1);
    assert!(QuirkConfig::from_bits(0x02).start_pkt_2);
    assert!(QuirkConfig::from_bits(0x04).start_pkt_3);
    assert!(QuirkConfig::from_bits(0x08).ghl_xboxone);
    assert_eq!(QuirkConfig::from_bits(0), QuirkConfig::empty());
}

#[test]
fn quirk_bits_round_trip() {
    for bits in 0u8..0x10 {
        let q = QuirkConfig::from_bits(bits);
        assert_eq!(q.bits(), bits);
    }
}

#[test]
fn quirk_360_start_combination() {
    let q = quirk_360_start();
    assert!(q.start_pkt_1 && q.start_pkt_2 && q.start_pkt_3);
    assert!(!q.ghl_xboxone);
}
