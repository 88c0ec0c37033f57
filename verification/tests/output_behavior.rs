//! Behaviour of the effect encoder, the initialization sequencer and the
//! output scheduler.

use xpad::config::{DeviceProfile, MappingConfig, QuirkConfig, XType};
use xpad::encode::{encode_command, ghl_keepalive_packet, OutputCommand};
use xpad::packet::XpadError;
use xpad::session::{ControllerSession, SubmitStatus};

fn session_for(vendor: u16, product: u16, xtype: XType) -> ControllerSession {
    ControllerSession::new(DeviceProfile {
        vendor_id: vendor,
        product_id: product,
        name: "test pad",
        mapping: MappingConfig::empty(),
        xtype,
        quirks: QuirkConfig::empty(),
    })
}

#[test]
fn rumble_scale_round_trip() {
    // Encoding strong = 1024 must place 1024 / 512 = 2 in the strong
    // motor byte.
    let cmd = OutputCommand::Rumble { strong: 1024, weak: 0 };
    let p = encode_command(XType::XboxOne, 0, &cmd).unwrap();
    assert_eq!(p.bytes[8], 2);
    assert_eq!(p.bytes[9], 0);
}

#[test]
fn rumble_packet_layout() {
    let cmd = OutputCommand::Rumble { strong: 0xffff, weak: 512 };
    let p = encode_command(XType::XboxOne, 7, &cmd).unwrap();
    assert_eq!(
        p.bytes,
        vec![0x09, 0x00, 7, 0x09, 0x00, 0x0f, 0x00, 0x00, 127, 1, 0xff, 0x00, 0xff]
    );
}

#[test]
fn led_packet_layout() {
    let p = encode_command(XType::XboxOne, 3, &OutputCommand::LedPattern(0x14)).unwrap();
    assert_eq!(p.bytes, vec![0x0a, 0x20, 3, 0x03, 0x00, 0x01, 0x14]);
}

#[test]
fn ack_packet_layout() {
    let p = encode_command(XType::XboxOne, 5, &OutputCommand::HandshakeAck(0x42)).unwrap();
    assert_eq!(
        p.bytes,
        vec![0x01, 0x20, 5, 0x09, 0x00, 0x07, 0x20, 0x02, 0x42, 0x00, 0x00, 0x00, 0x00]
    );
}

#[test]
fn rumble_unsupported_off_xbox_one() {
    let cmd = OutputCommand::Rumble { strong: 1, weak: 1 };
    assert_eq!(encode_command(XType::Xbox360, 0, &cmd), Err(XpadError::UnsupportedCommand));
    assert_eq!(encode_command(XType::Xbox, 0, &cmd), Err(XpadError::UnsupportedCommand));
    assert_eq!(encode_command(XType::Xbox360W, 0, &cmd), Err(XpadError::UnsupportedCommand));
    assert_eq!(encode_command(XType::Unknown, 0, &cmd), Err(XpadError::UnsupportedCommand));
}

#[test]
fn ghl_keepalive_is_fixed() {
    let a = ghl_keepalive_packet();
    let b = ghl_keepalive_packet();
    assert_eq!(a.bytes, b.bytes);
    assert_eq!(a.bytes[0], 0x22);
    assert_eq!(a.bytes.len(), 14);
}

#[test]
fn sequencer_filters_and_counts_serials() {
    // 0x045e:0x02ea matches the wildcard power-on and its own S-init
    // entry; serials must be strictly increasing from zero.
    let mut s = session_for(0x045e, 0x02ea, XType::XboxOne);
    let first = s.next_transmission().expect("power-on applies to every device");
    assert_eq!(first.bytes[0], 0x05);
    assert_eq!(first.bytes[2], 0, "first serial");
    s.transfer_complete();
    let second = s.next_transmission().expect("S-init applies to this identity");
    assert_eq!(&second.bytes[..2], &[0x05, 0x20]);
    assert_eq!(second.bytes[2], 1, "second serial");
    assert_eq!(second.bytes[3..], [0x0f, 0x06]);
    s.transfer_complete();
    assert!(s.next_transmission().is_none(), "sequence exhausted");
}

#[test]
fn sequencer_exhaustion_is_permanent() {
    let mut s = session_for(0x1209, 0x2882, XType::Xbox360);
    let only = s.next_transmission().expect("wildcard power-on");
    assert_eq!(only.bytes[2], 0);
    s.transfer_complete();
    for _ in 0..3 {
        assert!(s.next_transmission().is_none());
        s.transfer_complete();
    }
}

#[test]
fn sequencer_wildcard_product_match() {
    // A PDP device picks up power-on, the LED packet and the
    // authentication packet, in template order.
    let mut s = session_for(0x0e6f, 0x02a4, XType::XboxOne);
    let tags: Vec<u8> = std::iter::from_fn(|| {
        let p = s.next_transmission();
        s.transfer_complete();
        p.map(|p| p.bytes[0])
    })
    .collect();
    assert_eq!(tags, vec![0x05, 0x0a, 0x06]);
}

#[test]
fn sequencer_device_specific_ack_first() {
    let mut s = session_for(0x0f0d, 0x0067, XType::XboxOne);
    let first = s.next_transmission().unwrap();
    assert_eq!(first.bytes[0], 0x01, "identify-ack precedes power-on");
    s.transfer_complete();
    let second = s.next_transmission().unwrap();
    assert_eq!(second.bytes[0], 0x05);
    assert_eq!(second.bytes[2], 1);
}

#[test]
fn init_precedes_effects() {
    let mut s = session_for(0x045e, 0x02d1, XType::XboxOne);
    let st = s.submit(&OutputCommand::Rumble { strong: 1024, weak: 0 }).unwrap();
    assert_eq!(st, SubmitStatus::Accepted);
    let first = s.next_transmission().unwrap();
    assert_eq!(first.bytes[0], 0x05, "initialization outranks the pending effect");
    s.transfer_complete();
    let second = s.next_transmission().unwrap();
    assert_eq!(second.bytes[0], 0x09, "the effect follows once init is exhausted");
}

#[test]
fn at_most_one_outstanding_transfer() {
    let mut s = session_for(0x045e, 0x02d1, XType::XboxOne);
    let first = s.next_transmission();
    assert!(first.is_some());
    assert!(s.next_transmission().is_none(), "no second transfer before completion");
    assert!(s.next_transmission().is_none());
    s.transfer_complete();
    s.submit(&OutputCommand::LedPattern(1)).unwrap();
    assert!(s.next_transmission().is_some());
}

#[test]
fn later_effect_replaces_earlier_pending() {
    let mut s = session_for(0x045e, 0x02d1, XType::XboxOne);
    // Occupy the transport with the first init packet.
    let init = s.next_transmission().unwrap();
    assert_eq!(init.bytes[0], 0x05);
    let a = s.submit(&OutputCommand::Rumble { strong: 512, weak: 0 }).unwrap();
    assert_eq!(a, SubmitStatus::BusyDropped);
    let b = s.submit(&OutputCommand::Rumble { strong: 1024, weak: 0 }).unwrap();
    assert_eq!(b, SubmitStatus::BusyDropped);
    s.transfer_complete();
    let sent = s.next_transmission().expect("the pending effect is transmitted");
    assert_eq!(sent.bytes[0], 0x09);
    assert_eq!(sent.bytes[8], 2, "only the later effect is transmitted");
    s.transfer_complete();
    assert!(s.next_transmission().is_none(), "the earlier effect was dropped");
}

#[test]
fn submit_unsupported_leaves_session_unchanged() {
    let mut s = session_for(0x045e, 0x028e, XType::Xbox360);
    let r = s.submit(&OutputCommand::Rumble { strong: 1, weak: 1 });
    assert_eq!(r, Err(XpadError::UnsupportedCommand));
    // The serial was not consumed: the first init packet still carries 0.
    let first = s.next_transmission().unwrap();
    assert_eq!(first.bytes[2], 0);
}

#[test]
fn submit_serial_advances_per_encoded_effect() {
    let mut s = session_for(0x9999, 0x0001, XType::XboxOne);
    // No template but the wildcard applies; drain it first.
    let init = s.next_transmission().unwrap();
    assert_eq!(init.bytes[2], 0);
    s.transfer_complete();
    s.submit(&OutputCommand::LedPattern(1)).unwrap();
    s.submit(&OutputCommand::LedPattern(2)).unwrap();
    let sent = s.next_transmission().unwrap();
    assert_eq!(sent.bytes[2], 2, "two submits consumed serials 1 and 2");
    assert_eq!(sent.bytes[6], 2, "the later pattern is the one transmitted");
}
