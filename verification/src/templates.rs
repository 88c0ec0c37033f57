//! The static ordered list of initialization templates for the Xbox One
//! (GIP) handshake.  Byte 2 of every payload is the serial position.

use vstd::prelude::*;
use crate::init::InitTemplate;
use crate::init::spec_templates_wf;

verus! {

/// Number of entries in the initialization template list.
pub const INIT_TEMPLATE_COUNT: usize = 9;

/// Identify-acknowledgement for the two arcade-stick devices that expect
/// it before the power-on packet.
pub open spec fn spec_payload_hori_ack() -> Seq<u8> {
    seq![0x01u8, 0x20, 0x00, 0x09, 0x00, 0x04, 0x20, 0x3a, 0x00, 0x00, 0x00, 0x80, 0x00]
}

/// Wildcard power-on packet every GIP device receives.
pub open spec fn spec_payload_power_on() -> Seq<u8> {
    seq![0x05u8, 0x20, 0x00, 0x01, 0x00]
}

/// Extended power-on for the S-generation and Elite 2 pads.
pub open spec fn spec_payload_s_init() -> Seq<u8> {
    seq![0x05u8, 0x20, 0x00, 0x0f, 0x06]
}

/// LED-on packet the PDP family expects during the handshake.
pub open spec fn spec_payload_led_on() -> Seq<u8> {
    seq![0x0au8, 0x20, 0x00, 0x03, 0x00, 0x01, 0x14]
}

/// Authentication-done packet the PDP family expects.
pub open spec fn spec_payload_auth() -> Seq<u8> {
    seq![0x06u8, 0x20, 0x00, 0x02, 0x01, 0x00]
}

/// Start of the rumble pulse some third-party pads need to finish
/// initialization.
pub open spec fn spec_payload_rumble_begin() -> Seq<u8> {
    seq![0x09u8, 0x00, 0x00, 0x09, 0x00, 0x0f, 0x04, 0x04, 0x20, 0x20, 0x80, 0x00]
}

/// End of that rumble pulse.
pub open spec fn spec_payload_rumble_end() -> Seq<u8> {
    seq![0x09u8, 0x00, 0x00, 0x09, 0x00, 0x0f, 0x04, 0x04, 0x00, 0x00, 0x00, 0x00]
}

/// Vendor id recorded at position `i` of the template list.
pub open spec fn spec_init_vendor(i: int) -> u16 {
    if i == 0 {
        0x0e6f
    } else if i == 1 {
        0x0f0d
    } else if i == 2 {
        0
    } else if i == 3 {
        0x045e
    } else if i == 4 {
        0x045e
    } else if i == 5 {
        0x0e6f
    } else if i == 6 {
        0x0e6f
    } else if i == 7 {
        0x24c6
    } else {
        0x24c6
    }
}

/// Product id recorded at position `i` of the template list.
pub open spec fn spec_init_product(i: int) -> u16 {
    if i == 0 {
        0x0165
    } else if i == 1 {
        0x0067
    } else if i == 2 {
        0
    } else if i == 3 {
        0x02ea
    } else if i == 4 {
        0x0b00
    } else {
        0
    }
}

/// Payload recorded at position `i` of the template list.
pub open spec fn spec_init_payload(i: int) -> Seq<u8> {
    if i == 0 || i == 1 {
        spec_payload_hori_ack()
    } else if i == 2 {
        spec_payload_power_on()
    } else if i == 3 || i == 4 {
        spec_payload_s_init()
    } else if i == 5 {
        spec_payload_led_on()
    } else if i == 6 {
        spec_payload_auth()
    } else if i == 7 {
        spec_payload_rumble_begin()
    } else {
        spec_payload_rumble_end()
    }
}

/// Build the template list: identify-acks for the two Hori devices, the
/// wildcard power-on, the S-generation power-on pair, the PDP LED and
/// authentication packets, and the rumble pulse pair.
pub fn init_templates() -> (r: Vec<InitTemplate>)
    ensures
        r@.len() == INIT_TEMPLATE_COUNT,
        forall|i: int|
            0 <= i < r@.len() ==> (#[trigger] r@[i]).vendor == spec_init_vendor(i)
                && r@[i].product == spec_init_product(i) && r@[i].payload@ == spec_init_payload(i),
        spec_templates_wf(r@),
{
    let mut r: Vec<InitTemplate> = Vec::new();
    let hori: Vec<u8> = vec![0x01u8, 0x20, 0x00, 0x09, 0x00, 0x04, 0x20, 0x3a, 0x00, 0x00, 0x00, 0x80, 0x00];
    let hori2: Vec<u8> = vec![0x01u8, 0x20, 0x00, 0x09, 0x00, 0x04, 0x20, 0x3a, 0x00, 0x00, 0x00, 0x80, 0x00];
    let power_on: Vec<u8> = vec![0x05u8, 0x20, 0x00, 0x01, 0x00];
    let s_init: Vec<u8> = vec![0x05u8, 0x20, 0x00, 0x0f, 0x06];
    let s_init2: Vec<u8> = vec![0x05u8, 0x20, 0x00, 0x0f, 0x06];
    let led_on: Vec<u8> = vec![0x0au8, 0x20, 0x00, 0x03, 0x00, 0x01, 0x14];
    let auth: Vec<u8> = vec![0x06u8, 0x20, 0x00, 0x02, 0x01, 0x00];
    let rumble_begin: Vec<u8> = vec![0x09u8, 0x00, 0x00, 0x09, 0x00, 0x0f, 0x04, 0x04, 0x20, 0x20, 0x80, 0x00];
    let rumble_end: Vec<u8> = vec![0x09u8, 0x00, 0x00, 0x09, 0x00, 0x0f, 0x04, 0x04, 0x00, 0x00, 0x00, 0x00];
    r.push(InitTemplate { vendor: 0x0e6f, product: 0x0165, payload: hori });
    r.push(InitTemplate { vendor: 0x0f0d, product: 0x0067, payload: hori2 });
    r.push(InitTemplate { vendor: 0, product: 0, payload: power_on });
    r.push(InitTemplate { vendor: 0x045e, product: 0x02ea, payload: s_init });
    r.push(InitTemplate { vendor: 0x045e, product: 0x0b00, payload: s_init2 });
    r.push(InitTemplate { vendor: 0x0e6f, product: 0, payload: led_on });
    r.push(InitTemplate { vendor: 0x0e6f, product: 0, payload: auth });
    r.push(InitTemplate { vendor: 0x24c6, product: 0, payload: rumble_begin });
    r.push(InitTemplate { vendor: 0x24c6, product: 0, payload: rumble_end });
    r
}

} // verus!
