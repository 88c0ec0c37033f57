//! Initialization sequencer: a static ordered list of handshake templates,
//! filtered by device identity, each produced packet stamped with the
//! session's output serial.

use vstd::prelude::*;
use vstd::pervasive::VecAdditionalExecFns;
use crate::packet::RawPacket;
use crate::packet::XPAD_PKT_LEN;

verus! {

/// One initialization template: a handshake payload together with the
/// device identity it applies to.  A recorded id of zero is a wildcard.
/// Byte 2 of every payload is the serial position the sequencer stamps.
#[derive(Clone, Debug)]
pub struct InitTemplate {
    pub vendor: u16,
    pub product: u16,
    pub payload: Vec<u8>,
}

/// A template applies to a device when its recorded vendor id is wildcard
/// (zero) or equal to the device's, and likewise for the product id.
pub open spec fn spec_template_applies(t: InitTemplate, vendor: u16, product: u16) -> bool {
    (t.vendor == 0 || t.vendor == vendor) && (t.product == 0 || t.product == product)
}

pub fn template_applies(t: &InitTemplate, vendor: u16, product: u16) -> (r: bool)
    ensures
        r == spec_template_applies(*t, vendor, product),
{
    (t.vendor == 0 || t.vendor == vendor) && (t.product == 0 || t.product == product)
}

/// Every template payload carries at least the three header bytes (the
/// serial stands at byte 2) and fits one wire packet.
pub open spec fn spec_templates_wf(ts: Seq<InitTemplate>) -> bool {
    forall|i: int| 0 <= i < ts.len() ==> 3 <= (#[trigger] ts[i].payload)@.len() <= XPAD_PKT_LEN
}

/// Index of the first template at or after `cursor` that applies to the
/// device, or the list length when none is left.
pub open spec fn spec_first_applicable(
    ts: Seq<InitTemplate>,
    vendor: u16,
    product: u16,
    cursor: int,
) -> int
    decreases ts.len() - cursor,
{
    if cursor >= ts.len() {
        ts.len() as int
    } else if 0 <= cursor && spec_template_applies(ts[cursor], vendor, product) {
        cursor
    } else {
        spec_first_applicable(ts, vendor, product, cursor + 1)
    }
}

/// If nothing applies in `[cursor, i)` and `i` is the list length or an
/// applicable index, then `i` is exactly the first applicable index.
proof fn lemma_first_applicable_is(
    ts: Seq<InitTemplate>,
    vendor: u16,
    product: u16,
    cursor: int,
    i: int,
)
    requires
        0 <= cursor <= i <= ts.len(),
        forall|j: int| cursor <= j < i ==> !spec_template_applies(#[trigger] ts[j], vendor, product),
        i == ts.len() || spec_template_applies(ts[i], vendor, product),
    ensures
        spec_first_applicable(ts, vendor, product, cursor) == i,
    decreases i - cursor,
{
    if cursor < i {
        lemma_first_applicable_is(ts, vendor, product, cursor + 1, i);
    }
}

/// The output serial after one stamp: incremented, wrapping modulo 256.
pub open spec fn spec_next_serial(s: u8) -> u8 {
    if s == 255 {
        0
    } else {
        (s + 1) as u8
    }
}

/// One sequencer step from (cursor, serial): the stamped payload of the
/// first applicable template together with the advanced cursor and serial,
/// or no payload and the cursor parked at the list length.
pub open spec fn spec_seq_next(
    ts: Seq<InitTemplate>,
    vendor: u16,
    product: u16,
    cursor: int,
    serial: u8,
) -> (Option<Seq<u8>>, int, u8) {
    let k = spec_first_applicable(ts, vendor, product, cursor);
    if k < ts.len() {
        (Some(ts[k].payload@.update(2, serial)), k + 1, spec_next_serial(serial))
    } else {
        (None, ts.len() as int, serial)
    }
}

/// Scan the template list from `cursor` for the first template that
/// applies to the device; return its payload with the serial stamped at
/// byte 2, together with the new cursor and serial.  The step is exactly
/// `spec_seq_next`; a `None` result parks the cursor at the list length.
pub fn next_init_packet(
    templates: &Vec<InitTemplate>,
    vendor: u16,
    product: u16,
    cursor: usize,
    serial: u8,
) -> (r: (Option<RawPacket>, usize, u8))
    requires
        cursor <= templates@.len(),
        spec_templates_wf(templates@),
    ensures
        ({
            let s = spec_seq_next(templates@, vendor, product, cursor as int, serial);
            &&& (match r.0 {
                Some(pkt) => s.0 == Some(pkt@),
                None => s.0 is None,
            })
            &&& r.1 == s.1
            &&& r.2 == s.2
        }),
        r.1 <= templates@.len(),
{
    let n = templates.len();
    let mut i = cursor;
    while i < n
        invariant
            cursor <= i <= n,
            n == templates@.len(),
            spec_templates_wf(templates@),
            forall|j: int|
                cursor <= j < i ==> !spec_template_applies(
                    #[trigger] templates@[j],
                    vendor,
                    product,
                ),
        decreases n - i,
    {
        let t = &templates[i];
        if template_applies(t, vendor, product) {
            proof {
                lemma_first_applicable_is(templates@, vendor, product, cursor as int, i as int);
            }
            let plen = t.payload.len();
            let mut bytes: Vec<u8> = Vec::new();
            let mut j: usize = 0;
            while j < plen
                invariant
                    j <= plen,
                    plen == t.payload@.len(),
                    bytes@ == t.payload@.subrange(0, j as int),
                decreases plen - j,
            {
                bytes.push(t.payload[j]);
                proof {
                    assert(t.payload@.subrange(0, j as int).push(t.payload@[j as int]) =~= t
                        .payload@.subrange(0, (j + 1) as int));
                }
                j += 1;
            }
            proof {
                assert(bytes@ =~= t.payload@);
            }
            bytes.set(2, serial);
            let next = if serial == 255 {
                0
            } else {
                serial + 1
            };
            return (Some(RawPacket::new(bytes)), i + 1, next);
        }
        i += 1;
    }
    proof {
        lemma_first_applicable_is(templates@, vendor, product, cursor as int, n as int);
    }
    (None, n, serial)
}

/// Law: every produced packet is stamped with the serial the sequencer
/// held when it was produced, and the serial then advances by exactly one
/// modulo 256 — so the packets of consecutive successful steps carry
/// strictly increasing serials modulo 256.
pub proof fn lemma_init_serial_steps(
    ts: Seq<InitTemplate>,
    vendor: u16,
    product: u16,
    cursor: int,
    serial: u8,
)
    requires
        spec_templates_wf(ts),
        0 <= cursor,
    ensures
        spec_seq_next(ts, vendor, product, cursor, serial).0 matches Some(pl) && pl[2] == serial
            || spec_seq_next(ts, vendor, product, cursor, serial).0 is None,
        spec_seq_next(ts, vendor, product, cursor, serial).0 is Some ==> spec_seq_next(
            ts,
            vendor,
            product,
            cursor,
            serial,
        ).2 == spec_next_serial(serial),
        spec_next_serial(serial) == ((serial + 1) % 256) as u8,
{
    let k = spec_first_applicable(ts, vendor, product, cursor);
    if cursor <= ts.len() {
        lemma_first_applicable_bounds(ts, vendor, product, cursor);
    }
    if k < ts.len() {
        assert(ts[k].payload@.update(2, serial)[2] == serial);
    }
}

/// The first applicable index never lies before the cursor nor beyond the
/// list length.
proof fn lemma_first_applicable_bounds(
    ts: Seq<InitTemplate>,
    vendor: u16,
    product: u16,
    cursor: int,
)
    requires
        0 <= cursor <= ts.len(),
    ensures
        cursor <= spec_first_applicable(ts, vendor, product, cursor) <= ts.len(),
    decreases ts.len() - cursor,
{
    if cursor < ts.len() && !spec_template_applies(ts[cursor], vendor, product) {
        lemma_first_applicable_bounds(ts, vendor, product, cursor + 1);
    }
}

/// Law: exhaustion is permanent.  A step that yields no packet parks the
/// cursor at the list length, and every step from the list length yields
/// no packet, leaves the cursor there and the serial untouched — so once
/// `None` is returned, every later call returns `None` again.
pub proof fn lemma_init_exhaustion_permanent(
    ts: Seq<InitTemplate>,
    vendor: u16,
    product: u16,
    serial: u8,
)
    ensures
        spec_seq_next(ts, vendor, product, ts.len() as int, serial).0 is None,
        spec_seq_next(ts, vendor, product, ts.len() as int, serial).1 == ts.len(),
        spec_seq_next(ts, vendor, product, ts.len() as int, serial).2 == serial,
        forall|c: int, s: u8|
            (#[trigger] spec_seq_next(ts, vendor, product, c, s)).0 is None ==> spec_seq_next(
                ts,
                vendor,
                product,
                c,
                s,
            ).1 == ts.len(),
{
}

} // verus!
