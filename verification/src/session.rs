//! The per-device controller session: presence and revision tracking,
//! inbound decode dispatch, and the output scheduler that arbitrates
//! between initialization packets and effect commands under the
//! at-most-one-outstanding-transfer invariant.

use vstd::prelude::*;
use crate::config::DeviceProfile;
use crate::config::MappingConfig;
use crate::config::PacketType;
use crate::config::QuirkConfig;
use crate::config::XType;
use crate::decode::decode_wireless;
use crate::decode::decode_x360_at;
use crate::decode::decode_xone;
use crate::decode::spec_wireless_decoded;
use crate::decode::spec_wireless_presence_after;
use crate::decode::spec_x360_frame;
use crate::decode::spec_xone_decoded;
use crate::encode::encode_command;
use crate::encode::spec_encode;
use crate::encode::OutputCommand;
use crate::frame::Decoded;
use crate::init::next_init_packet;
use crate::init::spec_next_serial;
use crate::init::spec_seq_next;
use crate::init::spec_templates_wf;
use crate::init::InitTemplate;
use crate::packet::RawPacket;
use crate::packet::XpadError;
use crate::packet::XPAD_PKT_LEN;
use crate::templates::init_templates;
use crate::templates::spec_init_payload;
use crate::templates::spec_init_product;
use crate::templates::spec_init_vendor;
use crate::templates::INIT_TEMPLATE_COUNT;

verus! {

/// Spec-level snapshot of one controller session: what every contract of
/// the session speaks about.
pub struct SessionModel {
    pub vendor: u16,
    pub product: u16,
    pub mapping: MappingConfig,
    pub quirks: QuirkConfig,
    pub variant: XType,
    pub revision: PacketType,
    pub presence: bool,
    pub templates: Seq<InitTemplate>,
    pub init_cursor: int,
    pub output_serial: u8,
    pub outstanding_transfer: bool,
    pub pending_effect: Option<Seq<u8>>,
}

/// One controller session, created on device attach and destroyed on
/// detach.  All mutable per-device state lives here; decoding and
/// encoding allocate nothing outside it.
pub struct ControllerSession {
    pub profile: DeviceProfile,
    pub revision: PacketType,
    pub presence: bool,
    pub templates: Vec<InitTemplate>,
    pub init_cursor: usize,
    pub output_serial: u8,
    pub outstanding_transfer: bool,
    pub pending_effect: Option<RawPacket>,
}

impl View for ControllerSession {
    type V = SessionModel;

    open spec fn view(&self) -> SessionModel {
        SessionModel {
            vendor: self.profile.vendor_id,
            product: self.profile.product_id,
            mapping: self.profile.mapping,
            quirks: self.profile.quirks,
            variant: self.profile.xtype,
            revision: self.revision,
            presence: self.presence,
            templates: self.templates@,
            init_cursor: self.init_cursor as int,
            output_serial: self.output_serial,
            outstanding_transfer: self.outstanding_transfer,
            pending_effect: match self.pending_effect {
                Some(p) => Some(p@),
                None => None,
            },
        }
    }
}

/// The outcome that decoding one full-length packet yields on a session,
/// dispatched on the controller variant: the wireless path consults the
/// presence flag, the Xbox One path the quirks and the negotiated
/// revision, and every other variant uses the shared fixed layout.
pub open spec fn spec_session_decoded(m: SessionModel, d: Seq<u8>) -> Decoded {
    match m.variant {
        XType::Xbox360W => spec_wireless_decoded(m.mapping, m.presence, d),
        XType::XboxOne => spec_xone_decoded(m.mapping, m.quirks, m.revision, d),
        _ => Decoded {
            frame: Some(spec_x360_frame(m.mapping, d, 0)),
            presence_changed: None,
            ack_request: None,
        },
    }
}

/// The presence flag after decoding one full-length packet: only the
/// wireless variant ever changes it.
pub open spec fn spec_session_presence_after(m: SessionModel, d: Seq<u8>) -> bool {
    match m.variant {
        XType::Xbox360W => spec_wireless_presence_after(m.presence, d),
        _ => m.presence,
    }
}

/// One submit step: encode the command with the current serial; on
/// success the serial advances and the packet becomes the pending effect,
/// replacing any not-yet-sent predecessor; an unsupported command changes
/// nothing.  The status is `BusyDropped` when a transfer was outstanding,
/// `Accepted` when the scheduler is free to transmit at once.
pub open spec fn spec_submit(m: SessionModel, cmd: OutputCommand) -> (
    SessionModel,
    Result<SubmitStatus, XpadError>,
) {
    match spec_encode(m.variant, m.output_serial, cmd) {
        Some(pl) => (
            SessionModel {
                output_serial: spec_next_serial(m.output_serial),
                pending_effect: Some(pl),
                ..m
            },
            Ok(
                if m.outstanding_transfer {
                    SubmitStatus::BusyDropped
                } else {
                    SubmitStatus::Accepted
                },
            ),
        ),
        None => (m, Err(XpadError::UnsupportedCommand)),
    }
}

/// One scheduler step: nothing is handed out while a transfer is
/// outstanding; otherwise an unexhausted initialization step precedes any
/// pending effect, and handing a packet out marks the transfer
/// outstanding.
pub open spec fn spec_next_transmission(m: SessionModel) -> (SessionModel, Option<Seq<u8>>) {
    if m.outstanding_transfer {
        (m, None)
    } else {
        let s = spec_seq_next(m.templates, m.vendor, m.product, m.init_cursor, m.output_serial);
        if s.0 is Some {
            (
                SessionModel {
                    init_cursor: s.1,
                    output_serial: s.2,
                    outstanding_transfer: true,
                    ..m
                },
                s.0,
            )
        } else if m.pending_effect is Some {
            (
                SessionModel {
                    init_cursor: s.1,
                    pending_effect: None,
                    outstanding_transfer: true,
                    ..m
                },
                m.pending_effect,
            )
        } else {
            (SessionModel { init_cursor: s.1, ..m }, None)
        }
    }
}

/// Result of submitting an effect command: accepted for the next transmit
/// opportunity, or submitted while a transfer was outstanding, in which
/// case the candidate only replaced the pending slot and the previously
/// pending content was dropped.
#[derive(Clone, Copy, Debug, PartialEq, Eq, Structural)]
pub enum SubmitStatus {
    Accepted,
    BusyDropped,
}

impl ControllerSession {
    /// A session is well-formed while its template list is the static
    /// initialization list and its cursor stays within it.
    pub open spec fn wf(self) -> bool {
        &&& self@.templates.len() == INIT_TEMPLATE_COUNT
        &&& forall|i: int|
            0 <= i < self@.templates.len() ==> (#[trigger] self@.templates[i]).vendor
                == spec_init_vendor(i) && self@.templates[i].product == spec_init_product(i)
                && self@.templates[i].payload@ == spec_init_payload(i)
        &&& spec_templates_wf(self@.templates)
        &&& 0 <= self@.init_cursor <= self@.templates.len()
    }

    /// Create the session for one attached device: presence unknown
    /// (false), basic revision, sequencer at the head of the template
    /// list, serial zero, no transfer outstanding and nothing pending.
    pub fn new(profile: DeviceProfile) -> (s: ControllerSession)
        ensures
            s.wf(),
            s@.vendor == profile.vendor_id,
            s@.product == profile.product_id,
            s@.mapping == profile.mapping,
            s@.quirks == profile.quirks,
            s@.variant == profile.xtype,
            s@.revision == PacketType::Xb,
            s@.presence == false,
            s@.init_cursor == 0,
            s@.output_serial == 0,
            s@.outstanding_transfer == false,
            (s@.pending_effect is None),
    {
        ControllerSession {
            profile,
            revision: PacketType::Xb,
            presence: false,
            templates: init_templates(),
            init_cursor: 0,
            output_serial: 0,
            outstanding_transfer: false,
            pending_effect: None,
        }
    }

    /// Decode one inbound packet.  A buffer shorter than the wire size is
    /// rejected loudly and leaves the session untouched; a full-length
    /// packet yields exactly the variant's decode outcome and updates only
    /// the wireless presence flag.
    pub fn decode(&mut self, packet: &RawPacket) -> (r: Result<Decoded, XpadError>)
        requires
            old(self).wf(),
        ensures
            final(self).wf(),
            packet@.len() < XPAD_PKT_LEN ==> r == Err::<Decoded, XpadError>(
                XpadError::InvalidPacketLength,
            ) && *final(self) == *old(self),
            packet@.len() >= XPAD_PKT_LEN ==> r == Ok::<Decoded, XpadError>(
                spec_session_decoded(old(self)@, packet@),
            ),
            packet@.len() >= XPAD_PKT_LEN ==> final(self)@ == (SessionModel {
                presence: spec_session_presence_after(old(self)@, packet@),
                ..old(self)@
            }),
    {
        if packet.len() < XPAD_PKT_LEN {
            return Err(XpadError::InvalidPacketLength);
        }
        let d = packet.bytes.as_slice();
        match self.profile.xtype {
            XType::Xbox360W => {
                let (dec, newp) = decode_wireless(&self.profile.mapping, self.presence, d);
                self.presence = newp;
                Ok(dec)
            },
            XType::XboxOne => Ok(
                decode_xone(&self.profile.mapping, &self.profile.quirks, self.revision, d),
            ),
            _ => Ok(
                Decoded {
                    frame: Some(decode_x360_at(&self.profile.mapping, d, 0)),
                    presence_changed: None,
                    ack_request: None,
                },
            ),
        }
    }

    /// Record the revision a firmware-info exchange negotiated.  The
    /// revision is set once and never regresses: only a session still at
    /// the basic revision takes the new value.
    pub fn negotiate_revision(&mut self, r: PacketType)
        requires
            old(self).wf(),
        ensures
            final(self).wf(),
            old(self).revision == PacketType::Xb ==> final(self)@ == (SessionModel {
                revision: r,
                ..old(self)@
            }),
            old(self).revision != PacketType::Xb ==> *final(self) == *old(self),
    {
        if self.revision == PacketType::Xb {
            self.revision = r;
        }
    }

    /// Submit one effect command: encode it with the current serial and
    /// make it the pending effect, replacing any not-yet-sent
    /// predecessor.  Succeeds exactly when the variant carries the
    /// command; the status says whether a transfer was outstanding.
    pub fn submit(&mut self, cmd: &OutputCommand) -> (r: Result<SubmitStatus, XpadError>)
        requires
            old(self).wf(),
        ensures
            final(self).wf(),
            final(self)@ == spec_submit(old(self)@, *cmd).0,
            r == spec_submit(old(self)@, *cmd).1,
    {
        match encode_command(self.profile.xtype, self.output_serial, cmd) {
            Ok(p) => {
                let status = if self.outstanding_transfer {
                    SubmitStatus::BusyDropped
                } else {
                    SubmitStatus::Accepted
                };
                self.output_serial = if self.output_serial == 255 {
                    0
                } else {
                    self.output_serial + 1
                };
                self.pending_effect = Some(p);
                Ok(status)
            },
            Err(e) => Err(e),
        }
    }

    /// Pick the next unit of work for the transport, or nothing while a
    /// transfer is outstanding.  An unexhausted initialization step always
    /// precedes any pending effect; handing a packet out marks the
    /// transfer outstanding.
    pub fn next_transmission(&mut self) -> (r: Option<RawPacket>)
        requires
            old(self).wf(),
        ensures
            final(self).wf(),
            final(self)@ == spec_next_transmission(old(self)@).0,
            match r {
                Some(p) => spec_next_transmission(old(self)@).1 == Some(p@),
                None => spec_next_transmission(old(self)@).1 is None,
            },
    {
        if self.outstanding_transfer {
            return None;
        }
        let res = next_init_packet(
            &self.templates,
            self.profile.vendor_id,
            self.profile.product_id,
            self.init_cursor,
            self.output_serial,
        );
        self.init_cursor = res.1;
        self.output_serial = res.2;
        match res.0 {
            Some(p) => {
                self.outstanding_transfer = true;
                Some(p)
            },
            None => {
                let pending = self.pending_effect.take();
                match pending {
                    Some(p) => {
                        self.outstanding_transfer = true;
                        Some(p)
                    },
                    None => None,
                }
            },
        }
    }

    /// Transport completion: the outstanding transfer is finished; the
    /// caller invokes `next_transmission` again to pick the next unit of
    /// work.
    pub fn transfer_complete(&mut self)
        requires
            old(self).wf(),
        ensures
            final(self).wf(),
            final(self)@ == (SessionModel { outstanding_transfer: false, ..old(self)@ }),
    {
        self.outstanding_transfer = false;
    }
}

/// Law: at most one transfer is ever outstanding.  A step on a session
/// with an outstanding transfer hands out nothing and changes nothing; a
/// step that hands out a packet marks the transfer outstanding; so under
/// any interleaving of submits and scheduler steps, two packets are never
/// handed out without a completion between them.
pub proof fn lemma_single_outstanding(m: SessionModel)
    ensures
        m.outstanding_transfer ==> (spec_next_transmission(m).1 is None)
            && spec_next_transmission(m).0 == m,
        spec_next_transmission(m).1 is Some ==> spec_next_transmission(m).0.outstanding_transfer,
        spec_next_transmission(m).1 is Some ==> (spec_next_transmission(
            spec_next_transmission(m).0,
        ).1 is None),
{
}

/// Law: a submit never touches the outstanding flag, so a concurrent
/// effect caller cannot create a second outstanding transfer.
pub proof fn lemma_submit_preserves_outstanding(m: SessionModel, cmd: OutputCommand)
    ensures
        spec_submit(m, cmd).0.outstanding_transfer == m.outstanding_transfer,
{
}

/// Law: the pending slot keeps only the latest not-yet-sent candidate.
/// Submitting effect B after effect A, with no transmit opportunity
/// between, leaves exactly B's bytes pending — only B is transmitted.
pub proof fn lemma_latest_pending_overwrite(m: SessionModel, a: OutputCommand, b: OutputCommand)
    ensures
        ({
            let m1 = spec_submit(m, a).0;
            spec_encode(m1.variant, m1.output_serial, b) is Some ==> spec_submit(m1, b)
                .0.pending_effect == spec_encode(m1.variant, m1.output_serial, b)
        }),
{
}

/// Law: when the scheduler is free, an unexhausted initialization step is
/// chosen before any pending effect, and the pending effect is chosen
/// exactly when the sequencer is exhausted.
pub proof fn lemma_scheduler_priority(m: SessionModel)
    ensures
        ({
            let s = spec_seq_next(m.templates, m.vendor, m.product, m.init_cursor, m.output_serial);
            &&& (!m.outstanding_transfer && s.0 is Some ==> spec_next_transmission(m).1 == s.0)
            &&& (!m.outstanding_transfer && s.0 is None ==> spec_next_transmission(m).1
                == m.pending_effect)
        }),
{
}

} // verus!
