//! Raw wire packets and the protocol-wide errors.

use vstd::prelude::*;

verus! {

/// Wire packet size: every inbound interrupt transfer carries this many
/// bytes, and any shorter inbound buffer is rejected before parsing.
pub const XPAD_PKT_LEN: usize = 64;

/// Seconds between the periodic keep-alive pokes that the guitar quirk
/// requires.  The timer that honours the interval is an external
/// collaborator; this crate only produces the poke packet.
pub const GHL_GUITAR_POKE_INTERVAL: u64 = 8;

/// One raw wire packet: a byte buffer with an explicit valid length, never
/// trusted beyond that length.
#[derive(Clone, Debug, PartialEq, Eq)]
pub struct RawPacket {
    pub bytes: Vec<u8>,
}

impl View for RawPacket {
    type V = Seq<u8>;

    open spec fn view(&self) -> Seq<u8> {
        self.bytes@
    }
}

impl RawPacket {
    pub fn new(bytes: Vec<u8>) -> (p: RawPacket)
        ensures
            p@ == bytes@,
    {
        RawPacket { bytes }
    }

    pub fn len(&self) -> (n: usize)
        ensures
            n == self@.len(),
    {
        self.bytes.len()
    }
}

/// The protocol errors.  A packet shorter than the wire size is reported
/// to the caller and leaves the session usable; an effect that the
/// session's variant cannot carry is refused rather than encoded
/// malformed.  Exhaustion of the initialization sequence is normal
/// termination, not an error, and is reported as `None` by the sequencer.
#[derive(Clone, Copy, Debug, PartialEq, Eq, Structural)]
pub enum XpadError {
    InvalidPacketLength,
    UnsupportedCommand,
}

} // verus!
