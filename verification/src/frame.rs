//! Abstract input frames: the decoded snapshot of digital and analog
//! controller state that one inbound packet yields.

use vstd::prelude::*;

verus! {

/// One analog-stick snapshot.  The Y fields already carry the bitwise
/// complement of the little-endian raw value, the fixed sign quirk of the
/// wire format.
#[derive(Clone, Copy, Debug, PartialEq, Eq, Structural)]
pub struct StickReport {
    pub lx: i16,
    pub ly: i16,
    pub rx: i16,
    pub ry: i16,
}

/// Trigger report of one frame: digital buttons when the mapping asks for
/// `triggers_to_buttons` (pressed iff the trigger byte is nonzero), axis
/// bytes taken verbatim otherwise.
#[derive(Clone, Copy, Debug, PartialEq, Eq, Structural)]
pub enum TriggerReport {
    Buttons { left: bool, right: bool },
    Axes { left: u8, right: u8 },
}

/// D-pad report of one frame: four distinct digital buttons when the
/// mapping asks for `dpad_to_buttons`, one hat pair in {-1, 0, 1}²
/// otherwise.  A frame carries one form or the other, never both.
///
/// The button labels and the hat arithmetic both come straight from the
/// byte layout: the bit behind `pad_left` is the bit that contributes +1
/// to `x` on the wired layout.  The mismatch is a fixed, observed property
/// of the protocol and is deliberately not reconciled here.
#[derive(Clone, Copy, Debug, PartialEq, Eq, Structural)]
pub enum DpadReport {
    Buttons { pad_left: bool, pad_right: bool, pad_up: bool, pad_down: bool },
    Hat { x: i8, y: i8 },
}

/// Start/Select and the four face buttons of the Xbox One main input
/// command.
#[derive(Clone, Copy, Debug, PartialEq, Eq, Structural)]
pub struct FaceButtons {
    pub start: bool,
    pub select: bool,
    pub a: bool,
    pub b: bool,
    pub x: bool,
    pub y: bool,
}

/// The four extra paddle buttons of the Xbox One Elite firmware report.
#[derive(Clone, Copy, Debug, PartialEq, Eq, Structural)]
pub struct PaddleReport {
    pub p1: bool,
    pub p2: bool,
    pub p3: bool,
    pub p4: bool,
}

/// One decoded input frame.  Each decode path fills the components its
/// packet carries and leaves the others `None`; a frame has no identity
/// beyond the call that produced it.
#[derive(Clone, Copy, Debug, PartialEq, Eq, Structural)]
pub struct InputFrame {
    pub face: Option<FaceButtons>,
    pub mode: Option<bool>,
    pub paddles: Option<PaddleReport>,
    pub dpad: Option<DpadReport>,
    pub triggers: Option<TriggerReport>,
    pub sticks: Option<StickReport>,
}

impl InputFrame {
    /// A frame with every component absent, the base the decode paths
    /// start from.
    pub open spec fn spec_empty() -> InputFrame {
        InputFrame { face: None, mode: None, paddles: None, dpad: None, triggers: None, sticks: None }
    }
}

/// Everything one inbound packet yields: at most one input frame, at most
/// one presence-change notification (the new presence value, only on an
/// actual transition), and at most one acknowledgement request that the
/// output side must answer.
#[derive(Clone, Copy, Debug, PartialEq, Eq, Structural)]
pub struct Decoded {
    pub frame: Option<InputFrame>,
    pub presence_changed: Option<bool>,
    pub ack_request: Option<u8>,
}

impl Decoded {
    /// The outcome of a packet that yields nothing: an unrecognized
    /// command tag degrades to "no event produced".
    pub open spec fn spec_nothing() -> Decoded {
        Decoded { frame: None, presence_changed: None, ack_request: None }
    }
}

} // verus!
