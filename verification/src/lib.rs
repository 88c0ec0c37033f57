//! Protocol core for the Xbox-family game controller wire protocol.
//!
//! The crate decodes the periodic fixed-size interrupt packets that the
//! original Xbox, Xbox 360 (wired and wireless) and Xbox One (GIP)
//! controllers exchange with a host, and encodes the outbound
//! force-feedback, LED and handshake packets.  A per-device
//! `ControllerSession` keeps the wireless-presence flag, the negotiated
//! packet-type revision, the initialization-sequencer cursor, the output
//! serial counter and the single-outstanding-transfer flag.
//!
//! The physical transport, the input-event subsystem and the static
//! vendor/product registry are external collaborators: they hand this crate
//! plain byte buffers and consume the decoded frames and encoded packets.

pub mod config;
pub mod decode;
pub mod encode;
pub mod frame;
pub mod init;
pub mod packet;
pub mod session;
pub mod templates;
