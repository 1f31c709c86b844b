//! A tunnel that lets a sandboxed client reach TCP and UDP targets through a
//! relay, over a reliable, channelized packet transport.
//!
//! The crate holds the protocol itself: the wire framing, the relay's
//! per-session bookkeeping, the per-channel worker and the client adapter, each
//! as a state machine that is driven with the events its host observed and
//! that answers with the action to perform next.

pub mod address;
pub mod channel;
pub mod client;
pub mod clock;
pub mod echo;
pub mod framing;
pub mod io;
pub mod packet;
pub mod relay;
pub mod socket;
pub mod tunnel;
pub mod url;
