//! Core logic of a WHEP (WebRTC-HTTP egress) endpoint: request routing with
//! CORS reflection, demultiplexing of the stored media files into timed
//! units, playout scheduling, the session synchronization primitives
//! (readiness barrier and termination signal), session negotiation and the
//! session registry.
pub mod annexb;
pub mod http;
pub mod oggpage;
pub mod playout;
pub mod registry;
pub mod sched;
pub mod session;
pub mod signal;
