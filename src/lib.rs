//! Peer synchronisation for a tangle node: deciding which milestones and
//! messages to request without ever having two requests in flight for one key,
//! tracking what each peer has advertised, and the heartbeats that carry it.

pub mod peer;
pub mod requests;
pub mod planner;
pub mod dispatch;
pub mod heartbeat;
pub mod registry;
