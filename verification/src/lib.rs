//! Scheduling engine for automated recording of broadcasts from an
//! electronic program guide.
//!
//! The library holds the verified decision logic: resolving the target
//! libraries at startup, reducing raw guide data to one candidate per
//! channel, the timing policy that classifies candidates as due or
//! future, and the assembly of a subscription request from a template.
//! The surrounding process (HTTP access to the media server, the
//! scheduler loop, configuration) hands plain values in and out.

pub mod manager;
pub mod plex;
