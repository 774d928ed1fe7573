//! Bridges a time-tracking webhook source to a presence indicator shown in a
//! chat title. The core is a presence state machine fed by interpreted webhook
//! events, a periodic away-detection sweep, and supervision of the public
//! tunnel that keeps the inbound endpoint reachable.

pub mod clock;
pub mod event;
pub mod handler;
pub mod json;
pub mod presence;
pub mod publisher;
pub mod supervisor;
pub mod sweeper;
pub mod tunnel;

pub use presence::PresenceState;
