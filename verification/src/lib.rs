//! Badge-multiplexed endpoint routing: one kernel rendezvous endpoint is
//! shared by many logical channels, each told apart by the badge that the
//! kernel stamps on incoming messages.

pub mod badge_table;
pub mod capability;
pub mod connection;
pub mod endpoint;
pub mod server;
pub mod vspace;
