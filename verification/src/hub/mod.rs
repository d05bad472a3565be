//! The room hub: its room state, the rules that admit participants and
//! check their frames, roles and policy, signed-action clocks and billing.

pub mod anon;
pub mod anon_join;
pub mod billing;
pub mod frames;
pub mod limits;
pub mod media;
pub mod membership;
pub mod moderation;
pub mod notices;
pub mod roles;
pub mod room;
pub mod roster;
pub mod session;
pub mod signing;
pub mod table;
pub mod validate;
