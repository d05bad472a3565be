//! The meeting client: its session state, the protocol frames it speaks,
//! the reducer that applies frames and transport events, and the runtime
//! that schedules reconnects and the web fallback.

pub mod decode;
pub mod encode;
pub mod gtk;
pub mod identity;
pub mod json;
pub mod jsontext;
pub mod protocol;
pub mod reducer;
pub mod roundtrip;
pub mod runtime;
pub mod types;
