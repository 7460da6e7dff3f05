//! Session protocol layer of a client for a server-authoritative text
//! adventure: the state token codec, the response dispatcher and the session
//! state machine.

pub mod codec;
pub mod dispatch;
pub mod session;
pub mod text;
