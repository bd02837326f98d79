//! A realtime chat client session: the wire envelope and its codec, the
//! roster of connected users, the message history and the session state
//! machine that ties them together.
pub mod wire;
pub mod roster;
pub mod history;
pub mod present;
pub mod session;
