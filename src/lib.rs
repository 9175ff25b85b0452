//! Session bootstrap for a chat client: decide whether to resume a stored
//! session or to log in anew, keep the resulting session, then hand over to
//! the synchronisation loop.

pub mod credential;
pub mod manager;
pub mod session;
pub mod laws;
pub mod terminal;
