//! A record-management service core: users identified by unique usernames,
//! todos owned by users through that username, and the operations that keep
//! the two consistent. The storage gateway and the transport adapter are
//! external collaborators; this crate holds the state model, the operations
//! with their contracts, and the response envelopes they produce.

pub mod laws;
pub mod reply;
pub mod store;
pub mod text;
pub mod todos;
pub mod users;
