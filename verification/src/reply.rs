//! The response shaper: every operation outcome becomes exactly one
//! envelope. Precondition failures (not-found, already-exists,
//! nothing-to-delete, no-fields-to-update) are ordinary `BadRequest`
//! envelopes, not faults; only the storage gateway's own failures surface
//! as a `StorageFault`.

use vstd::prelude::*;
use crate::store::{Todo, User};

verus! {

/// The uniform result envelope handed back to the transport adapter.
pub enum Reply {
    /// All users, with their count.
    Users { users: Vec<User>, count: usize },
    /// A single user record.
    UserRecord { user: User },
    /// A user's todos, with their count.
    Todos { count: usize, todos: Vec<Todo> },
    /// A creation acknowledgement carrying the assigned id.
    Created { acknowledged: bool, message: String, user_id: i32 },
    /// A plain acknowledgement.
    Ack { acknowledged: bool, message: String },
    /// A client error: a precondition failed.
    BadRequest { error: String, message: String },
}

/// A failure of the storage gateway itself, propagated unmodified.
#[derive(Debug)]
pub enum StorageFault {
    /// A statement hit the gateway's uniqueness constraint on usernames.
    UniqueViolation,
}

/// `r` is the client-error envelope carrying `msg`.
pub open spec fn bad_request(r: Reply, msg: Seq<char>) -> bool {
    &&& r matches Reply::BadRequest { error, message } && error@ == "Bad Request"@ && message@
        == msg
}

/// `r` is a positive acknowledgement carrying `msg`.
pub open spec fn acked(r: Reply, msg: Seq<char>) -> bool {
    &&& r matches Reply::Ack { acknowledged, message } && acknowledged && message@ == msg
}

/// `r` acknowledges a creation with `msg` and the assigned `id`.
pub open spec fn created(r: Reply, msg: Seq<char>, id: int) -> bool {
    &&& r matches Reply::Created { acknowledged, message, user_id } && acknowledged && message@
        == msg && user_id == id
}

/// The client-error envelope for a failed precondition.
pub fn bad_request_reply(message: String) -> (r: Reply)
    ensures
        bad_request(r, message@),
{
    Reply::BadRequest { error: "Bad Request".to_owned(), message }
}

/// The acknowledgement envelope for a completed operation.
pub fn ack_reply(message: String) -> (r: Reply)
    ensures
        acked(r, message@),
{
    Reply::Ack { acknowledged: true, message }
}

} // verus!
