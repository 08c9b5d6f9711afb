//! The user operations: create, read, rename, delete, list and bulk-delete,
//! each described by a postcondition relating the store before the call, the
//! store after it, and the envelope returned. Username uniqueness is checked
//! before inserting; the gateway's own uniqueness constraint is the backstop,
//! and the one operation that skips the check (rename) surfaces it as a
//! `StorageFault`.

use vstd::prelude::*;
use vstd::seq_lib::group_to_multiset_ensures;
use vstd::multiset::group_multiset_axioms;
use vstd::pervasive::VecAdditionalExecFns;
use crate::store::{find_user_index, registered_user, unchanged, Store, User};
use crate::reply::{acked, ack_reply, bad_request, bad_request_reply, created, Reply, StorageFault};
use crate::text::{
    no_users_msg, user_created_msg, user_deleted_msg, user_exists_msg, user_missing_msg,
    user_not_found_msg, user_updated_msg, users_deleted_msg, wrap_count, wrap_name,
};

verus! {

/// The rows are in ascending id order.
pub open spec fn users_sorted(us: Seq<User>) -> bool {
    forall|i: int, j: int|
        #![trigger us[i], us[j]]
        0 <= i < j < us.len() ==> us[i].id <= us[j].id
}

/// Some row other than the one at `i` carries the username `nu`.
pub open spec fn name_held_elsewhere(us: Seq<User>, i: int, nu: Seq<char>) -> bool {
    exists|j: int| 0 <= j < us.len() && j != i && (#[trigger] us[j]).username@ == nu
}

/// Row `i` holds the username `u`, and `r` carries exactly that record.
pub open spec fn user_found_at(pre: Store, u: Seq<char>, r: Reply, i: int) -> bool {
    &&& 0 <= i < pre.users@.len()
    &&& pre.users@[i].username@ == u
    &&& r matches Reply::UserRecord { user } && user == pre.users@[i]
}

/// Reading a user: the stored record when the username resolves, the
/// not-found envelope when it does not.
pub open spec fn get_user_post(pre: Store, u: Seq<char>, r: Reply) -> bool {
    if !pre.has_user(u) {
        bad_request(r, user_not_found_msg(u))
    } else {
        exists|i: int| user_found_at(pre, u, r, i)
    }
}

/// Creating a user: the already-exists envelope and an untouched store, or
/// one appended row carrying the next id and an acknowledgement naming it.
pub open spec fn create_user_post(pre: Store, u: Seq<char>, post: Store, r: Reply) -> bool {
    if pre.has_user(u) {
        unchanged(pre, post) && bad_request(r, user_exists_msg(u))
    } else {
        &&& post.users@.len() == pre.users@.len() + 1
        &&& post.users@.subrange(0, pre.users@.len() as int) == pre.users@
        &&& post.users@.last().id == pre.next_user_id
        &&& post.users@.last().username@ == u
        &&& post.next_user_id == pre.next_user_id + 1
        &&& post.todos@ == pre.todos@
        &&& post.next_todo_id == pre.next_todo_id
        &&& created(r, user_created_msg(u), pre.next_user_id as int)
    }
}

/// Renaming a user: not-found when the old name does not resolve; a
/// uniqueness fault when another row already holds the new name; otherwise
/// the one row is renamed in place and everything else is untouched.
pub open spec fn update_user_post(
    pre: Store,
    ou: Seq<char>,
    nu: Seq<char>,
    post: Store,
    r: Result<Reply, StorageFault>,
) -> bool {
    if !pre.has_user(ou) {
        &&& unchanged(pre, post)
        &&& r matches Ok(rep) && bad_request(rep, user_not_found_msg(ou))
    } else {
        exists|i: int| user_renamed_at(pre, ou, nu, post, r, i)
    }
}

/// Row `i` holds `ou`; the rename either hits the uniqueness constraint or
/// rewrites that one row's username to `nu` in place.
pub open spec fn user_renamed_at(
    pre: Store,
    ou: Seq<char>,
    nu: Seq<char>,
    post: Store,
    r: Result<Reply, StorageFault>,
    i: int,
) -> bool {
    &&& 0 <= i < pre.users@.len()
    &&& pre.users@[i].username@ == ou
    &&& if name_held_elsewhere(pre.users@, i, nu) {
        &&& unchanged(pre, post)
        &&& r matches Err(f) && f == StorageFault::UniqueViolation
    } else {
        &&& post.users@.len() == pre.users@.len()
        &&& forall|j: int|
            0 <= j < pre.users@.len() && j != i ==> post.users@[j] == (#[trigger] pre.users@[j])
        &&& post.users@[i].id == pre.users@[i].id
        &&& post.users@[i].username@ == nu
        &&& post.todos@ == pre.todos@
        &&& post.next_user_id == pre.next_user_id
        &&& post.next_todo_id == pre.next_todo_id
        &&& r matches Ok(rep) && acked(rep, user_updated_msg(ou, nu))
    }
}

/// Deleting a user: exactly the resolving row is removed; the user's todos
/// are left in place. The does-not-exist envelope otherwise.
pub open spec fn delete_user_post(pre: Store, u: Seq<char>, post: Store, r: Reply) -> bool {
    if !pre.has_user(u) {
        unchanged(pre, post) && bad_request(r, user_missing_msg(u))
    } else {
        exists|i: int| user_removed_at(pre, u, post, r, i)
    }
}

/// Row `i` holds `u` and exactly that row is gone afterwards.
pub open spec fn user_removed_at(pre: Store, u: Seq<char>, post: Store, r: Reply, i: int) -> bool {
    &&& 0 <= i < pre.users@.len()
    &&& pre.users@[i].username@ == u
    &&& post.users@ == pre.users@.remove(i)
    &&& post.todos@ == pre.todos@
    &&& post.next_user_id == pre.next_user_id
    &&& post.next_todo_id == pre.next_todo_id
    &&& acked(r, user_deleted_msg(u))
}

/// Listing users: every stored row exactly once, in ascending id order
/// whatever order the storage returned them in, with the count.
pub open spec fn get_all_users_post(pre: Store, r: Reply) -> bool {
    &&& r matches Reply::Users { users, count } && users@.to_multiset() == pre.users@.to_multiset()
        && users_sorted(users@) && count == pre.users@.len()
}

/// Bulk-deleting users: nothing-to-delete when the table is empty, else the
/// table is emptied. Todos and both id counters are untouched.
pub open spec fn delete_all_users_post(pre: Store, post: Store, r: Reply) -> bool {
    if pre.users@.len() == 0 {
        unchanged(pre, post) && bad_request(r, no_users_msg())
    } else {
        &&& post.users@.len() == 0
        &&& post.todos@ == pre.todos@
        &&& post.next_user_id == pre.next_user_id
        &&& post.next_todo_id == pre.next_todo_id
        &&& acked(r, users_deleted_msg(pre.users@.len() as int))
    }
}

/// Returns the stored record for `username`, or the not-found envelope.
pub fn get_user(s: &Store, username: &String) -> (r: Reply)
    ensures
        get_user_post(*s, username@, r),
{
    match find_user_index(&s.users, username) {
        Some(i) => {
            let rep = Reply::UserRecord { user: s.users[i].duplicate() };
            proof {
                assert(user_found_at(*s, username@, rep, i as int));
            }
            rep
        },
        None => bad_request_reply(wrap_name("User ", username, " not found")),
    }
}

/// Inserts a new user unless the username is taken, returning the assigned
/// id in the acknowledgement.
pub fn create_user(s: &mut Store, username: String) -> (r: Reply)
    requires
        old(s).wf(),
        !old(s).has_user(username@) ==> old(s).next_user_id < i32::MAX,
    ensures
        create_user_post(*old(s), username@, *final(s), r),
        final(s).wf(),
{
    if registered_user(&username, s) {
        return bad_request_reply(wrap_name("User ", &username, " already exists"));
    }
    let id = s.next_user_id;
    let message = wrap_name("User ", &username, " created");
    s.users.push(User { id, username });
    s.next_user_id = s.next_user_id + 1;
    proof {
        assert(s.users@.subrange(0, old(s).users@.len() as int) =~= old(s).users@);
        assert forall|i: int, j: int|
            #![trigger s.users@[i], s.users@[j]]
            0 <= i < j < s.users@.len() implies s.users@[i].id != s.users@[j].id
            && s.users@[i].username@ != s.users@[j].username@ by {
            if j < old(s).users@.len() {
                assert(old(s).users@[i] == s.users@[i]);
                assert(old(s).users@[j] == s.users@[j]);
            } else {
                assert(old(s).users@[i] == s.users@[i]);
            }
        }
    }
    Reply::Created { acknowledged: true, message, user_id: id }
}

/// Renames the user holding `old_username`. The gateway's uniqueness
/// constraint on usernames surfaces as `Err` when another row already holds
/// `new_username`; the operation itself checks nothing beforehand.
pub fn update_user(s: &mut Store, old_username: String, new_username: String) -> (r: Result<
    Reply,
    StorageFault,
>)
    requires
        old(s).wf(),
    ensures
        update_user_post(*old(s), old_username@, new_username@, *final(s), r),
        final(s).wf(),
{
    let found = find_user_index(&s.users, &old_username);
    match found {
        None => Ok(bad_request_reply(wrap_name("User ", &old_username, " not found"))),
        Some(i) => {
            if taken_by_other(&s.users, &new_username, i) {
                let rep: Result<Reply, StorageFault> = Err(StorageFault::UniqueViolation);
                proof {
                    assert(user_renamed_at(
                        *old(s),
                        old_username@,
                        new_username@,
                        *s,
                        rep,
                        i as int,
                    ));
                }
                rep
            } else {
                let id = s.users[i].id;
                let mut message = wrap_name("User ", &old_username, " updated to ");
                message.append(new_username.as_str());
                s.users.set(i, User { id, username: new_username });
                proof {
                    let us = s.users@;
                    let pre = old(s).users@;
                    assert forall|a: int, b: int|
                        #![trigger us[a], us[b]]
                        0 <= a < b < us.len() implies us[a].id != us[b].id && us[a].username@
                        != us[b].username@ by {
                        assert(pre[a].id != pre[b].id);
                        if a != i as int && b != i as int {
                            assert(us[a] == pre[a] && us[b] == pre[b]);
                        }
                    }
                }
                let rep: Result<Reply, StorageFault> = Ok(ack_reply(message));
                proof {
                    assert(user_renamed_at(
                        *old(s),
                        old_username@,
                        new_username@,
                        *s,
                        rep,
                        i as int,
                    ));
                }
                rep
            }
        },
    }
}

/// Deletes the user holding `username`, or reports that it does not exist.
/// Todos referencing the username stay behind, dangling.
pub fn delete_user(s: &mut Store, username: String) -> (r: Reply)
    requires
        old(s).wf(),
    ensures
        delete_user_post(*old(s), username@, *final(s), r),
        final(s).wf(),
{
    let found = find_user_index(&s.users, &username);
    match found {
        None => bad_request_reply(wrap_name("User ", &username, " does not exist")),
        Some(i) => {
            s.users.remove(i);
            proof {
                let us = s.users@;
                let pre = old(s).users@;
                assert forall|a: int, b: int|
                    #![trigger us[a], us[b]]
                    0 <= a < b < us.len() implies us[a].id != us[b].id && us[a].username@
                    != us[b].username@ by {
                    let pa = if a < i as int {
                        a
                    } else {
                        a + 1
                    };
                    let pb = if b < i as int {
                        b
                    } else {
                        b + 1
                    };
                    assert(us[a] == pre[pa] && us[b] == pre[pb]);
                }
                assert forall|a: int| 0 <= a < us.len() implies 1 <= (#[trigger] us[a]).id
                    < s.next_user_id by {
                    let pa = if a < i as int {
                        a
                    } else {
                        a + 1
                    };
                    assert(us[a] == pre[pa]);
                }
            }
            let rep = ack_reply(wrap_name("User ", &username, " deleted"));
            proof {
                assert(user_removed_at(*old(s), username@, *s, rep, i as int));
            }
            rep
        },
    }
}

/// Whether some row other than row `i` carries `name`.
fn taken_by_other(users: &Vec<User>, name: &String, i: usize) -> (b: bool)
    ensures
        b == name_held_elsewhere(users@, i as int, name@),
{
    let mut j: usize = 0;
    while j < users.len()
        invariant
            j <= users@.len(),
            forall|k: int|
                0 <= k < j && k != i ==> (#[trigger] users@[k]).username@ != name@,
        decreases users@.len() - j,
    {
        if j != i && users[j].username == *name {
            return true;
        }
        j = j + 1;
    }
    false
}

/// Inserts `x` into a vector already in ascending id order, keeping it so.
fn insert_user_by_id(v: Vec<User>, x: User) -> (out: Vec<User>)
    requires
        users_sorted(v@),
    ensures
        users_sorted(out@),
        out@.to_multiset() == v@.to_multiset().insert(x),
{
    let mut out = v;
    let mut p: usize = 0;
    while p < out.len() && out[p].id <= x.id
        invariant
            p <= out@.len(),
            forall|k: int| 0 <= k < p ==> (#[trigger] out@[k]).id <= x.id,
            users_sorted(out@),
        decreases out@.len() - p,
    {
        p = p + 1;
    }
    proof {
        let pre = out@;
        let ins = pre.insert(p as int, x);
        broadcast use group_to_multiset_ensures, group_multiset_axioms;

        assert(ins.remove(p as int) =~= pre);
        assert(ins[p as int] == x);
        assert(ins.to_multiset().remove(x) == pre.to_multiset());
        assert(ins.to_multiset().count(x) > 0);
        assert(ins.to_multiset() =~= pre.to_multiset().insert(x));
        assert forall|a: int, b: int|
            #![trigger ins[a], ins[b]]
            0 <= a < b < ins.len() implies ins[a].id <= ins[b].id by {
            if b < p as int {
                assert(ins[a] == pre[a] && ins[b] == pre[b]);
            } else if a > p as int {
                assert(ins[a] == pre[a - 1] && ins[b] == pre[b - 1]);
            } else if a < p as int && b == p as int {
                assert(ins[a] == pre[a]);
            } else if a == p as int {
                assert(ins[b] == pre[b - 1]);
                assert(p as int <= b - 1 < pre.len());
            } else {
                assert(ins[a] == pre[a]);
                assert(ins[b] == pre[b - 1]);
                assert(pre[a].id <= pre[b - 1].id);
            }
        }
    }
    out.insert(p, x);
    out
}

/// Sorts the rows into ascending id order; the rows themselves are exactly
/// those given, whatever order they arrived in.
fn sort_users_by_id(v: Vec<User>) -> (out: Vec<User>)
    ensures
        users_sorted(out@),
        out@.to_multiset() == v@.to_multiset(),
{
    let mut out: Vec<User> = Vec::new();
    let mut i: usize = 0;
    proof {
        assert(out@ =~= v@.take(0));
    }
    while i < v.len()
        invariant
            i <= v@.len(),
            users_sorted(out@),
            out@.to_multiset() == v@.take(i as int).to_multiset(),
        decreases v@.len() - i,
    {
        let x = v[i].duplicate();
        proof {
            broadcast use group_to_multiset_ensures;

            assert(v@.take(i as int + 1) =~= v@.take(i as int).push(v@[i as int]));
        }
        out = insert_user_by_id(out, x);
        i = i + 1;
    }
    proof {
        assert(v@.take(v@.len() as int) =~= v@);
    }
    out
}

/// Returns every user, in ascending id order, with the count.
pub fn get_all_users(s: &Store) -> (r: Reply)
    ensures
        get_all_users_post(*s, r),
{
    let mut rows: Vec<User> = Vec::new();
    let mut i: usize = 0;
    while i < s.users.len()
        invariant
            i <= s.users@.len(),
            rows@ == s.users@.take(i as int),
        decreases s.users@.len() - i,
    {
        rows.push(s.users[i].duplicate());
        proof {
            assert(s.users@.take(i as int + 1) =~= s.users@.take(i as int).push(
                s.users@[i as int],
            ));
        }
        i = i + 1;
    }
    proof {
        assert(s.users@.take(s.users@.len() as int) =~= s.users@);
    }
    let sorted = sort_users_by_id(rows);
    let count = sorted.len();
    proof {
        broadcast use group_to_multiset_ensures;

        assert(sorted@.to_multiset() == s.users@.to_multiset());
        assert(sorted@.len() == sorted@.to_multiset().len());
        assert(s.users@.len() == s.users@.to_multiset().len());
    }
    Reply::Users { users: sorted, count }
}

/// Deletes every user row and reports how many were removed; when the table
/// was already empty, reports the nothing-to-delete outcome instead.
pub fn delete_all_users(s: &mut Store) -> (r: Reply)
    requires
        old(s).wf(),
    ensures
        delete_all_users_post(*old(s), *final(s), r),
        final(s).wf(),
{
    if s.users.len() == 0 {
        return bad_request_reply("No users to deleted".to_owned());
    }
    let message = wrap_count("Deleted ", s.users.len() as u64, " users");
    s.users = Vec::new();
    ack_reply(message)
}

} // verus!
