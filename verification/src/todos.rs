//! The todo operations: list, create, update, delete and bulk-delete, each
//! gated on the owning user's existence where the design demands it, and each
//! described by a postcondition over the store and the returned envelope.
//! Lookup for update and delete is by todo id alone; the username parameter
//! only flavours the texts.

use vstd::prelude::*;
use vstd::seq_lib::group_to_multiset_ensures;
use vstd::multiset::group_multiset_axioms;
use vstd::pervasive::VecAdditionalExecFns;
use crate::store::{
    find_todo_index, registered_user, todos_not_of, todos_of, unchanged, Store, Todo,
};
use crate::reply::{acked, ack_reply, bad_request, bad_request_reply, Reply};
use crate::text::{
    no_fields_msg, no_todos_msg, prefix_name, todo_created_msg, todo_deleted_msg,
    todo_not_found_msg, todo_updated_msg, todos_cleared_msg, user_not_found_msg, wrap_id_name,
    wrap_name,
};

verus! {

/// The creation payload: both fields are required; empty strings pass.
pub struct CreateTodo {
    pub title: String,
    pub description: String,
}

/// The partial-update payload: each field independently present or absent.
pub struct UpdateTodo {
    pub title: Option<String>,
    pub description: Option<String>,
    pub completed: Option<bool>,
}

/// No field of the patch is supplied.
pub open spec fn no_patch_fields(p: UpdateTodo) -> bool {
    &&& p.title is None
    &&& p.description is None
    &&& p.completed is None
}

/// `after` is `before` with exactly the supplied patch fields overwritten;
/// id and owner never change.
pub open spec fn todo_patched(before: Todo, p: UpdateTodo, after: Todo) -> bool {
    &&& after.id == before.id
    &&& after.username@ == before.username@
    &&& after.title@ == match p.title {
        Some(t) => t@,
        None => before.title@,
    }
    &&& after.description@ == match p.description {
        Some(d) => d@,
        None => before.description@,
    }
    &&& after.completed == match p.completed {
        Some(c) => c,
        None => before.completed,
    }
}

/// The rows are in ascending id order.
pub open spec fn todos_sorted(ts: Seq<Todo>) -> bool {
    forall|i: int, j: int|
        #![trigger ts[i], ts[j]]
        0 <= i < j < ts.len() ==> ts[i].id <= ts[j].id
}

/// Appending a row and then selecting a user's todos is selecting first and
/// appending when the row is theirs.
pub proof fn lemma_todos_of_push(td: Seq<Todo>, t: Todo, u: Seq<char>)
    ensures
        todos_of(td.push(t), u) == if t.username@ == u {
            todos_of(td, u).push(t)
        } else {
            todos_of(td, u)
        },
{
    let s = td.push(t);
    assert(s.drop_last() =~= td);
    assert(s.last() == t);
}

/// The counterpart of `lemma_todos_of_push` for the rows a user does not own.
pub proof fn lemma_todos_not_of_push(td: Seq<Todo>, t: Todo, u: Seq<char>)
    ensures
        todos_not_of(td.push(t), u) == if t.username@ != u {
            todos_not_of(td, u).push(t)
        } else {
            todos_not_of(td, u)
        },
{
    let s = td.push(t);
    assert(s.drop_last() =~= td);
    assert(s.last() == t);
}

/// A user's todos all carry that username and each is one of the stored rows.
pub proof fn lemma_todos_of_props(td: Seq<Todo>, u: Seq<char>)
    ensures
        todos_of(td, u).len() <= td.len(),
        forall|i: int|
            0 <= i < todos_of(td, u).len() ==> (#[trigger] todos_of(td, u)[i]).username@ == u,
        forall|i: int|
            0 <= i < todos_of(td, u).len() ==> exists|k: int|
                0 <= k < td.len() && (#[trigger] todos_of(td, u)[i]) == #[trigger] td[k],
    decreases td.len(),
{
    if td.len() > 0 {
        let rest = td.drop_last();
        lemma_todos_of_props(rest, u);
        let f = todos_of(td, u);
        let fr = todos_of(rest, u);
        assert forall|i: int| 0 <= i < f.len() implies exists|k: int|
            0 <= k < td.len() && (#[trigger] f[i]) == #[trigger] td[k] by {
            if i < fr.len() {
                let k = choose|k: int| 0 <= k < rest.len() && fr[i] == #[trigger] rest[k];
                assert(f[i] == td[k]);
            } else {
                assert(f[i] == td[td.len() - 1]);
            }
        }
    }
}

/// The counterpart of `lemma_todos_of_props` for the rows a user does not own.
pub proof fn lemma_todos_not_of_props(td: Seq<Todo>, u: Seq<char>)
    ensures
        todos_not_of(td, u).len() <= td.len(),
        forall|i: int|
            0 <= i < todos_not_of(td, u).len() ==> (#[trigger] todos_not_of(td, u)[i]).username@
                != u,
        forall|i: int|
            0 <= i < todos_not_of(td, u).len() ==> exists|k: int|
                0 <= k < td.len() && (#[trigger] todos_not_of(td, u)[i]) == #[trigger] td[k],
    decreases td.len(),
{
    if td.len() > 0 {
        let rest = td.drop_last();
        lemma_todos_not_of_props(rest, u);
        let f = todos_not_of(td, u);
        let fr = todos_not_of(rest, u);
        assert forall|i: int| 0 <= i < f.len() implies exists|k: int|
            0 <= k < td.len() && (#[trigger] f[i]) == #[trigger] td[k] by {
            if i < fr.len() {
                let k = choose|k: int| 0 <= k < rest.len() && fr[i] == #[trigger] rest[k];
                assert(f[i] == td[k]);
            } else {
                assert(f[i] == td[td.len() - 1]);
            }
        }
    }
}

/// The rows kept by a bulk delete keep their ids pairwise distinct.
pub proof fn lemma_todos_not_of_distinct(td: Seq<Todo>, u: Seq<char>)
    requires
        forall|i: int, j: int|
            #![trigger td[i], td[j]]
            0 <= i < j < td.len() ==> td[i].id != td[j].id,
    ensures
        forall|i: int, j: int|
            #![trigger todos_not_of(td, u)[i], todos_not_of(td, u)[j]]
            0 <= i < j < todos_not_of(td, u).len() ==> todos_not_of(td, u)[i].id != todos_not_of(
                td,
                u,
            )[j].id,
    decreases td.len(),
{
    if td.len() > 0 {
        let rest = td.drop_last();
        lemma_todos_not_of_distinct(rest, u);
        lemma_todos_not_of_props(rest, u);
        let f = todos_not_of(td, u);
        let fr = todos_not_of(rest, u);
        assert forall|i: int, j: int|
            #![trigger f[i], f[j]]
            0 <= i < j < f.len() implies f[i].id != f[j].id by {
            if j < fr.len() {
                assert(f[i] == fr[i] && f[j] == fr[j]);
            } else if j == fr.len() && f.len() == fr.len() + 1 {
                let k = choose|k: int| 0 <= k < rest.len() && fr[i] == #[trigger] rest[k];
                assert(td[k] == fr[i]);
                assert(td[td.len() - 1] == f[j]);
            }
        }
    }
}

/// A user's todos and the rest partition the table.
pub proof fn lemma_todos_partition_len(td: Seq<Todo>, u: Seq<char>)
    ensures
        todos_of(td, u).len() + todos_not_of(td, u).len() == td.len(),
    decreases td.len(),
{
    if td.len() > 0 {
        lemma_todos_partition_len(td.drop_last(), u);
    }
}

/// The rows belonging to `username`, in stored order, each an owned copy.
fn todos_matching(todos: &Vec<Todo>, username: &String) -> (out: Vec<Todo>)
    ensures
        out@ == todos_of(todos@, username@),
{
    let mut out: Vec<Todo> = Vec::new();
    let mut i: usize = 0;
    proof {
        assert(todos@.take(0) =~= Seq::<Todo>::empty());
    }
    while i < todos.len()
        invariant
            i <= todos@.len(),
            out@ == todos_of(todos@.take(i as int), username@),
        decreases todos@.len() - i,
    {
        proof {
            assert(todos@.take(i as int + 1) =~= todos@.take(i as int).push(todos@[i as int]));
            lemma_todos_of_push(todos@.take(i as int), todos@[i as int], username@);
        }
        if todos[i].username == *username {
            out.push(todos[i].duplicate());
        }
        i = i + 1;
    }
    proof {
        assert(todos@.take(todos@.len() as int) =~= todos@);
    }
    out
}

/// The rows not belonging to `username`, in stored order, each an owned copy.
fn todos_keeping(todos: &Vec<Todo>, username: &String) -> (out: Vec<Todo>)
    ensures
        out@ == todos_not_of(todos@, username@),
{
    let mut out: Vec<Todo> = Vec::new();
    let mut i: usize = 0;
    proof {
        assert(todos@.take(0) =~= Seq::<Todo>::empty());
    }
    while i < todos.len()
        invariant
            i <= todos@.len(),
            out@ == todos_not_of(todos@.take(i as int), username@),
        decreases todos@.len() - i,
    {
        proof {
            assert(todos@.take(i as int + 1) =~= todos@.take(i as int).push(todos@[i as int]));
            lemma_todos_not_of_push(todos@.take(i as int), todos@[i as int], username@);
        }
        if !(todos[i].username == *username) {
            out.push(todos[i].duplicate());
        }
        i = i + 1;
    }
    proof {
        assert(todos@.take(todos@.len() as int) =~= todos@);
    }
    out
}

/// Inserts `x` into a vector already in ascending id order, keeping it so.
fn insert_todo_by_id(v: Vec<Todo>, x: Todo) -> (out: Vec<Todo>)
    requires
        todos_sorted(v@),
    ensures
        todos_sorted(out@),
        out@.to_multiset() == v@.to_multiset().insert(x),
{
    let mut out = v;
    let mut p: usize = 0;
    while p < out.len() && out[p].id <= x.id
        invariant
            p <= out@.len(),
            forall|k: int| 0 <= k < p ==> (#[trigger] out@[k]).id <= x.id,
            todos_sorted(out@),
        decreases out@.len() - p,
    {
        p = p + 1;
    }
    proof {
        let pre = out@;
        let ins = pre.insert(p as int, x);
        broadcast use group_to_multiset_ensures, group_multiset_axioms;

        assert(ins.remove(p as int) =~= pre);
        assert(ins[p as int] == x);
        assert(ins.to_multiset().remove(x) == pre.to_multiset());
        assert(ins.to_multiset().count(x) > 0);
        assert(ins.to_multiset() =~= pre.to_multiset().insert(x));
        assert forall|a: int, b: int|
            #![trigger ins[a], ins[b]]
            0 <= a < b < ins.len() implies ins[a].id <= ins[b].id by {
            if b < p as int {
                assert(ins[a] == pre[a] && ins[b] == pre[b]);
            } else if a > p as int {
                assert(ins[a] == pre[a - 1] && ins[b] == pre[b - 1]);
            } else if a < p as int && b == p as int {
                assert(ins[a] == pre[a]);
            } else if a == p as int {
                assert(ins[b] == pre[b - 1]);
                assert(p as int <= b - 1 < pre.len());
            } else {
                assert(ins[a] == pre[a]);
                assert(ins[b] == pre[b - 1]);
                assert(pre[a].id <= pre[b - 1].id);
            }
        }
    }
    out.insert(p, x);
    out
}

/// Sorts the rows into ascending id order; the rows themselves are exactly
/// those given, whatever order they arrived in.
fn sort_todos_by_id(v: Vec<Todo>) -> (out: Vec<Todo>)
    ensures
        todos_sorted(out@),
        out@.to_multiset() == v@.to_multiset(),
{
    let mut out: Vec<Todo> = Vec::new();
    let mut i: usize = 0;
    proof {
        assert(out@ =~= v@.take(0));
    }
    while i < v.len()
        invariant
            i <= v@.len(),
            todos_sorted(out@),
            out@.to_multiset() == v@.take(i as int).to_multiset(),
        decreases v@.len() - i,
    {
        let x = v[i].duplicate();
        proof {
            broadcast use group_to_multiset_ensures;

            assert(v@.take(i as int + 1) =~= v@.take(i as int).push(v@[i as int]));
        }
        out = insert_todo_by_id(out, x);
        i = i + 1;
    }
    proof {
        assert(v@.take(v@.len() as int) =~= v@);
    }
    out
}

/// Listing a user's todos: the existence gate first; then every owned row
/// exactly once, in ascending id order whatever order storage returned, with
/// the count.
pub open spec fn get_all_todos_post(pre: Store, u: Seq<char>, r: Reply) -> bool {
    if !pre.has_user(u) {
        bad_request(r, user_not_found_msg(u))
    } else {
        &&& r matches Reply::Todos { count, todos } && todos@.to_multiset() == todos_of(
            pre.todos@,
            u,
        ).to_multiset() && todos_sorted(todos@) && count == todos_of(pre.todos@, u).len()
    }
}

/// Creating a todo: the existence gate first, leaving the store untouched
/// when it fails; otherwise one appended row, owned by `u`, titled as given,
/// not yet completed, carrying the next id.
pub open spec fn create_todo_post(
    pre: Store,
    u: Seq<char>,
    title: Seq<char>,
    desc: Seq<char>,
    post: Store,
    r: Reply,
) -> bool {
    if !pre.has_user(u) {
        unchanged(pre, post) && bad_request(r, user_not_found_msg(u))
    } else {
        &&& post.todos@.len() == pre.todos@.len() + 1
        &&& post.todos@.subrange(0, pre.todos@.len() as int) == pre.todos@
        &&& post.todos@.last().id == pre.next_todo_id
        &&& post.todos@.last().username@ == u
        &&& post.todos@.last().title@ == title
        &&& post.todos@.last().description@ == desc
        &&& post.todos@.last().completed == false
        &&& post.next_todo_id == pre.next_todo_id + 1
        &&& post.users@ == pre.users@
        &&& post.next_user_id == pre.next_user_id
        &&& acked(r, todo_created_msg(u))
    }
}

/// Deleting a todo: lookup by id alone; exactly the resolving row is
/// removed. The not-found envelope otherwise.
pub open spec fn delete_todo_post(
    pre: Store,
    u: Seq<char>,
    id: int,
    post: Store,
    r: Reply,
) -> bool {
    if !pre.has_todo(id) {
        unchanged(pre, post) && bad_request(r, todo_not_found_msg(id, u))
    } else {
        exists|i: int| todo_removed_at(pre, u, id, post, r, i)
    }
}

/// Row `i` holds the todo id and exactly that row is gone afterwards.
pub open spec fn todo_removed_at(
    pre: Store,
    u: Seq<char>,
    id: int,
    post: Store,
    r: Reply,
    i: int,
) -> bool {
    &&& 0 <= i < pre.todos@.len()
    &&& pre.todos@[i].id == id
    &&& post.todos@ == pre.todos@.remove(i)
    &&& post.users@ == pre.users@
    &&& post.next_user_id == pre.next_user_id
    &&& post.next_todo_id == pre.next_todo_id
    &&& acked(r, todo_deleted_msg(id, u))
}

/// Patching a todo: the no-fields envelope when nothing is supplied; the
/// not-found envelope when the id does not resolve; otherwise only the
/// supplied fields of the one row change.
pub open spec fn update_todo_post(
    pre: Store,
    u: Seq<char>,
    id: int,
    patch: UpdateTodo,
    post: Store,
    r: Reply,
) -> bool {
    if no_patch_fields(patch) {
        unchanged(pre, post) && bad_request(r, no_fields_msg())
    } else if !pre.has_todo(id) {
        unchanged(pre, post) && bad_request(r, todo_not_found_msg(id, u))
    } else {
        exists|i: int| todo_updated_at(pre, u, id, patch, post, r, i)
    }
}

/// Row `i` holds the todo id; afterwards only that row differs, rewritten by
/// exactly the supplied patch fields.
pub open spec fn todo_updated_at(
    pre: Store,
    u: Seq<char>,
    id: int,
    patch: UpdateTodo,
    post: Store,
    r: Reply,
    i: int,
) -> bool {
    &&& 0 <= i < pre.todos@.len()
    &&& pre.todos@[i].id == id
    &&& post.todos@ == pre.todos@.update(i, post.todos@[i])
    &&& todo_patched(pre.todos@[i], patch, post.todos@[i])
    &&& post.users@ == pre.users@
    &&& post.next_user_id == pre.next_user_id
    &&& post.next_todo_id == pre.next_todo_id
    &&& acked(r, todo_updated_msg(id, u))
}

/// Bulk-deleting a user's todos: the existence gate first; the
/// nothing-to-delete envelope when the user owns no rows; otherwise exactly
/// the owned rows disappear and every other row stays.
pub open spec fn delete_all_todos_post(pre: Store, u: Seq<char>, post: Store, r: Reply) -> bool {
    if !pre.has_user(u) {
        unchanged(pre, post) && bad_request(r, user_not_found_msg(u))
    } else if todos_of(pre.todos@, u).len() == 0 {
        unchanged(pre, post) && bad_request(r, no_todos_msg(u))
    } else {
        &&& post.todos@ == todos_not_of(pre.todos@, u)
        &&& post.users@ == pre.users@
        &&& post.next_user_id == pre.next_user_id
        &&& post.next_todo_id == pre.next_todo_id
        &&& acked(r, todos_cleared_msg(u))
    }
}

/// Returns the todos of `username` in ascending id order, or the not-found
/// envelope when the user does not exist.
pub fn get_all_todos(s: &Store, username: String) -> (r: Reply)
    ensures
        get_all_todos_post(*s, username@, r),
{
    if !registered_user(&username, s) {
        return bad_request_reply(wrap_name("User ", &username, " not found"));
    }
    let rows = todos_matching(&s.todos, &username);
    let sorted = sort_todos_by_id(rows);
    let count = sorted.len();
    proof {
        broadcast use group_to_multiset_ensures;

        assert(sorted@.len() == sorted@.to_multiset().len());
        assert(todos_of(s.todos@, username@).len() == todos_of(
            s.todos@,
            username@,
        ).to_multiset().len());
    }
    Reply::Todos { count, todos: sorted }
}

/// Inserts a todo for `username` unless the existence gate fails; the new
/// row starts uncompleted.
pub fn create_todo(s: &mut Store, username: String, payload: CreateTodo) -> (r: Reply)
    requires
        old(s).wf(),
        old(s).has_user(username@) ==> old(s).next_todo_id < i32::MAX,
    ensures
        create_todo_post(*old(s), username@, payload.title@, payload.description@, *final(s), r),
        final(s).wf(),
{
    if !registered_user(&username, s) {
        return bad_request_reply(wrap_name("User ", &username, " not found"));
    }
    let message = prefix_name("Created todo for user ", &username);
    let CreateTodo { title, description } = payload;
    let id = s.next_todo_id;
    s.todos.push(Todo { id, username, title, description, completed: false });
    s.next_todo_id = s.next_todo_id + 1;
    proof {
        assert(s.todos@.subrange(0, old(s).todos@.len() as int) =~= old(s).todos@);
        assert forall|i: int, j: int|
            #![trigger s.todos@[i], s.todos@[j]]
            0 <= i < j < s.todos@.len() implies s.todos@[i].id != s.todos@[j].id by {
            assert(old(s).todos@[i] == s.todos@[i]);
            if j < old(s).todos@.len() {
                assert(old(s).todos@[j] == s.todos@[j]);
            }
        }
    }
    ack_reply(message)
}

/// Deletes the todo with `todo_id`, whoever owns it; `username` appears in
/// the texts only.
pub fn delete_todo(s: &mut Store, username: String, todo_id: i32) -> (r: Reply)
    requires
        old(s).wf(),
    ensures
        delete_todo_post(*old(s), username@, todo_id as int, *final(s), r),
        final(s).wf(),
{
    match find_todo_index(&s.todos, todo_id) {
        None => bad_request_reply(
            wrap_id_name("Todo ", todo_id, " not found for user ", &username),
        ),
        Some(i) => {
            s.todos.remove(i);
            proof {
                let ts = s.todos@;
                let pre = old(s).todos@;
                assert forall|a: int, b: int|
                    #![trigger ts[a], ts[b]]
                    0 <= a < b < ts.len() implies ts[a].id != ts[b].id by {
                    let pa = if a < i as int {
                        a
                    } else {
                        a + 1
                    };
                    let pb = if b < i as int {
                        b
                    } else {
                        b + 1
                    };
                    assert(ts[a] == pre[pa] && ts[b] == pre[pb]);
                }
                assert forall|a: int| 0 <= a < ts.len() implies 1 <= (#[trigger] ts[a]).id
                    < s.next_todo_id by {
                    let pa = if a < i as int {
                        a
                    } else {
                        a + 1
                    };
                    assert(ts[a] == pre[pa]);
                }
            }
            let rep = ack_reply(wrap_id_name("Deleted todo ", todo_id, " for user ", &username));
            proof {
                assert(todo_removed_at(
                    *old(s),
                    username@,
                    todo_id as int,
                    *s,
                    rep,
                    i as int,
                ));
            }
            rep
        },
    }
}

/// Applies a partial patch to the todo with `todo_id`: only supplied fields
/// change; an empty patch and an unknown id are reported without touching
/// anything.
pub fn update_todo(s: &mut Store, username: String, todo_id: i32, payload: UpdateTodo) -> (r:
    Reply)
    requires
        old(s).wf(),
    ensures
        update_todo_post(*old(s), username@, todo_id as int, payload, *final(s), r),
        final(s).wf(),
{
    if payload.title.is_none() && payload.description.is_none() && payload.completed.is_none() {
        return bad_request_reply("No fields to update".to_owned());
    }
    match find_todo_index(&s.todos, todo_id) {
        None => bad_request_reply(
            wrap_id_name("Todo ", todo_id, " not found for user ", &username),
        ),
        Some(i) => {
            let UpdateTodo { title, description, completed } = payload;
            let before = &s.todos[i];
            let patched = Todo {
                id: before.id,
                username: before.username.clone(),
                title: match title {
                    Some(t) => t,
                    None => before.title.clone(),
                },
                description: match description {
                    Some(d) => d,
                    None => before.description.clone(),
                },
                completed: match completed {
                    Some(c) => c,
                    None => before.completed,
                },
            };
            s.todos.set(i, patched);
            proof {
                let ts = s.todos@;
                let pre = old(s).todos@;
                assert forall|a: int, b: int|
                    #![trigger ts[a], ts[b]]
                    0 <= a < b < ts.len() implies ts[a].id != ts[b].id by {
                    assert(ts[a].id == pre[a].id && ts[b].id == pre[b].id);
                }
                assert(ts == pre.update(i as int, ts[i as int]));
            }
            let rep = ack_reply(wrap_id_name("Updated todo ", todo_id, " for user ", &username));
            proof {
                assert(todo_updated_at(
                    *old(s),
                    username@,
                    todo_id as int,
                    payload,
                    *s,
                    rep,
                    i as int,
                ));
            }
            rep
        },
    }
}

/// Deletes every todo of `username`: the existence gate first, then the
/// nothing-to-delete envelope when no row matches, else all matching rows go.
pub fn delete_all_todos(s: &mut Store, username: String) -> (r: Reply)
    requires
        old(s).wf(),
    ensures
        delete_all_todos_post(*old(s), username@, *final(s), r),
        final(s).wf(),
{
    if !registered_user(&username, s) {
        return bad_request_reply(wrap_name("User ", &username, " not found"));
    }
    let kept = todos_keeping(&s.todos, &username);
    if kept.len() == s.todos.len() {
        proof {
            lemma_todos_partition_len(s.todos@, username@);
        }
        return bad_request_reply(prefix_name("No todos found for user ", &username));
    }
    proof {
        lemma_todos_partition_len(s.todos@, username@);
        lemma_todos_not_of_props(old(s).todos@, username@);
        lemma_todos_not_of_distinct(old(s).todos@, username@);
    }
    let message = prefix_name("Deleted all todos for user ", &username);
    s.todos = kept;
    proof {
        let ts = s.todos@;
        let pre = old(s).todos@;
        assert forall|a: int| 0 <= a < ts.len() implies 1 <= (#[trigger] ts[a]).id
            < s.next_todo_id by {
            let k = choose|k: int| 0 <= k < pre.len() && ts[a] == #[trigger] pre[k];
            assert(ts[a] == pre[k]);
        }
    }
    ack_reply(message)
}

} // verus!
