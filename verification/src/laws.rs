//! Laws relating several operations, each proved from the operations'
//! postconditions alone: what two calls in sequence must yield, and what a
//! bulk delete or a partial patch leaves behind.

use vstd::prelude::*;
use vstd::seq_lib::group_to_multiset_ensures;
use vstd::multiset::group_multiset_axioms;
use crate::store::{todos_of, unchanged, Store};
use crate::reply::{acked, bad_request, created, Reply, StorageFault};
use crate::users::{
    create_user_post, delete_user_post, get_user_post, update_user_post, user_removed_at,
    user_renamed_at,
};
use crate::todos::{
    create_todo_post, delete_all_todos_post, get_all_todos_post, lemma_todos_not_of_props,
    lemma_todos_of_props, lemma_todos_of_push, lemma_todos_partition_len, no_patch_fields,
    todo_updated_at, update_todo_post, UpdateTodo,
};
use crate::text::{
    no_todos_msg, todo_updated_msg, todos_cleared_msg, user_created_msg, user_exists_msg,
    user_not_found_msg,
};

verus! {

/// Law: creating the same username twice yields success and then the
/// already-exists envelope, the second call leaving the store exactly as the
/// first call left it.
pub proof fn law_create_user_twice(
    s0: Store,
    s1: Store,
    s2: Store,
    u: Seq<char>,
    r1: Reply,
    r2: Reply,
)
    requires
        s0.wf(),
        !s0.has_user(u),
        create_user_post(s0, u, s1, r1),
        create_user_post(s1, u, s2, r2),
    ensures
        created(r1, user_created_msg(u), s0.next_user_id as int),
        bad_request(r2, user_exists_msg(u)),
        unchanged(s1, s2),
{
    let n = s0.users@.len() as int;
    assert(s1.users@[n] == s1.users@.last());
    assert(s1.has_user(u));
}

/// Law: after deleting a user, reading the username yields the not-found
/// envelope.
pub proof fn law_delete_then_get_user(
    s0: Store,
    s1: Store,
    u: Seq<char>,
    r1: Reply,
    r2: Reply,
)
    requires
        s0.wf(),
        s0.has_user(u),
        delete_user_post(s0, u, s1, r1),
        get_user_post(s1, u, r2),
    ensures
        bad_request(r2, user_not_found_msg(u)),
{
    let i = choose|i: int| user_removed_at(s0, u, s1, r1, i);
    assert(s1.users@ == s0.users@.remove(i));
    assert forall|j: int| 0 <= j < s1.users@.len() implies (#[trigger] s1.users@[j]).username@
        != u by {
        let pj = if j < i {
            j
        } else {
            j + 1
        };
        assert(s1.users@[j] == s0.users@[pj]);
        if pj != i {
            let a = if pj < i {
                pj
            } else {
                i
            };
            let b = if pj < i {
                i
            } else {
                pj
            };
            assert(s0.users@[a].username@ != s0.users@[b].username@);
        }
    }
    assert(!s1.has_user(u));
}

/// Law: a rename leaves every todo untouched, even those still referencing
/// the old username; nothing cascades.
pub proof fn law_rename_leaves_todos(
    s0: Store,
    s1: Store,
    ou: Seq<char>,
    nu: Seq<char>,
    r: Result<Reply, StorageFault>,
)
    requires
        update_user_post(s0, ou, nu, s1, r),
    ensures
        s1.todos@ == s0.todos@,
{
    if s0.has_user(ou) {
        let i = choose|i: int| user_renamed_at(s0, ou, nu, s1, r, i);
        assert(s1.todos@ == s0.todos@);
    }
}

/// Law: after creating a todo for an existing user, listing that user's
/// todos shows a row carrying the given title and description and not yet
/// completed — and, as long as none of their already-stored rows looked the
/// same, exactly one such row.
pub proof fn law_create_then_list_todos(
    s0: Store,
    s1: Store,
    u: Seq<char>,
    title: Seq<char>,
    desc: Seq<char>,
    r1: Reply,
    r2: Reply,
)
    requires
        s0.wf(),
        s0.has_user(u),
        forall|i: int|
            0 <= i < todos_of(s0.todos@, u).len() ==> !((#[trigger] todos_of(s0.todos@, u)[i]).title@
                == title && todos_of(s0.todos@, u)[i].description@ == desc && !todos_of(
                s0.todos@,
                u,
            )[i].completed),
        create_todo_post(s0, u, title, desc, s1, r1),
        get_all_todos_post(s1, u, r2),
    ensures
        r2 is Todos,
        r2->Todos_count == todos_of(s0.todos@, u).len() + 1,
        exists|k: int|
            0 <= k < r2->Todos_todos@.len() && (#[trigger] r2->Todos_todos@[k]).title@ == title
                && r2->Todos_todos@[k].description@ == desc && !r2->Todos_todos@[k].completed,
        forall|k1: int, k2: int|
            #![trigger r2->Todos_todos@[k1], r2->Todos_todos@[k2]]
            0 <= k1 < k2 < r2->Todos_todos@.len() ==> !(r2->Todos_todos@[k1].title@ == title
                && r2->Todos_todos@[k1].description@ == desc && !r2->Todos_todos@[k1].completed
                && r2->Todos_todos@[k2].title@ == title && r2->Todos_todos@[k2].description@
                == desc && !r2->Todos_todos@[k2].completed),
{
    broadcast use group_to_multiset_ensures, group_multiset_axioms;

    let w = choose|i: int| 0 <= i < s0.users@.len() && (#[trigger] s0.users@[i]).username@ == u;
    assert(s1.users@[w].username@ == u);
    assert(s1.has_user(u));
    let newrow = s1.todos@.last();
    assert(newrow.title@ == title && newrow.description@ == desc && !newrow.completed
        && newrow.username@ == u);
    assert(s1.todos@ =~= s0.todos@.push(newrow)) by {
        assert forall|j: int| 0 <= j < s0.todos@.len() implies s1.todos@[j] == s0.todos@[j] by {
            assert(s1.todos@.subrange(0, s0.todos@.len() as int)[j] == s1.todos@[j]);
        }
    }
    lemma_todos_of_push(s0.todos@, newrow, u);
    let of0 = todos_of(s0.todos@, u);
    let of1 = todos_of(s1.todos@, u);
    assert(of1 == of0.push(newrow));
    assert(!of0.contains(newrow));
    assert(of0.to_multiset().count(newrow) == 0);
    assert(of1.to_multiset() == of0.to_multiset().insert(newrow));
    assert(of1.to_multiset().count(newrow) == 1);
    let ts = r2->Todos_todos@;
    assert(ts.to_multiset() == of1.to_multiset());
    // the fresh row is listed
    assert(ts.contains(newrow));
    let k = choose|k: int| 0 <= k < ts.len() && ts[k] == newrow;
    assert((ts[k]).title@ == title && ts[k].description@ == desc && !ts[k].completed);
    // and nothing else looks like it
    assert forall|k1: int, k2: int|
        #![trigger ts[k1], ts[k2]]
        0 <= k1 < k2 < ts.len() implies !(ts[k1].title@ == title && ts[k1].description@ == desc
        && !ts[k1].completed && ts[k2].title@ == title && ts[k2].description@ == desc
        && !ts[k2].completed) by {
        if ts[k1].title@ == title && ts[k1].description@ == desc && !ts[k1].completed
            && ts[k2].title@ == title && ts[k2].description@ == desc && !ts[k2].completed {
            assert(ts.contains(ts[k1]) && ts.contains(ts[k2]));
            assert(ts.to_multiset().count(ts[k1]) > 0 && ts.to_multiset().count(ts[k2]) > 0);
            assert(of1.to_multiset().count(ts[k1]) > 0 && of1.to_multiset().count(ts[k2]) > 0);
            assert(of1.contains(ts[k1]) && of1.contains(ts[k2]));
            let m1 = choose|m: int| 0 <= m < of1.len() && of1[m] == ts[k1];
            if m1 < of0.len() {
                assert(of0[m1] == ts[k1]);
            }
            assert(ts[k1] == newrow);
            let m2 = choose|m: int| 0 <= m < of1.len() && of1[m] == ts[k2];
            if m2 < of0.len() {
                assert(of0[m2] == ts[k2]);
            }
            assert(ts[k2] == newrow);
            let shorter = ts.remove(k1);
            assert(shorter.to_multiset() == ts.to_multiset().remove(newrow));
            assert(shorter[k2 - 1] == newrow);
            assert(shorter.contains(newrow));
            assert(shorter.to_multiset().count(newrow) > 0);
            assert(ts.to_multiset().count(newrow) >= 2);
        }
    }
}

/// Law: a patch supplying only `completed` changes that field alone; the
/// row's id, owner, title and description, and every other row, stay as they
/// were.
pub proof fn law_patch_completed_only(
    s0: Store,
    s1: Store,
    u: Seq<char>,
    id: int,
    c: bool,
    patch: UpdateTodo,
    r: Reply,
)
    requires
        patch.title is None,
        patch.description is None,
        patch.completed == Some(c),
        s0.has_todo(id),
        update_todo_post(s0, u, id, patch, s1, r),
    ensures
        acked(r, todo_updated_msg(id, u)),
        exists|i: int|
            {
                &&& 0 <= i < s0.todos@.len()
                &&& (#[trigger] s0.todos@[i]).id == id
                &&& s1.todos@ == s0.todos@.update(i, s1.todos@[i])
                &&& s1.todos@[i].title@ == s0.todos@[i].title@
                &&& s1.todos@[i].description@ == s0.todos@[i].description@
                &&& s1.todos@[i].username@ == s0.todos@[i].username@
                &&& s1.todos@[i].completed == c
            },
{
    assert(!no_patch_fields(patch));
    let i = choose|i: int| todo_updated_at(s0, u, id, patch, s1, r, i);
    assert(0 <= i < s0.todos@.len() && s0.todos@[i].id == id);
    assert(s1.todos@[i].completed == c);
}

/// Law: bulk-deleting a user's todos yields nothing-to-delete exactly when
/// they own none; otherwise it removes exactly their rows — as many as they
/// owned — and afterwards they own none.
pub proof fn law_delete_all_todos_removes_exactly(s0: Store, s1: Store, u: Seq<char>, r: Reply)
    requires
        s0.wf(),
        s0.has_user(u),
        delete_all_todos_post(s0, u, s1, r),
    ensures
        todos_of(s0.todos@, u).len() == 0 ==> unchanged(s0, s1) && bad_request(r, no_todos_msg(u)),
        todos_of(s0.todos@, u).len() > 0 ==> acked(r, todos_cleared_msg(u)) && s1.todos@.len()
            + todos_of(s0.todos@, u).len() == s0.todos@.len() && todos_of(s1.todos@, u).len() == 0,
{
    lemma_todos_partition_len(s0.todos@, u);
    if todos_of(s0.todos@, u).len() > 0 {
        lemma_todos_not_of_props(s0.todos@, u);
        lemma_todos_of_props(s1.todos@, u);
        if todos_of(s1.todos@, u).len() > 0 {
            let f = todos_of(s1.todos@, u);
            assert(f[0].username@ == u);
            let k = choose|k: int| 0 <= k < s1.todos@.len() && f[0] == #[trigger] s1.todos@[k];
            assert(s1.todos@[k].username@ != u);
            assert(false);
        }
    }
}

} // verus!
