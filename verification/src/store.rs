//! The state the storage gateway owns: the `users` and `todos` tables, each
//! row carrying a system-assigned id, together with the next id either table
//! will assign. The well-formedness predicate `Store::wf` captures the
//! invariants the gateway enforces: ids are positive, below the next id, and
//! unique, and no two users share a username.

use vstd::prelude::*;

verus! {

/// A stored user row.
pub struct User {
    pub id: i32,
    pub username: String,
}

/// A stored todo row. `username` names the owning user by value only;
/// deleting or renaming that user leaves the row untouched.
pub struct Todo {
    pub id: i32,
    pub username: String,
    pub title: String,
    pub description: String,
    pub completed: bool,
}

impl User {
    /// An owned copy of the row, equal to the original.
    pub fn duplicate(&self) -> (r: User)
        ensures
            r == *self,
    {
        User { id: self.id, username: self.username.clone() }
    }
}

impl Todo {
    /// An owned copy of the row, equal to the original.
    pub fn duplicate(&self) -> (r: Todo)
        ensures
            r == *self,
    {
        Todo {
            id: self.id,
            username: self.username.clone(),
            title: self.title.clone(),
            description: self.description.clone(),
            completed: self.completed,
        }
    }
}

/// The durable state behind the operations.
pub struct Store {
    pub users: Vec<User>,
    pub todos: Vec<Todo>,
    pub next_user_id: i32,
    pub next_todo_id: i32,
}

impl Store {
    /// The invariants the storage gateway guarantees: ids positive, unique
    /// and below the table's next id, and usernames unique across users.
    pub open spec fn wf(self) -> bool {
        &&& self.next_user_id >= 1
        &&& self.next_todo_id >= 1
        &&& forall|i: int, j: int|
            #![trigger self.users@[i], self.users@[j]]
            0 <= i < j < self.users@.len() ==> self.users@[i].id != self.users@[j].id
                && self.users@[i].username@ != self.users@[j].username@
        &&& forall|i: int|
            0 <= i < self.users@.len() ==> 1 <= (#[trigger] self.users@[i]).id < self.next_user_id
        &&& forall|i: int, j: int|
            #![trigger self.todos@[i], self.todos@[j]]
            0 <= i < j < self.todos@.len() ==> self.todos@[i].id != self.todos@[j].id
        &&& forall|i: int|
            0 <= i < self.todos@.len() ==> 1 <= (#[trigger] self.todos@[i]).id < self.next_todo_id
    }

    /// Does some user currently carry this username?
    pub open spec fn has_user(self, u: Seq<char>) -> bool {
        exists|i: int| 0 <= i < self.users@.len() && (#[trigger] self.users@[i]).username@ == u
    }

    /// Does some todo currently carry this id?
    pub open spec fn has_todo(self, id: int) -> bool {
        exists|i: int| 0 <= i < self.todos@.len() && (#[trigger] self.todos@[i]).id == id
    }

    /// An empty store, as a fresh database presents it.
    pub fn new() -> (s: Store)
        ensures
            s.users@.len() == 0,
            s.todos@.len() == 0,
            s.next_user_id == 1,
            s.next_todo_id == 1,
            s.wf(),
    {
        Store { users: Vec::new(), todos: Vec::new(), next_user_id: 1, next_todo_id: 1 }
    }
}

/// Neither table nor either id counter differs between the two states.
pub open spec fn unchanged(pre: Store, post: Store) -> bool {
    &&& post.users@ == pre.users@
    &&& post.todos@ == pre.todos@
    &&& post.next_user_id == pre.next_user_id
    &&& post.next_todo_id == pre.next_todo_id
}

/// The todos belonging to `u`, in stored order.
pub open spec fn todos_of(todos: Seq<Todo>, u: Seq<char>) -> Seq<Todo>
    decreases todos.len(),
{
    if todos.len() == 0 {
        Seq::empty()
    } else {
        let rest = todos_of(todos.drop_last(), u);
        if todos.last().username@ == u {
            rest.push(todos.last())
        } else {
            rest
        }
    }
}

/// The todos not belonging to `u`, in stored order.
pub open spec fn todos_not_of(todos: Seq<Todo>, u: Seq<char>) -> Seq<Todo>
    decreases todos.len(),
{
    if todos.len() == 0 {
        Seq::empty()
    } else {
        let rest = todos_not_of(todos.drop_last(), u);
        if todos.last().username@ != u {
            rest.push(todos.last())
        } else {
            rest
        }
    }
}

/// The index of the first user row carrying `username`, if any.
pub fn find_user_index(users: &Vec<User>, username: &String) -> (r: Option<usize>)
    ensures
        match r {
            Some(i) => i < users@.len() && users@[i as int].username@ == username@,
            None => forall|j: int|
                0 <= j < users@.len() ==> (#[trigger] users@[j]).username@ != username@,
        },
{
    let mut i: usize = 0;
    while i < users.len()
        invariant
            i <= users@.len(),
            forall|j: int| 0 <= j < i ==> (#[trigger] users@[j]).username@ != username@,
        decreases users@.len() - i,
    {
        if users[i].username == *username {
            return Some(i);
        }
        i = i + 1;
    }
    None
}

/// The index of the first todo row carrying `id`, if any. Lookup is by id
/// alone; under `wf` the index is unique.
pub fn find_todo_index(todos: &Vec<Todo>, id: i32) -> (r: Option<usize>)
    ensures
        match r {
            Some(i) => i < todos@.len() && todos@[i as int].id == id,
            None => forall|j: int| 0 <= j < todos@.len() ==> (#[trigger] todos@[j]).id != id,
        },
{
    let mut i: usize = 0;
    while i < todos.len()
        invariant
            i <= todos@.len(),
            forall|j: int| 0 <= j < i ==> (#[trigger] todos@[j]).id != id,
        decreases todos@.len() - i,
    {
        if todos[i].id == id {
            return Some(i);
        }
        i = i + 1;
    }
    None
}

/// The existence oracle: does a user with this username exist? Every todo
/// operation and user creation gates on this read; it changes nothing.
pub fn registered_user(username: &String, s: &Store) -> (b: bool)
    ensures
        b == s.has_user(username@),
{
    let r = find_user_index(&s.users, username);
    r.is_some()
}

} // verus!
