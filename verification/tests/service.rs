use todo_service::reply::{Reply, StorageFault};
use todo_service::store::{registered_user, Store, Todo, User};
use todo_service::todos::{
    create_todo, delete_all_todos, delete_todo, get_all_todos, update_todo, CreateTodo, UpdateTodo,
};
use todo_service::users::{
    create_user, delete_all_users, delete_user, get_all_users, get_user, update_user,
};

fn created_parts(r: Reply) -> (bool, String, i32) {
    match r {
        Reply::Created { acknowledged, message, user_id } => (acknowledged, message, user_id),
        _ => panic!("expected a creation acknowledgement"),
    }
}

fn ack_parts(r: Reply) -> (bool, String) {
    match r {
        Reply::Ack { acknowledged, message } => (acknowledged, message),
        _ => panic!("expected an acknowledgement"),
    }
}

fn bad_request_parts(r: Reply) -> (String, String) {
    match r {
        Reply::BadRequest { error, message } => (error, message),
        _ => panic!("expected a client-error envelope"),
    }
}

fn todos_parts(r: Reply) -> (usize, Vec<Todo>) {
    match r {
        Reply::Todos { count, todos } => (count, todos),
        _ => panic!("expected a todo listing"),
    }
}

fn users_parts(r: Reply) -> (Vec<User>, usize) {
    match r {
        Reply::Users { users, count } => (users, count),
        _ => panic!("expected a user listing"),
    }
}

#[test]
fn create_user_assigns_ascending_ids() {
    let mut s = Store::new();
    let (ack, msg, id) = created_parts(create_user(&mut s, "alice".to_string()));
    assert!(ack);
    assert_eq!(msg, "User alice created");
    assert_eq!(id, 1);
    let (_, _, id2) = created_parts(create_user(&mut s, "bob".to_string()));
    assert_eq!(id2, 2);
}

#[test]
fn create_user_twice_reports_already_exists() {
    let mut s = Store::new();
    created_parts(create_user(&mut s, "alice".to_string()));
    let (err, msg) = bad_request_parts(create_user(&mut s, "alice".to_string()));
    assert_eq!(err, "Bad Request");
    assert_eq!(msg, "User alice already exists");
    assert_eq!(s.users.len(), 1);
}

#[test]
fn get_user_after_delete_reports_not_found() {
    let mut s = Store::new();
    created_parts(create_user(&mut s, "bob".to_string()));
    let (ack, msg) = ack_parts(delete_user(&mut s, "bob".to_string()));
    assert!(ack);
    assert_eq!(msg, "User bob deleted");
    let (err, msg) = bad_request_parts(get_user(&s, &"bob".to_string()));
    assert_eq!(err, "Bad Request");
    assert_eq!(msg, "User bob not found");
}

#[test]
fn get_user_returns_the_record() {
    let mut s = Store::new();
    created_parts(create_user(&mut s, "carol".to_string()));
    match get_user(&s, &"carol".to_string()) {
        Reply::UserRecord { user } => {
            assert_eq!(user.id, 1);
            assert_eq!(user.username, "carol");
        },
        _ => panic!("expected the stored record"),
    }
}

#[test]
fn delete_user_of_missing_name_reports_does_not_exist() {
    let mut s = Store::new();
    let (_, msg) = bad_request_parts(delete_user(&mut s, "ghost".to_string()));
    assert_eq!(msg, "User ghost does not exist");
}

#[test]
fn rename_user_keeps_id_and_reports_both_names() {
    let mut s = Store::new();
    created_parts(create_user(&mut s, "dora".to_string()));
    let r = update_user(&mut s, "dora".to_string(), "dot".to_string());
    let (ack, msg) = ack_parts(r.expect("no other user holds the name"));
    assert!(ack);
    assert_eq!(msg, "User dora updated to dot");
    assert_eq!(s.users[0].id, 1);
    assert_eq!(s.users[0].username, "dot");
}

#[test]
fn rename_user_to_missing_old_name_reports_not_found() {
    let mut s = Store::new();
    let r = update_user(&mut s, "nobody".to_string(), "somebody".to_string());
    let (_, msg) = bad_request_parts(r.expect("a precondition failure is not a fault"));
    assert_eq!(msg, "User nobody not found");
}

#[test]
fn rename_user_onto_taken_name_hits_the_uniqueness_constraint() {
    let mut s = Store::new();
    created_parts(create_user(&mut s, "eve".to_string()));
    created_parts(create_user(&mut s, "frank".to_string()));
    match update_user(&mut s, "eve".to_string(), "frank".to_string()) {
        Err(StorageFault::UniqueViolation) => {},
        _ => panic!("expected the gateway's uniqueness constraint to fire"),
    }
    assert_eq!(s.users[0].username, "eve");
}

#[test]
fn rename_user_does_not_touch_todos() {
    let mut s = Store::new();
    created_parts(create_user(&mut s, "gail".to_string()));
    ack_parts(create_todo(
        &mut s,
        "gail".to_string(),
        CreateTodo { title: "t".to_string(), description: "d".to_string() },
    ));
    update_user(&mut s, "gail".to_string(), "gale".to_string()).expect("rename succeeds");
    assert_eq!(s.todos.len(), 1);
    assert_eq!(s.todos[0].username, "gail");
}

#[test]
fn list_users_sorts_by_ascending_id_regardless_of_storage_order() {
    let s = Store {
        users: vec![
            User { id: 3, username: "c".to_string() },
            User { id: 1, username: "a".to_string() },
            User { id: 2, username: "b".to_string() },
        ],
        todos: Vec::new(),
        next_user_id: 4,
        next_todo_id: 1,
    };
    let (users, count) = users_parts(get_all_users(&s));
    assert_eq!(count, 3);
    assert_eq!(users[0].id, 1);
    assert_eq!(users[1].id, 2);
    assert_eq!(users[2].id, 3);
    assert_eq!(users[0].username, "a");
}

#[test]
fn delete_all_users_on_empty_table_reports_nothing_to_delete() {
    let mut s = Store::new();
    let (_, msg) = bad_request_parts(delete_all_users(&mut s));
    assert_eq!(msg, "No users to deleted");
}

#[test]
fn delete_all_users_empties_the_table() {
    let mut s = Store::new();
    created_parts(create_user(&mut s, "henry".to_string()));
    created_parts(create_user(&mut s, "iris".to_string()));
    let (ack, msg) = ack_parts(delete_all_users(&mut s));
    assert!(ack);
    assert_eq!(msg, "Deleted 2 users");
    assert_eq!(s.users.len(), 0);
}

#[test]
fn delete_all_users_reports_the_removed_count() {
    let mut s = Store::new();
    created_parts(create_user(&mut s, "june".to_string()));
    let (_, msg) = ack_parts(delete_all_users(&mut s));
    assert_eq!(msg, "Deleted 1 users");
    created_parts(create_user(&mut s, "kaya".to_string()));
    created_parts(create_user(&mut s, "liam".to_string()));
    created_parts(create_user(&mut s, "mona".to_string()));
    let (_, msg) = ack_parts(delete_all_users(&mut s));
    assert_eq!(msg, "Deleted 3 users");
}

#[test]
fn create_and_list_todo_for_alice() {
    let mut s = Store::new();
    created_parts(create_user(&mut s, "alice".to_string()));
    let (ack, msg) = ack_parts(create_todo(
        &mut s,
        "alice".to_string(),
        CreateTodo { title: "Buy milk".to_string(), description: "2%".to_string() },
    ));
    assert!(ack);
    assert_eq!(msg, "Created todo for user alice");
    let (count, todos) = todos_parts(get_all_todos(&s, "alice".to_string()));
    assert_eq!(count, 1);
    assert_eq!(todos[0].title, "Buy milk");
    assert_eq!(todos[0].description, "2%");
    assert!(!todos[0].completed);
    assert_eq!(todos[0].username, "alice");
    assert_eq!(todos[0].id, 1);
}

#[test]
fn create_todo_for_missing_user_creates_nothing() {
    let mut s = Store::new();
    let (err, msg) = bad_request_parts(create_todo(
        &mut s,
        "jane".to_string(),
        CreateTodo { title: "t".to_string(), description: "d".to_string() },
    ));
    assert_eq!(err, "Bad Request");
    assert_eq!(msg, "User jane not found");
    assert_eq!(s.todos.len(), 0);
}

#[test]
fn list_todos_for_missing_user_reports_not_found() {
    let s = Store::new();
    let (_, msg) = bad_request_parts(get_all_todos(&s, "kim".to_string()));
    assert_eq!(msg, "User kim not found");
}

#[test]
fn list_todos_sorts_by_ascending_id_regardless_of_storage_order() {
    let s = Store {
        users: vec![User { id: 1, username: "lou".to_string() }],
        todos: vec![
            Todo {
                id: 9,
                username: "lou".to_string(),
                title: "last".to_string(),
                description: String::new(),
                completed: false,
            },
            Todo {
                id: 2,
                username: "lou".to_string(),
                title: "first".to_string(),
                description: String::new(),
                completed: true,
            },
            Todo {
                id: 5,
                username: "mel".to_string(),
                title: "other".to_string(),
                description: String::new(),
                completed: false,
            },
        ],
        next_user_id: 2,
        next_todo_id: 10,
    };
    let (count, todos) = todos_parts(get_all_todos(&s, "lou".to_string()));
    assert_eq!(count, 2);
    assert_eq!(todos[0].id, 2);
    assert_eq!(todos[1].id, 9);
    assert_eq!(todos[0].title, "first");
}

#[test]
fn update_todo_with_empty_patch_changes_nothing() {
    let mut s = Store::new();
    created_parts(create_user(&mut s, "nina".to_string()));
    ack_parts(create_todo(
        &mut s,
        "nina".to_string(),
        CreateTodo { title: "t".to_string(), description: "d".to_string() },
    ));
    let (_, msg) = bad_request_parts(update_todo(
        &mut s,
        "nina".to_string(),
        1,
        UpdateTodo { title: None, description: None, completed: None },
    ));
    assert_eq!(msg, "No fields to update");
    assert_eq!(s.todos[0].title, "t");
    assert_eq!(s.todos[0].description, "d");
    assert!(!s.todos[0].completed);
}

#[test]
fn update_todo_completed_only_leaves_title_and_description() {
    let mut s = Store::new();
    created_parts(create_user(&mut s, "omar".to_string()));
    ack_parts(create_todo(
        &mut s,
        "omar".to_string(),
        CreateTodo { title: "t".to_string(), description: "d".to_string() },
    ));
    let (ack, msg) = ack_parts(update_todo(
        &mut s,
        "omar".to_string(),
        1,
        UpdateTodo { title: None, description: None, completed: Some(true) },
    ));
    assert!(ack);
    assert_eq!(msg, "Updated todo 1 for user omar");
    assert_eq!(s.todos[0].title, "t");
    assert_eq!(s.todos[0].description, "d");
    assert!(s.todos[0].completed);
}

#[test]
fn update_todo_of_missing_id_reports_not_found() {
    let mut s = Store::new();
    created_parts(create_user(&mut s, "pam".to_string()));
    let (_, msg) = bad_request_parts(update_todo(
        &mut s,
        "pam".to_string(),
        12,
        UpdateTodo { title: Some("x".to_string()), description: None, completed: None },
    ));
    assert_eq!(msg, "Todo 12 not found for user pam");
}

#[test]
fn update_todo_replaces_only_supplied_fields() {
    let mut s = Store::new();
    created_parts(create_user(&mut s, "quin".to_string()));
    ack_parts(create_todo(
        &mut s,
        "quin".to_string(),
        CreateTodo { title: "old title".to_string(), description: "old desc".to_string() },
    ));
    ack_parts(update_todo(
        &mut s,
        "quin".to_string(),
        1,
        UpdateTodo { title: Some("new title".to_string()), description: None, completed: None },
    ));
    assert_eq!(s.todos[0].title, "new title");
    assert_eq!(s.todos[0].description, "old desc");
    assert!(!s.todos[0].completed);
}

#[test]
fn delete_todo_removes_exactly_that_row() {
    let mut s = Store::new();
    created_parts(create_user(&mut s, "rosa".to_string()));
    ack_parts(create_todo(
        &mut s,
        "rosa".to_string(),
        CreateTodo { title: "a".to_string(), description: String::new() },
    ));
    ack_parts(create_todo(
        &mut s,
        "rosa".to_string(),
        CreateTodo { title: "b".to_string(), description: String::new() },
    ));
    let (ack, msg) = ack_parts(delete_todo(&mut s, "rosa".to_string(), 1));
    assert!(ack);
    assert_eq!(msg, "Deleted todo 1 for user rosa");
    assert_eq!(s.todos.len(), 1);
    assert_eq!(s.todos[0].id, 2);
}

#[test]
fn delete_todo_of_missing_id_reports_not_found() {
    let mut s = Store::new();
    let (_, msg) = bad_request_parts(delete_todo(&mut s, "sam".to_string(), 5));
    assert_eq!(msg, "Todo 5 not found for user sam");
}

#[test]
fn delete_all_todos_with_none_reports_nothing_to_delete() {
    let mut s = Store::new();
    created_parts(create_user(&mut s, "tess".to_string()));
    let (_, msg) = bad_request_parts(delete_all_todos(&mut s, "tess".to_string()));
    assert_eq!(msg, "No todos found for user tess");
}

#[test]
fn delete_all_todos_removes_exactly_that_users_rows() {
    let mut s = Store::new();
    created_parts(create_user(&mut s, "uma".to_string()));
    created_parts(create_user(&mut s, "vic".to_string()));
    for t in ["a", "b", "c"] {
        ack_parts(create_todo(
            &mut s,
            "uma".to_string(),
            CreateTodo { title: t.to_string(), description: String::new() },
        ));
    }
    ack_parts(create_todo(
        &mut s,
        "vic".to_string(),
        CreateTodo { title: "keep".to_string(), description: String::new() },
    ));
    let (ack, msg) = ack_parts(delete_all_todos(&mut s, "uma".to_string()));
    assert!(ack);
    assert_eq!(msg, "Deleted all todos for user uma");
    assert_eq!(s.todos.len(), 1);
    assert_eq!(s.todos[0].username, "vic");
    let (count, _) = todos_parts(get_all_todos(&s, "uma".to_string()));
    assert_eq!(count, 0);
}

#[test]
fn delete_all_todos_for_missing_user_reports_not_found() {
    let mut s = Store::new();
    let (_, msg) = bad_request_parts(delete_all_todos(&mut s, "walt".to_string()));
    assert_eq!(msg, "User walt not found");
}

#[test]
fn deleting_a_user_leaves_their_todos_dangling() {
    let mut s = Store::new();
    created_parts(create_user(&mut s, "alice".to_string()));
    ack_parts(create_todo(
        &mut s,
        "alice".to_string(),
        CreateTodo { title: "Buy milk".to_string(), description: "2%".to_string() },
    ));
    ack_parts(delete_user(&mut s, "alice".to_string()));
    // No cascade: the row is still stored, referencing the gone username.
    assert_eq!(s.todos.len(), 1);
    assert_eq!(s.todos[0].username, "alice");
    // Listing now fails the existence gate rather than showing the row.
    let (_, msg) = bad_request_parts(get_all_todos(&s, "alice".to_string()));
    assert_eq!(msg, "User alice not found");
    // A recreated "alice" picks the dangling row straight back up.
    created_parts(create_user(&mut s, "alice".to_string()));
    let (count, todos) = todos_parts(get_all_todos(&s, "alice".to_string()));
    assert_eq!(count, 1);
    assert_eq!(todos[0].title, "Buy milk");
    assert!(!todos[0].completed);
}

#[test]
fn existence_oracle_tracks_creation_and_deletion() {
    let mut s = Store::new();
    assert!(!registered_user(&"zed".to_string(), &s));
    created_parts(create_user(&mut s, "zed".to_string()));
    assert!(registered_user(&"zed".to_string(), &s));
    ack_parts(delete_user(&mut s, "zed".to_string()));
    assert!(!registered_user(&"zed".to_string(), &s));
}
