//! The human-readable texts the response shaper puts in its envelopes, each
//! stated as a spec function over character sequences and built by a small
//! executable function proved against it.

use vstd::prelude::*;
use vstd::string::StringExecFns;

verus! {

/// The decimal digit character sequence for a single digit `d`.
pub open spec fn dec_digit(d: int) -> Seq<char>
    recommends
        0 <= d <= 9,
{
    if d == 0 {
        "0"@
    } else if d == 1 {
        "1"@
    } else if d == 2 {
        "2"@
    } else if d == 3 {
        "3"@
    } else if d == 4 {
        "4"@
    } else if d == 5 {
        "5"@
    } else if d == 6 {
        "6"@
    } else if d == 7 {
        "7"@
    } else if d == 8 {
        "8"@
    } else {
        "9"@
    }
}

/// The decimal numeral for a nonnegative `n`, most significant digit first.
pub open spec fn decimal(n: int) -> Seq<char>
    recommends
        n >= 0,
    decreases n,
{
    if n <= 9 {
        dec_digit(n)
    } else {
        decimal(n / 10) + dec_digit(n % 10)
    }
}

/// The decimal rendering of a possibly negative integer.
pub open spec fn int_text(n: int) -> Seq<char> {
    if n < 0 {
        "-"@ + decimal(-n)
    } else {
        decimal(n)
    }
}

fn digit_str(d: u64) -> (r: &'static str)
    requires
        d <= 9,
    ensures
        r@ == dec_digit(d as int),
{
    if d == 0 {
        "0"
    } else if d == 1 {
        "1"
    } else if d == 2 {
        "2"
    } else if d == 3 {
        "3"
    } else if d == 4 {
        "4"
    } else if d == 5 {
        "5"
    } else if d == 6 {
        "6"
    } else if d == 7 {
        "7"
    } else if d == 8 {
        "8"
    } else {
        "9"
    }
}

/// The decimal numeral of `n` as an owned string.
pub fn decimal_string(n: u64) -> (r: String)
    ensures
        r@ == decimal(n as int),
    decreases n,
{
    if n <= 9 {
        digit_str(n).to_owned()
    } else {
        let mut s = decimal_string(n / 10);
        s.append(digit_str(n % 10));
        s
    }
}

/// The decimal rendering of an `i32`, sign included.
pub fn int_string(n: i32) -> (r: String)
    ensures
        r@ == int_text(n as int),
{
    if n >= 0 {
        decimal_string(n as u64)
    } else {
        let wide: i64 = n as i64;
        let mut s = "-".to_owned();
        s.append(decimal_string((-wide) as u64).as_str());
        s
    }
}

pub open spec fn user_not_found_msg(u: Seq<char>) -> Seq<char> {
    "User "@ + u + " not found"@
}

pub open spec fn user_exists_msg(u: Seq<char>) -> Seq<char> {
    "User "@ + u + " already exists"@
}

pub open spec fn user_created_msg(u: Seq<char>) -> Seq<char> {
    "User "@ + u + " created"@
}

pub open spec fn user_updated_msg(ou: Seq<char>, nu: Seq<char>) -> Seq<char> {
    "User "@ + ou + " updated to "@ + nu
}

pub open spec fn user_deleted_msg(u: Seq<char>) -> Seq<char> {
    "User "@ + u + " deleted"@
}

pub open spec fn user_missing_msg(u: Seq<char>) -> Seq<char> {
    "User "@ + u + " does not exist"@
}

pub open spec fn no_users_msg() -> Seq<char> {
    "No users to deleted"@
}

/// The bulk user delete reports how many rows it removed.
pub open spec fn users_deleted_msg(n: int) -> Seq<char> {
    "Deleted "@ + decimal(n) + " users"@
}

pub open spec fn todo_created_msg(u: Seq<char>) -> Seq<char> {
    "Created todo for user "@ + u
}

pub open spec fn no_todos_msg(u: Seq<char>) -> Seq<char> {
    "No todos found for user "@ + u
}

pub open spec fn todos_cleared_msg(u: Seq<char>) -> Seq<char> {
    "Deleted all todos for user "@ + u
}

pub open spec fn todo_not_found_msg(id: int, u: Seq<char>) -> Seq<char> {
    "Todo "@ + int_text(id) + " not found for user "@ + u
}

pub open spec fn todo_deleted_msg(id: int, u: Seq<char>) -> Seq<char> {
    "Deleted todo "@ + int_text(id) + " for user "@ + u
}

pub open spec fn todo_updated_msg(id: int, u: Seq<char>) -> Seq<char> {
    "Updated todo "@ + int_text(id) + " for user "@ + u
}

pub open spec fn no_fields_msg() -> Seq<char> {
    "No fields to update"@
}

/// "<prefix><name><suffix>", the shape of most user-facing texts.
pub fn wrap_name(prefix: &str, name: &String, suffix: &str) -> (r: String)
    ensures
        r@ == prefix@ + name@ + suffix@,
{
    let mut s = prefix.to_owned();
    s.append(name.as_str());
    s.append(suffix);
    s
}

/// "<prefix><count><suffix>", the shape of the texts that report a count.
pub fn wrap_count(prefix: &str, n: u64, suffix: &str) -> (r: String)
    ensures
        r@ == prefix@ + decimal(n as int) + suffix@,
{
    let mut s = prefix.to_owned();
    s.append(decimal_string(n).as_str());
    s.append(suffix);
    s
}

/// "<prefix><name>", the shape of the texts that end with the username.
pub fn prefix_name(prefix: &str, name: &String) -> (r: String)
    ensures
        r@ == prefix@ + name@,
{
    let mut s = prefix.to_owned();
    s.append(name.as_str());
    s
}

/// "<prefix><id><infix><name>", the shape of the todo-by-id texts.
pub fn wrap_id_name(prefix: &str, id: i32, infix: &str, name: &String) -> (r: String)
    ensures
        r@ == prefix@ + int_text(id as int) + infix@ + name@,
{
    let mut s = prefix.to_owned();
    s.append(int_string(id).as_str());
    s.append(infix);
    s.append(name.as_str());
    s
}

} // verus!
