//! The texts of the messages that name an id or quote a diagnostic.

use vstd::prelude::*;

verus! {

/// The character of one decimal digit.
pub open spec fn digit(d: nat) -> char {
    if d == 0 {
        '0'
    } else if d == 1 {
        '1'
    } else if d == 2 {
        '2'
    } else if d == 3 {
        '3'
    } else if d == 4 {
        '4'
    } else if d == 5 {
        '5'
    } else if d == 6 {
        '6'
    } else if d == 7 {
        '7'
    } else if d == 8 {
        '8'
    } else {
        '9'
    }
}

/// A number in decimal digits, without sign and without leading zeros.
pub open spec fn decimal(n: nat) -> Seq<char>
    decreases n,
{
    if n < 10 {
        seq![digit(n)]
    } else {
        decimal(n / 10).push(digit(n % 10))
    }
}

/// `"Todo not found for user_id U with todoid T"`.
pub open spec fn todo_not_found_text(user_id: nat, todoid: nat) -> Seq<char> {
    "Todo not found for user_id "@ + decimal(user_id) + " with todoid "@ + decimal(todoid)
}

/// `"Todo with id T deleted successfully for user U"`.
pub open spec fn todo_deleted_text(user_id: nat, todoid: nat) -> Seq<char> {
    "Todo with id "@ + decimal(todoid) + " deleted successfully for user "@ + decimal(user_id)
}

/// `"Todo with id T not found for user U"`.
pub open spec fn todo_missing_text(user_id: nat, todoid: nat) -> Seq<char> {
    "Todo with id "@ + decimal(todoid) + " not found for user "@ + decimal(user_id)
}

fn digit_text(d: u64) -> (text: &'static str)
    requires
        d < 10,
    ensures
        text@ == seq![digit(d as nat)],
{
    proof {
        reveal_strlit("0");
        reveal_strlit("1");
        reveal_strlit("2");
        reveal_strlit("3");
        reveal_strlit("4");
        reveal_strlit("5");
        reveal_strlit("6");
        reveal_strlit("7");
        reveal_strlit("8");
        reveal_strlit("9");
    }
    let text = if d == 0 {
        "0"
    } else if d == 1 {
        "1"
    } else if d == 2 {
        "2"
    } else if d == 3 {
        "3"
    } else if d == 4 {
        "4"
    } else if d == 5 {
        "5"
    } else if d == 6 {
        "6"
    } else if d == 7 {
        "7"
    } else if d == 8 {
        "8"
    } else {
        "9"
    };
    assert(text@ =~= seq![digit(d as nat)]);
    text
}

/// Writes `n` in decimal digits at the end of `text`.
pub fn append_decimal(text: &mut String, n: u64)
    ensures
        final(text)@ == old(text)@ + decimal(n as nat),
    decreases n,
{
    if n >= 10 {
        append_decimal(text, n / 10);
    }
    text.append(digit_text(n % 10));
    assert(text@ =~= old(text)@ + decimal(n as nat));
}

/// The message for a todo that a delete did not find under its user.
pub fn todo_not_found_message(user_id: u64, todoid: u64) -> (text: String)
    ensures
        text@ == todo_not_found_text(user_id as nat, todoid as nat),
{
    let mut text = String::from_str("Todo not found for user_id ");
    append_decimal(&mut text, user_id);
    text.append(" with todoid ");
    append_decimal(&mut text, todoid);
    text
}

/// The message for a todo that was deleted.
pub fn todo_deleted_message(user_id: u64, todoid: u64) -> (text: String)
    ensures
        text@ == todo_deleted_text(user_id as nat, todoid as nat),
{
    let mut text = String::from_str("Todo with id ");
    append_decimal(&mut text, todoid);
    text.append(" deleted successfully for user ");
    append_decimal(&mut text, user_id);
    text
}

/// The message for a todo that an update did not find under its user.
pub fn todo_missing_message(user_id: u64, todoid: u64) -> (text: String)
    ensures
        text@ == todo_missing_text(user_id as nat, todoid as nat),
{
    let mut text = String::from_str("Todo with id ");
    append_decimal(&mut text, todoid);
    text.append(" not found for user ");
    append_decimal(&mut text, user_id);
    text
}

/// `prefix` followed by `detail`.
pub fn prefixed(prefix: &str, detail: &String) -> (text: String)
    ensures
        text@ == prefix@ + detail@,
{
    let mut text = String::from_str(prefix);
    text.append(detail.as_str());
    text
}

} // verus!
