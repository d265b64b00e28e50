use todo_service::response::{Failure, Payload, Reply, Status};
use todo_service::text::{
    append_decimal, prefixed, todo_deleted_message, todo_missing_message, todo_not_found_message,
};

fn decimal(n: u64) -> String {
    let mut text = String::new();
    append_decimal(&mut text, n);
    text
}

#[test]
fn decimal_of_zero_is_one_digit() {
    assert_eq!(decimal(0), "0");
}

#[test]
fn decimal_of_single_digits() {
    assert_eq!(decimal(1), "1");
    assert_eq!(decimal(5), "5");
    assert_eq!(decimal(9), "9");
}

#[test]
fn decimal_keeps_inner_and_trailing_zeros() {
    assert_eq!(decimal(10), "10");
    assert_eq!(decimal(1002003000), "1002003000");
}

#[test]
fn decimal_of_the_largest_number() {
    assert_eq!(decimal(u64::MAX), "18446744073709551615");
}

#[test]
fn decimal_agrees_with_the_standard_rendering() {
    let mut n: u64 = 1;
    for _ in 0..40 {
        assert_eq!(decimal(n), n.to_string());
        assert_eq!(decimal(n - 1), (n - 1).to_string());
        n = n.wrapping_mul(37).wrapping_add(11) % 1_000_000_007;
        if n == 0 {
            n = 1;
        }
    }
}

#[test]
fn decimal_is_appended_after_what_is_there() {
    let mut text = String::from("id=");
    append_decimal(&mut text, 42);
    assert_eq!(text, "id=42");
}

#[test]
fn message_for_a_todo_not_found_on_delete() {
    assert_eq!(todo_not_found_message(3, 7), "Todo not found for user_id 3 with todoid 7");
    assert_eq!(todo_not_found_message(0, 0), "Todo not found for user_id 0 with todoid 0");
}

#[test]
fn message_for_a_deleted_todo() {
    assert_eq!(todo_deleted_message(12, 345), "Todo with id 345 deleted successfully for user 12");
}

#[test]
fn message_for_a_todo_not_found_on_update() {
    assert_eq!(todo_missing_message(12, 345), "Todo with id 345 not found for user 12");
}

#[test]
fn prefixed_puts_the_prefix_first() {
    assert_eq!(prefixed("DB error: ", &String::from("PoolTimedOut")), "DB error: PoolTimedOut");
    assert_eq!(prefixed("", &String::from("x")), "x");
    assert_eq!(prefixed("Update error: ", &String::new()), "Update error: ");
}

#[test]
fn status_labels() {
    assert_eq!(Status::Okay.label(), "ok");
    assert_eq!(Status::Success.label(), "success");
    assert_eq!(Status::Fail.label(), "fail");
    assert_eq!(Status::Error.label(), "error");
}

#[test]
fn success_reply_has_code_200() {
    let reply = Reply::success(Some(String::from("done")), Payload::UserId(4));
    assert_eq!(
        reply,
        Reply {
            code: 200,
            status: Some(Status::Success),
            message: Some(String::from("done")),
            data: Payload::UserId(4),
        }
    );
    assert_eq!(reply.failure(), None);
}

#[test]
fn fail_reply_keeps_its_code() {
    let reply = Reply::fail(404, String::from("User not found"));
    assert_eq!(
        reply,
        Reply {
            code: 404,
            status: Some(Status::Fail),
            message: Some(String::from("User not found")),
            data: Payload::Nothing,
        }
    );
    assert_eq!(reply.failure(), Some(Failure::NotFound));
    assert_eq!(Reply::fail(400, String::from("empty")).failure(), Some(Failure::InvalidInput));
}

#[test]
fn error_reply_has_code_500() {
    let reply = Reply::error(String::from("DB error: down"));
    assert_eq!(
        reply,
        Reply {
            code: 500,
            status: Some(Status::Error),
            message: Some(String::from("DB error: down")),
            data: Payload::Nothing,
        }
    );
    assert_eq!(reply.failure(), Some(Failure::StorageError));
}

#[test]
fn bare_reply_has_no_status() {
    let reply = Reply::bare(404, String::from("User not found"));
    assert_eq!(
        reply,
        Reply {
            code: 404,
            status: None,
            message: Some(String::from("User not found")),
            data: Payload::Nothing,
        }
    );
    assert_eq!(reply.failure(), Some(Failure::NotFound));
}

#[test]
fn other_codes_are_no_failure() {
    let reply = Reply { code: 201, status: None, message: None, data: Payload::Nothing };
    assert_eq!(reply.failure(), None);
}
