use api::guard::{guard_connection, GuardFailure};
use api::render::{add_user_response, get_users_response, remove_user_response};
use api::repo::{authorize_delete, UserTable};
use api::user::{AlreadyExists, DeleteError, User};

fn emails_of(users: &[User]) -> Vec<String> {
    let mut v: Vec<String> = users.iter().map(|u| u.email.clone()).collect();
    v.sort();
    v
}

#[test]
fn create_fresh_email_succeeds_with_token() {
    let mut t = UserTable::new();
    let u = t.create_user("a@x.com", "tok1").unwrap();
    assert_eq!(u.email, "a@x.com");
    assert_eq!(u.token, "tok1");
    let body = add_user_response("a@x.com", &Ok(u));
    assert_eq!(body, "Added user [email: a@x.com, token: tok1]");
}

#[test]
fn create_same_email_twice_fails() {
    let mut t = UserTable::new();
    assert!(t.create_user("a@x.com", "tok1").is_ok());
    let second = t.create_user("a@x.com", "tok2");
    assert_eq!(second.as_ref().err(), Some(&AlreadyExists));
    let body = add_user_response("a@x.com", &second);
    assert_eq!(body, "Error: cannot add 'a@x.com', already created");
    let users = t.get_all_users();
    assert_eq!(users.len(), 1);
    assert_eq!(users[0].token, "tok1");
}

#[test]
fn delete_with_matching_token_removes_row_and_frees_email() {
    let mut t = UserTable::new();
    t.create_user("a@x.com", "tok1").unwrap();
    t.create_user("b@x.com", "tok2").unwrap();
    let r = t.delete_user("a@x.com", "tok1");
    assert_eq!(r, Ok(1));
    assert_eq!(remove_user_response(&r), "Bye");
    assert_eq!(emails_of(&t.get_all_users()), vec!["b@x.com".to_string()]);
    let again = t.create_user("a@x.com", "tok3").unwrap();
    assert_eq!(again.token, "tok3");
}

#[test]
fn delete_missing_email_is_not_found() {
    let mut t = UserTable::new();
    t.create_user("a@x.com", "tok1").unwrap();
    let r = t.delete_user("z@x.com", "tok1");
    assert_eq!(r, Err(DeleteError::NotFound));
    assert_eq!(remove_user_response(&r), "Not found");
    assert_eq!(t.get_all_users().len(), 1);
}

#[test]
fn delete_with_wrong_token_is_forbidden_and_keeps_row() {
    let mut t = UserTable::new();
    t.create_user("a@x.com", "tok1").unwrap();
    let r = t.delete_user("a@x.com", "wrong");
    assert_eq!(r, Err(DeleteError::Forbidden));
    assert_eq!(remove_user_response(&r), "Forbidden");
    let users = t.get_all_users();
    assert_eq!(users.len(), 1);
    assert_eq!(users[0].email, "a@x.com");
    assert_eq!(users[0].token, "tok1");
}

#[test]
fn listing_two_users_gives_each_email_on_its_own_line() {
    let mut t = UserTable::new();
    t.create_user("a@x.com", "ta").unwrap();
    t.create_user("b@x.com", "tb").unwrap();
    let users = t.get_all_users();
    assert_eq!(emails_of(&users), vec!["a@x.com".to_string(), "b@x.com".to_string()]);
    let body = get_users_response(&Ok(users));
    let mut lines: Vec<&str> = body.split_terminator('\n').collect();
    lines.sort();
    assert_eq!(lines, vec!["a@x.com", "b@x.com"]);
    assert!(body.ends_with('\n'));
    assert_eq!(body.len(), "a@x.com\nb@x.com\n".len());
}

#[test]
fn listing_in_given_order() {
    let users = vec![
        User { email: "b@x.com".to_string(), token: "1".to_string() },
        User { email: "a@x.com".to_string(), token: "2".to_string() },
    ];
    assert_eq!(get_users_response(&Ok(users)), "b@x.com\na@x.com\n");
}

#[test]
fn listing_no_users_gives_empty_body() {
    let t = UserTable::new();
    let users = t.get_all_users();
    assert!(users.is_empty());
    assert_eq!(get_users_response(&Ok(users)), "");
}

#[test]
fn listing_failure_reports_details() {
    let r: Result<Vec<User>, String> = Err("connection lost".to_string());
    assert_eq!(get_users_response(&r), "error connection lost");
}

#[test]
fn distinct_creates_all_succeed_in_either_order() {
    let mut t1 = UserTable::new();
    let mut t2 = UserTable::new();
    let emails = ["a@x.com", "b@x.com", "c@x.com"];
    for e in emails.iter() {
        assert!(t1.create_user(e, "t").is_ok());
    }
    for e in emails.iter().rev() {
        assert!(t2.create_user(e, "t").is_ok());
    }
    assert_eq!(emails_of(&t1.get_all_users()), emails_of(&t2.get_all_users()));
    assert_eq!(t1.get_all_users().len(), 3);
}

#[test]
fn remove_response_texts() {
    assert_eq!(remove_user_response(&Ok(0)), "Not removed");
    assert_eq!(remove_user_response(&Ok(1)), "Bye");
    assert_eq!(remove_user_response(&Err(DeleteError::Query("db down".to_string()))), "db down");
}

#[test]
fn authorize_delete_decisions() {
    assert_eq!(authorize_delete(None, "t"), Err(DeleteError::NotFound));
    assert_eq!(authorize_delete(Some("t"), "t"), Ok(()));
    assert_eq!(authorize_delete(Some("t"), "u"), Err(DeleteError::Forbidden));
    assert_eq!(authorize_delete(Some(""), ""), Ok(()));
}

#[test]
fn guard_without_pool_is_internal_error() {
    let r = guard_connection::<u32, ()>(None);
    assert_eq!(r, Err(GuardFailure::InternalServerError));
    assert_eq!(GuardFailure::InternalServerError.status_code(), 500);
}

#[test]
fn guard_with_exhausted_pool_is_unavailable() {
    let r = guard_connection::<u32, &str>(Some(Err("timed out")));
    assert_eq!(r, Err(GuardFailure::ServiceUnavailable));
    assert_eq!(GuardFailure::ServiceUnavailable.status_code(), 503);
}

#[test]
fn guard_hands_on_the_connection() {
    assert_eq!(guard_connection::<u32, ()>(Some(Ok(7))), Ok(7));
}
