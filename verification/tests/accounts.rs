use marketplace_api::jwt::ClockReading;
use marketplace_api::password::verify_password;
use marketplace_api::reply::{Body, Status};
use marketplace_api::users::{
    authenticate, issue_tokens, login_reply, logout_reply, registration_record,
    registration_reply, IssuedTokens, LoginInput, LogoutEvent, NewUser, User, UserInsertOutcome,
};

fn new_user(password: &str) -> NewUser {
    NewUser {
        name: "Ada".to_string(),
        email: "ada@example.com".to_string(),
        password: password.to_string(),
    }
}

#[test]
fn registration_stores_a_hash_not_the_password() {
    let data = new_user("s3cret!");
    let row = registration_record(&data).expect("hashing succeeds");
    assert_eq!(row.name, "Ada");
    assert_eq!(row.email, "ada@example.com");
    assert_ne!(row.password, "s3cret!");
    assert!(row.password.starts_with("$2b$12$"));
    assert!(verify_password("s3cret!", &row.password));
}

#[test]
fn registration_reply_inserted() {
    let r = registration_reply(UserInsertOutcome::Inserted(User {
        id: 11,
        name: "Ada".to_string(),
        email: "ada@example.com".to_string(),
        password: "$2b$12$hash".to_string(),
    }));
    assert_eq!(r.status, Status::Success);
    assert_eq!(r.status.code(), 200);
    match r.body {
        Body::Json(u) => {
            assert_eq!(u.id, 11);
            assert_eq!(u.name, "Ada");
            assert_eq!(u.email, "ada@example.com");
        }
        _ => panic!("expected a JSON body"),
    }
}

#[test]
fn registration_reply_email_taken() {
    let r = registration_reply(UserInsertOutcome::EmailTaken);
    assert_eq!(r.status.code(), 400);
    assert!(matches!(r.body, Body::Text(ref t) if t == "Email already exists"));
}

#[test]
fn registration_reply_other_error() {
    let r = registration_reply(UserInsertOutcome::Failed("connection reset".to_string()));
    assert_eq!(r.status, Status::InternalServerError);
    assert_eq!(r.status.code(), 500);
    assert!(matches!(r.body, Body::Text(ref t) if t == "connection reset"));
}

#[test]
fn register_then_login_with_same_password() {
    let row = registration_record(&new_user("pa55word")).unwrap();
    let stored = User { id: 5, name: row.name, email: row.email, password: row.password };
    let input = LoginInput { email: "ada@example.com".to_string(), password: "pa55word".to_string() };
    assert_eq!(authenticate(&input, Some(&stored)), Some(5));
}

#[test]
fn login_with_wrong_password_is_refused() {
    let row = registration_record(&new_user("pa55word")).unwrap();
    let stored = User { id: 5, name: row.name, email: row.email, password: row.password };
    let input = LoginInput { email: "ada@example.com".to_string(), password: "nope".to_string() };
    assert_eq!(authenticate(&input, Some(&stored)), None);
}

#[test]
fn login_for_unknown_email_is_refused() {
    let input = LoginInput { email: "who@example.com".to_string(), password: "x".to_string() };
    assert_eq!(authenticate(&input, None), None);
    let r = login_reply(None);
    assert_eq!(r.status.code(), 401);
    assert!(matches!(r.body, Body::Text(ref t) if t == "Invalid credentials"));
}

#[test]
fn login_with_corrupt_stored_hash_is_refused() {
    let stored = User {
        id: 1,
        name: "A".to_string(),
        email: "a@b".to_string(),
        password: "plain-text".to_string(),
    };
    let input = LoginInput { email: "a@b".to_string(), password: "plain-text".to_string() };
    assert_eq!(authenticate(&input, Some(&stored)), None);
}

#[test]
fn issued_tokens_belong_to_the_user() {
    let t = issue_tokens(8).expect("clock in range");
    assert_eq!(t.user_id, 8);
    assert_eq!(t.access_token.split('.').count(), 3);
    assert_eq!(t.refresh_token.split('.').count(), 3);
    let now = chrono::Utc::now().timestamp();
    assert!(t.refresh_expires_at.secs > now + 604000 && t.refresh_expires_at.secs <= now + 604800);
    assert!(t.refresh_expires_at.nanos < 1_000_000_000);
}

#[test]
fn login_reply_carries_both_tokens() {
    let issued = IssuedTokens {
        user_id: 1,
        access_token: "a.b.c".to_string(),
        refresh_token: "d.e.f".to_string(),
        refresh_expires_at: ClockReading { secs: 10, nanos: 0 },
    };
    let r = login_reply(Some(&issued));
    assert_eq!(r.status, Status::Success);
    match r.body {
        Body::Json(p) => {
            assert_eq!(p.access_token, "a.b.c");
            assert_eq!(p.refresh_token, "d.e.f");
        }
        _ => panic!("expected a JSON body"),
    }
}

#[test]
fn logout_replies() {
    let r = logout_reply(LogoutEvent::NoConnection);
    assert_eq!(r.status.code(), 500);
    assert!(matches!(r.body, Body::Text(ref t) if t == "DB error"));
    let r = logout_reply(LogoutEvent::Deleted(1));
    assert_eq!(r.status.code(), 200);
    assert!(matches!(r.body, Body::Json(ref m) if m.message == "Logged out successfully"));
    let r = logout_reply(LogoutEvent::Deleted(0));
    assert_eq!(r.status.code(), 200);
    let r = logout_reply(LogoutEvent::DeleteFailed);
    assert_eq!(r.status.code(), 500);
    assert!(matches!(r.body, Body::Text(ref t) if t == "Logout failed"));
}
