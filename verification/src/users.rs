//! The account endpoints: registration, login and logout.
use vstd::prelude::*;
use crate::jwt::{
    access_claims, access_token_issued, access_token_issued_at, current_time, is_clock_reading,
    refresh_claims, refresh_expiry, refresh_token_issued, refresh_token_issued_at, signed_token,
    Claims, ClockReading, ACCESS_TOKEN_TTL_SECS, MAX_TIMESTAMP, REFRESH_TOKEN_TTL_SECS,
};
use crate::password::{
    hashpassword, is_bcrypt_hash_of, password_accepted, verify_password, PasswordError,
};
use crate::reply::{is_json_reply, is_text_reply, json_reply, text_reply, Body, Reply, Status};

verus! {

/// A registration request, and the row written for it.
pub struct NewUser {
    pub name: String,
    pub email: String,
    pub password: String,
}

/// The stored account fields that the endpoints read.
pub struct User {
    pub id: i32,
    pub name: String,
    pub email: String,
    /// The bcrypt hash of the password.
    pub password: String,
}

/// What registration answers with: the account without its password.
pub struct UserResponse {
    pub id: i32,
    pub name: String,
    pub email: String,
}

/// A login request.
pub struct LoginInput {
    pub email: String,
    pub password: String,
}

/// A logout request: the refresh token to revoke.
pub struct LogoutInput {
    pub refresh_token: String,
}

/// The row to write for a registration, given how hashing its password went:
/// for every name and email, the same name and email with the hash in place
/// of the password when hashing succeeded, and the hashing error otherwise.
pub fn registration_record_with(data: &NewUser, hashed: Result<String, PasswordError>) -> (r:
    Result<NewUser, PasswordError>)
    ensures
        match hashed {
            Ok(h) => r matches Ok(u) && u.name@ == data.name@ && u.email@ == data.email@
                && u.password@ == h@,
            Err(e) => r == Err::<NewUser, PasswordError>(e),
        },
{
    match hashed {
        Ok(password) => Ok(NewUser { name: data.name.clone(), email: data.email.clone(), password }),
        Err(e) => Err(e),
    }
}

/// The row to write for a registration: the same name and email, and in
/// place of the password a bcrypt hash of it. It is what
/// `registration_record_with` gives for the outcome of `hashpassword` on the
/// password, so it fails only where hashing fails.
pub fn registration_record(data: &NewUser) -> (r: Result<NewUser, PasswordError>)
    ensures
        r matches Ok(u) ==> {
            &&& u.name@ == data.name@
            &&& u.email@ == data.email@
            &&& is_bcrypt_hash_of(data.password@, u.password@)
        },
        r matches Err(e) ==> e == PasswordError::HashingFailed,
{
    let hashed = hashpassword(data.password.as_str());
    registration_record_with(data, hashed)
}

/// How writing a new account ended.
pub enum UserInsertOutcome {
    /// The account was written.
    Inserted(User),
    /// The email is taken (the database reported a unique violation).
    EmailTaken,
    /// Any other database error, with its text.
    Failed(String),
}

/// The answer to a registration, given how the write ended.
pub fn registration_reply(outcome: UserInsertOutcome) -> (r: Reply<UserResponse>)
    ensures
        match outcome {
            UserInsertOutcome::Inserted(u) => {
                &&& is_json_reply(r)
                &&& r.body->Json_0.id == u.id
                &&& r.body->Json_0.name@ == u.name@
                &&& r.body->Json_0.email@ == u.email@
            },
            UserInsertOutcome::EmailTaken => is_text_reply(
                r,
                Status::BadRequest,
                "Email already exists"@,
            ),
            UserInsertOutcome::Failed(e) => is_text_reply(r, Status::InternalServerError, e@),
        },
{
    match outcome {
        UserInsertOutcome::Inserted(u) => json_reply(
            UserResponse { id: u.id, name: u.name, email: u.email },
        ),
        UserInsertOutcome::EmailTaken => text_reply(Status::BadRequest, "Email already exists"),
        UserInsertOutcome::Failed(e) => Reply { status: Status::InternalServerError, body: Body::Text(e) },
    }
}

/// The account that a login request opens, if any: the one found for the
/// email, when the password is accepted against its stored hash.
pub open spec fn login_account(input: LoginInput, found: Option<User>) -> Option<i32> {
    match found {
        Some(u) => if password_accepted(input.password@, u.password@) {
            Some(u.id)
        } else {
            None
        },
        None => None,
    }
}

/// Checks a login request against the account found for its email.
pub fn authenticate(input: &LoginInput, found: Option<&User>) -> (r: Option<i32>)
    ensures
        r == login_account(*input, match found {
            Some(u) => Some(*u),
            None => None,
        }),
{
    match found {
        Some(u) => if verify_password(input.password.as_str(), u.password.as_str()) {
            Some(u.id)
        } else {
            None
        },
        None => None,
    }
}

/// The tokens handed out at login, and the refresh token row to store.
pub struct IssuedTokens {
    pub user_id: i32,
    pub access_token: String,
    pub refresh_token: String,
    /// When the refresh token expires.
    pub refresh_expires_at: ClockReading,
}

/// The access token, refresh token and refresh expiry of `user_id`, the
/// access token issued at `access_time` and the refresh token at
/// `refresh_time`: both are issued exactly when each expiry can be
/// represented.
pub open spec fn tokens_issued(user_id: i32, access_time: i64, refresh_time: ClockReading) -> Option<
    (Seq<char>, Seq<char>, ClockReading),
> {
    match (access_token_issued(user_id, access_time), refresh_token_issued(user_id, refresh_time)) {
        (Some(a), Some((t, e))) => Some((a, t, e)),
        _ => None,
    }
}

/// The texts and expiry of optionally issued tokens.
pub open spec fn issued_view(r: Option<IssuedTokens>) -> Option<(Seq<char>, Seq<char>, ClockReading)> {
    match r {
        Some(t) => Some((t.access_token@, t.refresh_token@, t.refresh_expires_at)),
        None => None,
    }
}

/// Issues the access and refresh tokens of `user_id` at the current time:
/// both at one clock reading taken at login, so the access token expires 15
/// minutes and the refresh token 7 days after that reading; both tokens
/// whenever the reading is far enough from chrono's last representable
/// second; `None` where the clock cannot be read as a chrono date-time.
pub fn issue_tokens(user_id: i32) -> (r: Option<IssuedTokens>)
    ensures
        r is None || exists|access_time: ClockReading, refresh_time: ClockReading|
            #![trigger tokens_issued(user_id, access_time.secs, refresh_time)]
            is_clock_reading(access_time) && is_clock_reading(refresh_time) && issued_view(r)
                == tokens_issued(user_id, access_time.secs, refresh_time),
        r is None || exists|now: ClockReading|
            #![trigger tokens_issued(user_id, now.secs, now)]
            is_clock_reading(now) && issued_view(r) == tokens_issued(user_id, now.secs, now),
        r matches Some(t) ==> exists|now: ClockReading|
            #![trigger signed_token(Claims { sub: user_id, exp: (now.secs + 900) as usize })]
            {
                &&& is_clock_reading(now)
                &&& t.access_token@ == signed_token(
                    Claims { sub: user_id, exp: (now.secs + 900) as usize },
                )
                &&& t.refresh_token@ == signed_token(
                    Claims { sub: user_id, exp: (now.secs + 604800) as usize },
                )
                &&& t.refresh_expires_at == ClockReading { secs: (now.secs + 604800) as i64, nanos: now.nanos }
            },
        r matches Some(t) ==> t.user_id == user_id,
{
    let now = current_time()?;
    let access = access_token_issued_at(user_id, now.secs);
    let refresh = refresh_token_issued_at(user_id, now);
    match (access, refresh) {
        (Some(access_token), Some((refresh_token, refresh_expires_at))) => {
            let t = IssuedTokens { user_id, access_token, refresh_token, refresh_expires_at };
            assert(issued_view(Some(t)) == tokens_issued(user_id, now.secs, now));
            assert(t.access_token@ == signed_token(
                Claims { sub: user_id, exp: (now.secs + 900) as usize },
            ));
            Some(t)
        },
        _ => None,
    }
}

/// Both tokens handed out at one login are issued at the same moment: the
/// access token names the user and expires 15 minutes after the reading, the
/// refresh token names the user and expires 7 days after it, and the recorded
/// refresh expiry is that same moment, to the nanosecond.
pub proof fn lemma_login_tokens_share_issue_time(user_id: i32, now: ClockReading)
    requires
        is_clock_reading(now),
        tokens_issued(user_id, now.secs, now) is Some,
    ensures
        tokens_issued(user_id, now.secs, now).unwrap().0 == signed_token(
            Claims { sub: user_id, exp: (now.secs + 900) as usize },
        ),
        tokens_issued(user_id, now.secs, now).unwrap().1 == signed_token(
            Claims { sub: user_id, exp: (now.secs + 604800) as usize },
        ),
        tokens_issued(user_id, now.secs, now).unwrap().2 == (ClockReading {
            secs: (now.secs + 604800) as i64,
            nanos: now.nanos,
        }),
{
}

/// The body of a successful login.
pub struct TokenPair {
    pub access_token: String,
    pub refresh_token: String,
}

/// The answer to a login: the two tokens, or 401 `Invalid credentials`.
pub fn login_reply(issued: Option<&IssuedTokens>) -> (r: Reply<TokenPair>)
    ensures
        match issued {
            Some(t) => {
                &&& is_json_reply(r)
                &&& r.body->Json_0.access_token@ == t.access_token@
                &&& r.body->Json_0.refresh_token@ == t.refresh_token@
            },
            None => is_text_reply(r, Status::Unauthorized, "Invalid credentials"@),
        },
{
    match issued {
        Some(t) => json_reply(
            TokenPair { access_token: t.access_token.clone(), refresh_token: t.refresh_token.clone() },
        ),
        None => text_reply(Status::Unauthorized, "Invalid credentials"),
    }
}

/// How revoking a refresh token went.
pub enum LogoutEvent {
    /// No database connection could be had.
    NoConnection,
    /// The matching rows were deleted (possibly none).
    Deleted(usize),
    /// The delete failed.
    DeleteFailed,
}

/// The JSON body `{"message": ...}`.
pub struct MessageBody {
    pub message: String,
}

/// The answer to a logout.
pub fn logout_reply(event: LogoutEvent) -> (r: Reply<MessageBody>)
    ensures
        match event {
            LogoutEvent::NoConnection => is_text_reply(r, Status::InternalServerError, "DB error"@),
            LogoutEvent::Deleted(_) => is_json_reply(r) && r.body->Json_0.message@
                == "Logged out successfully"@,
            LogoutEvent::DeleteFailed => is_text_reply(
                r,
                Status::InternalServerError,
                "Logout failed"@,
            ),
        },
{
    match event {
        LogoutEvent::NoConnection => text_reply(Status::InternalServerError, "DB error"),
        LogoutEvent::Deleted(_) => json_reply(
            MessageBody { message: String::from_str("Logged out successfully") },
        ),
        LogoutEvent::DeleteFailed => text_reply(Status::InternalServerError, "Logout failed"),
    }
}

/// Whoever registers can then log in with the same password: the row written
/// at registration, once stored, opens the account for that password.
pub proof fn lemma_registered_password_logs_in(
    registration: NewUser,
    stored: NewUser,
    account: User,
    input: LoginInput,
)
    requires
        is_bcrypt_hash_of(registration.password@, stored.password@),
        account.password@ == stored.password@,
        input.password@ == registration.password@,
    ensures
        login_account(input, Some(account)) == Some(account.id),
{
}

/// Whoever registers and then logs in with the same password receives, at
/// any clock readings far enough from chrono's last representable second, an
/// access token and a refresh token that name the account, issued at those
/// readings, with the refresh token's expiry.
pub proof fn lemma_registered_user_receives_tokens(
    registration: NewUser,
    stored: NewUser,
    account: User,
    input: LoginInput,
    access_time: ClockReading,
    refresh_time: ClockReading,
)
    requires
        is_bcrypt_hash_of(registration.password@, stored.password@),
        account.password@ == stored.password@,
        input.password@ == registration.password@,
        is_clock_reading(access_time),
        is_clock_reading(refresh_time),
        access_time.secs + ACCESS_TOKEN_TTL_SECS <= MAX_TIMESTAMP,
        refresh_time.secs + REFRESH_TOKEN_TTL_SECS <= MAX_TIMESTAMP,
    ensures
        login_account(input, Some(account)) == Some(account.id),
        tokens_issued(account.id, access_time.secs, refresh_time) == Some(
            (
                signed_token(access_claims(account.id, access_time.secs)),
                signed_token(refresh_claims(account.id, refresh_time.secs)),
                refresh_expiry(refresh_time),
            ),
        ),
{
}

} // verus!
