//! Signed session tokens (JWT, HS256) for the API: the claims they carry,
//! their lifetimes, and how they are issued.
use vstd::prelude::*;
use crate::decimal::{int_decimal, nat_decimal, push_int_decimal, push_nat_decimal};

verus! {

/// The claims of a session token: the user it was issued to and when it
/// expires (seconds since the Unix epoch).
#[derive(Debug, Clone, Copy, PartialEq, Eq, Structural)]
pub struct Claims {
    pub sub: i32,
    pub exp: usize,
}

/// Lifetime of an access token: 15 minutes.
pub const ACCESS_TOKEN_TTL_SECS: i64 = 900;

/// Lifetime of a refresh token: 7 days.
pub const REFRESH_TOKEN_TTL_SECS: i64 = 604800;

/// The first second that a chrono date-time can hold (-262143-01-01T00:00:00Z).
pub const MIN_TIMESTAMP: i64 = -8334601228800;

/// The last second that a chrono date-time can hold (+262142-12-31T23:59:59Z);
/// no expiry can lie beyond it.
pub const MAX_TIMESTAMP: i64 = 8210266876799;

/// The key that signs and checks tokens: the bytes of `secret_key`.
pub open spec fn secret_bytes() -> Seq<u8> {
    seq![115u8, 101u8, 99u8, 114u8, 101u8, 116u8, 95u8, 107u8, 101u8, 121u8]
}

/// The signing key, for the code that checks tokens.
pub fn secret_key() -> (s: Vec<u8>)
    ensures
        s@ == secret_bytes(),
{
    vec![115u8, 101u8, 99u8, 114u8, 101u8, 116u8, 95u8, 107u8, 101u8, 121u8]
}

/// The JSON text `{"sub":<sub>,"exp":<exp>}`, in the field order and number
/// format in which claims are written into a token.
pub open spec fn claims_json_text(sub: int, exp: nat) -> Seq<char> {
    seq!['{', '"', 's', 'u', 'b', '"', ':'] + int_decimal(sub) + seq![
        ',',
        '"',
        'e',
        'x',
        'p',
        '"',
        ':',
    ] + nat_decimal(exp) + seq!['}']
}

/// The JSON text of a set of claims.
pub open spec fn claims_json(c: Claims) -> Seq<char> {
    claims_json_text(c.sub as int, c.exp as nat)
}

/// What `jsonwebtoken::encode` returns for the default header
/// (`{"typ":"JWT","alg":"HS256"}`), claims whose JSON text is `claims_json`
/// (handed over through `serde_json::value::RawValue::from_string`, which
/// checks that the text is JSON and keeps it as it is), and an HMAC key made
/// from `secret`: `None` where either call fails.
pub uninterp spec fn hs256_jwt(claims_json: Seq<char>, secret: Seq<u8>) -> Option<Seq<char>>;

/// Calls `jsonwebtoken::encode` with the default header, the claims given as
/// JSON text (through `serde_json::value::RawValue::from_string`, which
/// keeps the text as it is), and `EncodingKey::from_secret(secret)`. Signing
/// is HMAC-SHA256 and deterministic, so the result is a function of the two
/// arguments, named `hs256_jwt`. In jsonwebtoken's and serde_json's
/// implementations this fails only where the text is not JSON; a text of the form `{"sub":<int>,"exp":<int>}` is JSON.
#[verifier::external_body]
fn encode_hs256(claims_json: &str, secret: &[u8]) -> (r: Option<String>)
    ensures
        match r {
            Some(t) => hs256_jwt(claims_json@, secret@) == Some(t@),
            None => hs256_jwt(claims_json@, secret@) is None,
        },
        (exists|sub: int, exp: nat| claims_json@ == claims_json_text(sub, exp)) ==> r is Some,
{
    let raw = serde_json::value::RawValue::from_string(claims_json.to_string()).ok()?;
    let key = jsonwebtoken::EncodingKey::from_secret(secret);
    jsonwebtoken::encode(&jsonwebtoken::Header::default(), &raw, &key).ok()
}

/// A reading of the clock: seconds since the Unix epoch, and the
/// nanoseconds within that second.
#[derive(Debug, Clone, Copy, PartialEq, Eq, Structural)]
pub struct ClockReading {
    pub secs: i64,
    pub nanos: u32,
}

/// A time that a chrono date-time can hold, at or after the epoch.
pub open spec fn is_clock_reading(t: ClockReading) -> bool {
    0 <= t.secs <= MAX_TIMESTAMP && t.nanos < 1_000_000_000
}

/// Reads the system clock: `std::time::SystemTime::now()`, as its duration
/// since `UNIX_EPOCH` in whole seconds and the nanoseconds within the second.
/// What it returns depends on the time. `None` where the clock reads before
/// 1970 (`duration_since` fails); otherwise the nanoseconds are below one
/// second, as `Duration::subsec_nanos` documents.
#[verifier::external_body]
fn system_time_since_epoch() -> (r: Option<(u64, u32)>)
    ensures
        r matches Some((_, nanos)) ==> nanos < 1_000_000_000,
{
    match std::time::SystemTime::now().duration_since(std::time::UNIX_EPOCH) {
        Ok(d) => Some((d.as_secs(), d.subsec_nanos())),
        Err(_) => None,
    }
}

/// Calls `chrono::DateTime::<Utc>::from_timestamp(secs, nanos)` and reads the
/// date-time back as `timestamp()` and `timestamp_subsec_nanos()`. chrono's
/// implementation gives `None` exactly where the day falls outside its date
/// range (for nanoseconds below one second); otherwise it reads back the
/// same seconds and nanoseconds.
#[verifier::external_body]
fn chrono_utc_from_timestamp(secs: i64, nanos: u32) -> (r: Option<ClockReading>)
    ensures
        nanos < 1_000_000_000 ==> (r is Some <==> MIN_TIMESTAMP <= secs <= MAX_TIMESTAMP),
        r matches Some(t) ==> t.secs == secs && t.nanos == nanos,
{
    let t = chrono::DateTime::from_timestamp(secs, nanos)?;
    Some(ClockReading { secs: t.timestamp(), nanos: t.timestamp_subsec_nanos() })
}

/// Reads the clock as a chrono UTC date-time, as `chrono::Utc::now()` does,
/// but without panicking: `None` where the system clock reads before 1970 or
/// beyond the last second that chrono can hold.
pub(crate) fn current_time() -> (r: Option<ClockReading>)
    ensures
        r matches Some(t) ==> is_clock_reading(t),
{
    let (secs, nanos) = system_time_since_epoch()?;
    if secs > MAX_TIMESTAMP as u64 {
        return None;
    }
    chrono_utc_from_timestamp(secs as i64, nanos)
}

/// The token that carries `c`, signed with the service key.
pub open spec fn signed_token(c: Claims) -> Seq<char> {
    hs256_jwt(claims_json(c), secret_bytes()).unwrap()
}

/// A time at which a token of lifetime `ttl` can be issued: its expiry is
/// still a date-time that chrono can hold.
pub open spec fn can_issue(now: int, ttl: int) -> bool {
    MIN_TIMESTAMP <= now && now + ttl <= MAX_TIMESTAMP
}

/// The claims of the access token issued to `user_id` at `now`.
pub open spec fn access_claims(user_id: i32, now: i64) -> Claims {
    Claims { sub: user_id, exp: (now + ACCESS_TOKEN_TTL_SECS) as usize }
}

/// The claims of the refresh token issued to `user_id` at `now`.
pub open spec fn refresh_claims(user_id: i32, now: i64) -> Claims {
    Claims { sub: user_id, exp: (now + REFRESH_TOKEN_TTL_SECS) as usize }
}

impl Claims {
    /// The JSON text of the claims, `{"sub":..,"exp":..}`.
    pub fn to_json(&self) -> (s: String)
        ensures
            s@ == claims_json(*self),
    {
        let mut s = String::from_str("{\"sub\":");
        push_int_decimal(&mut s, self.sub as i64);
        s.append(",\"exp\":");
        push_nat_decimal(&mut s, self.exp as u64);
        s.append("}");
        proof {
            reveal_strlit("{\"sub\":");
            reveal_strlit(",\"exp\":");
            reveal_strlit("}");
            assert(s@ =~= claims_json(*self));
        }
        s
    }
}

/// Signs a set of claims into a token.
pub fn sign_claims(claims: &Claims) -> (token: String)
    ensures
        hs256_jwt(claims_json(*claims), secret_bytes()) == Some(token@),
        token@ == signed_token(*claims),
{
    let json = claims.to_json();
    let key = secret_key();
    let r = encode_hs256(json.as_str(), key.as_slice());
    assert(json@ == claims_json_text(claims.sub as int, claims.exp as nat));
    match r {
        Some(t) => t,
        None => {
            assert(false);
            String::new()
        },
    }
}

/// The access token of `user_id` issued at `now`: it expires 15 minutes later.
pub fn access_token_at(user_id: i32, now: i64) -> (token: String)
    requires
        can_issue(now as int, ACCESS_TOKEN_TTL_SECS as int),
    ensures
        token@ == signed_token(access_claims(user_id, now)),
{
    let claims = Claims { sub: user_id, exp: (now + ACCESS_TOKEN_TTL_SECS) as usize };
    sign_claims(&claims)
}

/// The expiry of a refresh token issued at `now`: 7 days later, to the
/// nanosecond.
pub open spec fn refresh_expiry(now: ClockReading) -> ClockReading {
    ClockReading { secs: (now.secs + REFRESH_TOKEN_TTL_SECS) as i64, nanos: now.nanos }
}

/// The refresh token of `user_id` issued at `now`, with its expiry: it
/// expires 7 days later.
pub fn refresh_token_at(user_id: i32, now: ClockReading) -> (r: (String, ClockReading))
    requires
        can_issue(now.secs as int, REFRESH_TOKEN_TTL_SECS as int),
    ensures
        r.0@ == signed_token(refresh_claims(user_id, now.secs)),
        r.1 == refresh_expiry(now),
{
    let expires_at = ClockReading { secs: now.secs + REFRESH_TOKEN_TTL_SECS, nanos: now.nanos };
    let claims = Claims { sub: user_id, exp: expires_at.secs as usize };
    (sign_claims(&claims), expires_at)
}

/// The access token issued to `user_id` at `now`: issued exactly when its
/// expiry, 15 minutes later, is still a time that chrono can hold.
pub open spec fn access_token_issued(user_id: i32, now: i64) -> Option<Seq<char>> {
    if now + ACCESS_TOKEN_TTL_SECS <= MAX_TIMESTAMP {
        Some(signed_token(access_claims(user_id, now)))
    } else {
        None
    }
}

/// The refresh token issued to `user_id` at `now`, with its expiry: issued
/// exactly when that expiry, 7 days later, is still a time chrono can hold.
pub open spec fn refresh_token_issued(user_id: i32, now: ClockReading) -> Option<
    (Seq<char>, ClockReading),
> {
    if now.secs + REFRESH_TOKEN_TTL_SECS <= MAX_TIMESTAMP {
        Some((signed_token(refresh_claims(user_id, now.secs)), refresh_expiry(now)))
    } else {
        None
    }
}

/// The text of an optional token.
pub open spec fn token_view(r: Option<String>) -> Option<Seq<char>> {
    match r {
        Some(t) => Some(t@),
        None => None,
    }
}

/// The text of an optional token with its expiry.
pub open spec fn token_expiry_view(r: Option<(String, ClockReading)>) -> Option<
    (Seq<char>, ClockReading),
> {
    match r {
        Some((t, e)) => Some((t@, e)),
        None => None,
    }
}

/// Issues the access token of `user_id` at the time `now`: a token exactly
/// when its expiry can be represented.
pub fn access_token_issued_at(user_id: i32, now: i64) -> (r: Option<String>)
    requires
        MIN_TIMESTAMP <= now <= MAX_TIMESTAMP,
    ensures
        token_view(r) == access_token_issued(user_id, now),
{
    if now > MAX_TIMESTAMP - ACCESS_TOKEN_TTL_SECS {
        None
    } else {
        Some(access_token_at(user_id, now))
    }
}

/// Issues the refresh token of `user_id` at the time `now`, with its expiry:
/// a token exactly when that expiry can be represented.
pub fn refresh_token_issued_at(user_id: i32, now: ClockReading) -> (r: Option<(String, ClockReading)>)
    requires
        MIN_TIMESTAMP <= now.secs <= MAX_TIMESTAMP,
    ensures
        token_expiry_view(r) == refresh_token_issued(user_id, now),
{
    if now.secs > MAX_TIMESTAMP - REFRESH_TOKEN_TTL_SECS {
        None
    } else {
        Some(refresh_token_at(user_id, now))
    }
}

/// Issues an access token for `user_id` at the current time: what
/// `access_token_issued_at` gives at the clock reading, so a token whenever
/// the reading is more than 15 minutes before chrono's last representable
/// second; `None` where the clock cannot be read as a chrono date-time.
pub fn create_access_token(user_id: i32) -> (r: Option<String>)
    ensures
        r is None || exists|now: ClockReading|
            #![trigger access_token_issued(user_id, now.secs)]
            is_clock_reading(now) && token_view(r) == access_token_issued(user_id, now.secs),
{
    let now = current_time()?;
    let r = access_token_issued_at(user_id, now.secs);
    assert(is_clock_reading(now) && token_view(r) == access_token_issued(user_id, now.secs));
    r
}

/// Issues a refresh token for `user_id` at the current time, with its expiry:
/// what `refresh_token_issued_at` gives at the clock reading, so a token
/// whenever the reading is more than 7 days before chrono's last
/// representable second; `None` where the clock cannot be read as a chrono
/// date-time.
pub fn create_refresh_token(user_id: i32) -> (r: Option<(String, ClockReading)>)
    ensures
        r is None || exists|now: ClockReading|
            #![trigger refresh_token_issued(user_id, now)]
            is_clock_reading(now) && token_expiry_view(r) == refresh_token_issued(user_id, now),
{
    let now = current_time()?;
    let r = refresh_token_issued_at(user_id, now);
    assert(is_clock_reading(now) && token_expiry_view(r) == refresh_token_issued(user_id, now));
    r
}

/// An access token issued to a user at `now` names that user and expires
/// exactly 15 minutes later; a refresh token issued at the same moment names
/// the same user and expires exactly 7 days later, so after the access token.
/// (Stated where the expiry fits in `usize`.)
pub proof fn lemma_token_lifetimes(user_id: i32, now: i64)
    requires
        can_issue(now as int, REFRESH_TOKEN_TTL_SECS as int),
        0 <= now,
        now + REFRESH_TOKEN_TTL_SECS <= usize::MAX,
    ensures
        access_claims(user_id, now).sub == user_id,
        access_claims(user_id, now).exp == now + 900,
        refresh_claims(user_id, now).sub == user_id,
        refresh_claims(user_id, now).exp == now + 604800,
        access_claims(user_id, now).exp < refresh_claims(user_id, now).exp,
{
}

/// The expiry recorded for a refresh token is, to the second, the expiry
/// written in it. (Stated where the expiry fits in `usize`.)
pub proof fn lemma_refresh_expiry_matches_token(user_id: i32, now: ClockReading)
    requires
        is_clock_reading(now),
        now.secs + REFRESH_TOKEN_TTL_SECS <= usize::MAX,
        refresh_token_issued(user_id, now) is Some,
    ensures
        refresh_claims(user_id, now.secs).exp == refresh_token_issued(user_id, now).unwrap().1.secs,
{
}

/// Tokens are issued at every time whose expiry chrono can still hold: an
/// access token when the time is at least 15 minutes, a refresh token when it
/// is at least 7 days, before chrono's last representable second.
pub proof fn lemma_tokens_issued_at_representable_times(
    user_id: i32,
    access_time: i64,
    refresh_time: ClockReading,
)
    requires
        is_clock_reading(refresh_time),
        0 <= access_time,
        access_time + ACCESS_TOKEN_TTL_SECS <= MAX_TIMESTAMP,
        refresh_time.secs + REFRESH_TOKEN_TTL_SECS <= MAX_TIMESTAMP,
    ensures
        access_token_issued(user_id, access_time) == Some(
            signed_token(access_claims(user_id, access_time)),
        ),
        refresh_token_issued(user_id, refresh_time) == Some(
            (signed_token(refresh_claims(user_id, refresh_time.secs)), refresh_expiry(refresh_time)),
        ),
{
}

} // verus!
