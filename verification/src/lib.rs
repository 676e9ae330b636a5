//! Verified core of a small marketplace web service: password hashing,
//! signed session tokens, the authentication guard in front of the API, and
//! the decisions that the user and product endpoints take.
pub mod decimal;
pub mod password;
pub mod jwt;
pub mod middleware;
pub mod reply;
pub mod users;
pub mod products;
