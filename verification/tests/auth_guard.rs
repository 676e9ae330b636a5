use marketplace_api::jwt::Claims;
use marketplace_api::middleware::{
    bearer_token, is_public_path, Admission, AuthFailure, AuthMiddleware, AuthMiddlewareInner,
    GuardStep,
};

fn guard() -> AuthMiddlewareInner<()> {
    AuthMiddleware.new_transform(())
}

#[test]
fn public_routes_pass_without_token() {
    assert_eq!(guard().call("/api/login", None), GuardStep::Forward);
    assert_eq!(guard().call("/api/register", None), GuardStep::Forward);
    assert_eq!(guard().call("/api/login", Some("garbage")), GuardStep::Forward);
}

#[test]
fn public_route_match_is_exact() {
    assert!(is_public_path("/api/login"));
    assert!(!is_public_path("/api/login/"));
    assert!(!is_public_path("/api/Login"));
    assert!(!is_public_path("/api/registe"));
    assert!(!is_public_path(""));
}

#[test]
fn protected_route_without_header_is_rejected() {
    assert_eq!(
        guard().call("/api/products", None),
        GuardStep::Reject(AuthFailure::MissingHeader)
    );
    assert_eq!(
        guard().call("/api/me", None),
        GuardStep::Reject(AuthFailure::MissingHeader)
    );
}

#[test]
fn non_bearer_header_counts_as_missing() {
    assert_eq!(
        guard().call("/api/products", Some("Basic dXNlcjpwdw==")),
        GuardStep::Reject(AuthFailure::MissingHeader)
    );
    assert_eq!(
        guard().call("/api/products", Some("bearer abc")),
        GuardStep::Reject(AuthFailure::MissingHeader)
    );
    assert_eq!(
        guard().call("/api/products", Some("Bearer")),
        GuardStep::Reject(AuthFailure::MissingHeader)
    );
}

#[test]
fn bearer_token_is_extracted() {
    assert_eq!(
        guard().call("/api/products", Some("Bearer abc.def.ghi")),
        GuardStep::VerifyToken("abc.def.ghi".to_string())
    );
    assert_eq!(bearer_token("Bearer "), Some(String::new()));
    assert_eq!(bearer_token("Bearer  x"), Some(" x".to_string()));
    assert_eq!(bearer_token("Bearer ünï"), Some("ünï".to_string()));
    assert_eq!(bearer_token("Bear"), None);
}

#[test]
fn verified_claims_are_admitted() {
    let c = Claims { sub: 3, exp: 99 };
    assert_eq!(guard().on_token_checked(Some(c)), Admission::Admit(c));
}

#[test]
fn unverified_token_is_rejected() {
    assert_eq!(
        guard().on_token_checked(None),
        Admission::Reject(AuthFailure::InvalidToken)
    );
}

#[test]
fn failure_messages() {
    assert_eq!(AuthFailure::MissingHeader.message(), "Authorization header missing");
    assert_eq!(AuthFailure::InvalidToken.message(), "Invalid or expired token");
}

#[test]
fn new_transform_wraps_service() {
    let inner = AuthMiddleware.new_transform(17u8);
    assert_eq!(inner.service, 17u8);
}
