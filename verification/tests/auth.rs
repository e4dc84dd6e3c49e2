use std::collections::HashSet;

use bubo::auth::{
    auth_token, issue_claims, permission, permission_of_path, renew_tokens, same_text, AuthUser,
    AuthUserResponse, ACCESS_EXP, ACCESS_TYPE, GRACE_SECONDS, REFRESH_EXP, REFRESH_TYPE,
    TOKEN_TYPE,
};
use bubo::error::BusinessErrorCode;

fn names(items: &[&str]) -> HashSet<String> {
    items.iter().map(|s| s.to_string()).collect()
}

fn sample_user() -> AuthUser {
    AuthUser::new(
        7,
        "root".to_string(),
        "Root".to_string(),
        false,
        100,
        200,
        names(&["ops"]),
        names(&["system:role:list"]),
        [1i64, 2, 3].into_iter().collect(),
    )
}

#[test]
fn constants_of_the_token_scheme() {
    assert_eq!(TOKEN_TYPE, "Bearer");
    assert_eq!(ACCESS_TYPE, "ACCESS");
    assert_eq!(REFRESH_TYPE, "REFRESH");
    assert_eq!(ACCESS_EXP, 7200);
    assert_eq!(REFRESH_EXP, 604800);
    assert_eq!(GRACE_SECONDS, 300);
}

#[test]
fn a_new_user_has_never_renewed() {
    let user = sample_user();
    assert_eq!(user.id, 7);
    assert_eq!(user.username, "root");
    assert_eq!(user.nick_name, "Root");
    assert!(!user.is_admin);
    assert_eq!(user.access_token_id, 100);
    assert_eq!(user.refresh_token_id, 200);
    assert_eq!(user.last_access_token_id, None);
    assert_eq!(user.refreshed_at, None);
    assert_eq!(user.roles, names(&["ops"]));
    assert_eq!(user.permissions, names(&["system:role:list"]));
    assert_eq!(user.menu_ids.len(), 3);
    assert!(user.is_well_formed());
}

#[test]
fn the_response_shows_the_public_part() {
    let shown = AuthUserResponse::new(sample_user());
    assert_eq!(shown.id, 7);
    assert_eq!(shown.username, "root");
    assert_eq!(shown.nick_name, "Root");
    assert!(!shown.is_admin);
    assert_eq!(shown.roles, names(&["ops"]));
    assert_eq!(shown.permissions, names(&["system:role:list"]));
}

#[test]
fn the_current_access_token_is_good() {
    assert_eq!(auth_token(sample_user(), ACCESS_TYPE, 100, 1_000_000).unwrap().id, 7);
    assert_eq!(
        auth_token(sample_user(), ACCESS_TYPE, 101, 1_000_000).unwrap_err(),
        BusinessErrorCode::Unauthorized
    );
    assert_eq!(
        auth_token(sample_user(), ACCESS_TYPE, 200, 1_000_000).unwrap_err(),
        BusinessErrorCode::Unauthorized
    );
}

#[test]
fn the_replaced_access_token_is_good_for_five_minutes() {
    let renewed = |now: i64| {
        let user = renew_tokens(sample_user(), 300, 400, 1_000_000);
        auth_token(user, ACCESS_TYPE, 100, now)
    };
    assert!(renewed(1_000_000).is_ok());
    assert!(renewed(1_000_299).is_ok());
    assert_eq!(renewed(1_000_300).unwrap_err(), BusinessErrorCode::Unauthorized);
    assert_eq!(renewed(2_000_000).unwrap_err(), BusinessErrorCode::Unauthorized);
    let user = renew_tokens(sample_user(), 300, 400, i64::MAX - 5);
    assert!(auth_token(user, ACCESS_TYPE, 100, i64::MAX).is_ok());
    let user = renew_tokens(sample_user(), 300, 400, 1_000_000);
    assert!(auth_token(user, ACCESS_TYPE, 300, 9_000_000).is_ok());
}

#[test]
fn the_refresh_token_must_be_the_current_one() {
    assert!(auth_token(sample_user(), REFRESH_TYPE, 200, 0).is_ok());
    assert_eq!(
        auth_token(sample_user(), REFRESH_TYPE, 100, 0).unwrap_err(),
        BusinessErrorCode::Unauthorized
    );
}

#[test]
fn a_token_of_another_kind_is_not_checked() {
    assert!(auth_token(sample_user(), "OTHER", 999, 0).is_ok());
    assert!(auth_token(sample_user(), "", 999, 0).is_ok());
}

#[test]
fn renewing_remembers_the_replaced_token() {
    let renewed = renew_tokens(sample_user(), 300, 400, 55);
    assert_eq!(renewed.access_token_id, 300);
    assert_eq!(renewed.refresh_token_id, 400);
    assert_eq!(renewed.last_access_token_id, Some(100));
    assert_eq!(renewed.refreshed_at, Some(55));
    assert_eq!(renewed.id, 7);
    assert_eq!(renewed.username, "root");
    assert_eq!(renewed.permissions, names(&["system:role:list"]));
    assert!(renewed.is_well_formed());
}

#[test]
fn renewing_a_first_login_remembers_nothing() {
    let fresh = AuthUser::new(
        1,
        "a".to_string(),
        "b".to_string(),
        true,
        0,
        0,
        HashSet::new(),
        HashSet::new(),
        HashSet::new(),
    );
    let renewed = renew_tokens(fresh, 300, 400, 55);
    assert_eq!(renewed.access_token_id, 300);
    assert_eq!(renewed.refresh_token_id, 400);
    assert_eq!(renewed.last_access_token_id, None);
    assert_eq!(renewed.refreshed_at, None);
}

#[test]
fn a_user_that_forgot_the_time_is_not_well_formed() {
    let mut user = sample_user();
    user.last_access_token_id = Some(1);
    assert!(!user.is_well_formed());
    user.refreshed_at = Some(2);
    assert!(user.is_well_formed());
}

#[test]
fn claims_carry_the_expiry() {
    let claims = issue_claims(7, "aud".to_string(), "iss".to_string(), 99, ACCESS_EXP, 1000);
    assert_eq!(claims.sub, 7);
    assert_eq!(claims.iat, 8200);
    assert_eq!(claims.exp, 8200);
    assert_eq!(claims.aud, "aud");
    assert_eq!(claims.iss, "iss");
    assert_eq!(claims.jti, 99);
    let claims = issue_claims(7, "aud".to_string(), "iss".to_string(), 99, REFRESH_EXP, 1000);
    assert_eq!(claims.iat, 8200);
    assert_eq!(claims.exp, 605800);
}

#[test]
fn the_permission_of_a_path() {
    assert_eq!(permission_of_path("/system/role/list"), "system:role:list");
    assert_eq!(permission_of_path("/"), "");
    assert_eq!(permission_of_path(""), "");
    assert_eq!(permission_of_path("admin/x"), "dmin:x");
    assert_eq!(permission_of_path("//a"), ":a");
    assert_eq!(permission_of_path("/é/ü"), "é:ü");
}

#[test]
fn an_administrator_needs_no_permission() {
    assert_eq!(permission(true, false), Ok(()));
    assert_eq!(permission(true, true), Ok(()));
    assert_eq!(permission(false, true), Ok(()));
    assert_eq!(permission(false, false), Err(BusinessErrorCode::Forbidden));
}

#[test]
fn same_text_compares_contents() {
    assert!(same_text("ACCESS", "ACCESS"));
    assert!(!same_text("ACCESS", "REFRESH"));
    assert!(!same_text("ACCESS", "ACCESS "));
    assert!(same_text("", ""));
}
