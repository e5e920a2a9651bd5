use gd_backend::auth::{AuthCheck, UserToken};
use gd_backend::catcher::bad_request_catcher;
use gd_backend::config::{get_custom_figment, TokenInfo};
use gd_backend::state::get_default_user_token;
use gd_backend::types::{DefaultData, HttpStatus, RtStatus, UserGuard, UserMsg};
use gd_backend::uuid_text::parse_uuid;

#[test]
fn token_defaults() {
    let t = TokenInfo::default();
    assert_eq!(t.token_field, "_token");
    assert_eq!(t.token_key, "xiyuxx");
    assert_eq!(t.exp, 604_800);
}

#[test]
fn configuration_carries_token_defaults() {
    let figment = get_custom_figment().select(rocket::figment::Profile::Default);
    assert_eq!(figment.extract_inner::<String>("token_field").unwrap(), "_token");
    assert_eq!(figment.extract_inner::<String>("token_key").unwrap(), "xiyuxx");
    assert_eq!(figment.extract_inner::<u64>("exp").unwrap(), 604_800);
}

#[test]
fn default_user_token_is_a_random_v4_uuid() {
    let a = get_default_user_token();
    let b = get_default_user_token();
    assert_eq!(a.id.len(), 36);
    assert_eq!(a.id, a.id.to_lowercase());
    let bytes = parse_uuid(&a.id).unwrap();
    assert_eq!(bytes[6] >> 4, 4);
    assert_eq!(bytes[8] >> 6, 2);
    assert_ne!(a.id, b.id);
    assert!(a.exp > 1_600_000_000);
}

#[test]
fn request_guard_decisions() {
    assert_eq!(UserMsg::guard(true, Some("tok".into())), UserGuard::Decode("tok".into()));
    let reject = UserGuard::Reject(HttpStatus::BadRequest, "user no login or token expired".into());
    assert_eq!(UserMsg::guard(true, None), reject);
    assert_eq!(UserMsg::guard(false, Some("tok".into())), reject);
    assert_eq!(UserMsg::from_claims(UserToken { id: "u".into(), exp: 1 }).id, "u");
    assert!(!AuthCheck { is_valid_token: false }.is_valid_token);
}

#[test]
fn bad_request_answer() {
    let a = bad_request_catcher().unwrap();
    assert_eq!(a.data, DefaultData::Failure(()));
    assert_eq!(a.msg, "get wrong params");
    assert!(!a.success);
    assert_eq!(a.status, RtStatus::Fail);
}
