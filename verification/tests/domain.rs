use firm_api::dto::{DeviceHard, Firm, User};
use firm_api::jwt::{gen_user_token, token_expiry, validate_claims, validate_refresh_claims};
use firm_api::vo::{
    CustomError, StoreError, Token, VoAddFirm, VoDeviceHard, VoFirm, VoHardCategory, VoUpdateFirm,
    VoUser,
};

fn sample_add_firm(
    rely_version_type: Option<i32>,
    min: Option<String>,
    max: Option<String>,
) -> VoAddFirm {
    VoAddFirm {
        hard_version: 3,
        version_name: "v1.2".to_string(),
        version_format: "semver".to_string(),
        version_type: 1,
        finger_level: 2,
        url: "https://example.com/fw.bin".to_string(),
        desc: "desc".to_string(),
        update_time: 1_700_000_000,
        rely_version_type,
        min,
        max,
        des_en: "en".to_string(),
        des_ko: "ko".to_string(),
        des_sp: "sp".to_string(),
    }
}

#[test]
fn test_check_data_keeps_triple_when_min_present() {
    let data = sample_add_firm(None, Some("1.0".to_string()), Some("2.0".to_string()));
    let out = data.check_data();
    assert_eq!(out.rely_version_type, None);
    assert_eq!(out.min.as_deref(), Some("1.0"));
    assert_eq!(out.max.as_deref(), Some("2.0"));
}

#[test]
fn test_check_data_drops_lone_max() {
    let data = sample_add_firm(None, None, Some("2.0".to_string()));
    let out = data.check_data();
    assert_eq!(out.rely_version_type, None);
    assert_eq!(out.min, None);
    assert_eq!(out.max, None);
}

#[test]
fn test_check_data_keeps_triple_when_rely_present() {
    let data = sample_add_firm(Some(4), None, Some("2.0".to_string()));
    let out = data.check_data();
    assert_eq!(out.rely_version_type, Some(4));
    assert_eq!(out.min, None);
    assert_eq!(out.max.as_deref(), Some("2.0"));
}

#[test]
fn test_update_firm_check_data() {
    let data = VoUpdateFirm {
        id: 9,
        hard_version: 3,
        version_name: "v1.2".to_string(),
        version_format: "semver".to_string(),
        version_type: 1,
        finger_level: 2,
        url: "u".to_string(),
        desc: "d".to_string(),
        update_time: 1_700_000_000,
        rely_version_type: None,
        min: None,
        max: Some("2.0".to_string()),
        des_en: "en".to_string(),
        des_ko: "ko".to_string(),
        des_sp: "sp".to_string(),
    };
    let out = data.check_data();
    assert_eq!(out.id, 9);
    assert_eq!(out.rely_version_type, None);
    assert_eq!(out.min, None);
    assert_eq!(out.max, None);
}

#[test]
fn test_category_codes() {
    assert_eq!(VoHardCategory::from_code(1), VoHardCategory::Lock);
    assert_eq!(VoHardCategory::from_code(2), VoHardCategory::Box);
    assert_eq!(VoHardCategory::from_code(7), VoHardCategory::Lock);
    assert_eq!(VoHardCategory::Lock.code(), 1);
    assert_eq!(VoHardCategory::Box.code(), 2);
}

#[test]
fn test_user_projection_carries_ticker_and_no_password() {
    let u = User {
        id: 5,
        name: "admin".to_string(),
        mail: "a@b.c".to_string(),
        password: "$2b$12$hash".to_string(),
        update_time: 1_699_000_111,
    };
    let v = VoUser::from_user(u);
    assert_eq!(v.id, 5);
    assert_eq!(v.name, "admin");
    assert_eq!(v.mail, "a@b.c");
    assert_eq!(v.ticker, 1_699_000_111);
}

#[test]
fn test_device_hard_projection() {
    let d = DeviceHard {
        id: 1,
        hard_version: "h2".to_string(),
        name: "lock".to_string(),
        category: 2,
        has_ble: true,
        has_finger: false,
        has_stm32: true,
        desc: "a box".to_string(),
    };
    let v = VoDeviceHard::from_hard(&d);
    assert_eq!(v.id, 1);
    assert_eq!(v.hard_version, "h2");
    assert_eq!(v.category, VoHardCategory::Box);
    assert!(v.has_ble);
    assert!(!v.has_finger);
    assert!(v.has_stm32);
    assert_eq!(v.desc, "a box");
}

#[test]
fn test_firm_projection() {
    let f = Firm {
        id: 7,
        hard_version: 3,
        version_name: "v9".to_string(),
        version_format: "semver".to_string(),
        version_type: 2,
        finger_level: 1,
        url: "u".to_string(),
        desc: "d".to_string(),
        update_time: 42,
        rely_version_type: Some(1),
        min: Some("1.0".to_string()),
        max: None,
        des_en: "en".to_string(),
        des_ko: "ko".to_string(),
        des_sp: "sp".to_string(),
    };
    let v = VoFirm::from_firm(&f);
    assert_eq!(v.id, 7);
    assert_eq!(v.update_time, 42);
    assert_eq!(v.rely_version_type, Some(1));
    assert_eq!(v.min.as_deref(), Some("1.0"));
    assert_eq!(v.max, None);
    assert_eq!(v.des_ko, "ko");
}

#[test]
fn test_error_status_codes() {
    assert_eq!(CustomError::TokenError.status_code(), 401);
    assert_eq!(CustomError::MailOrPasswordFail.status_code(), 401);
    assert_eq!(CustomError::PasswordError.status_code(), 401);
    assert_eq!(CustomError::DataNotFound.status_code(), 404);
    assert_eq!(CustomError::Internal("boom".to_string()).status_code(), 500);
}

#[test]
fn test_error_messages() {
    assert_eq!(CustomError::TokenError.message(), "token expire");
    assert_eq!(CustomError::MailOrPasswordFail.message(), "mail or passwprd error");
    assert_eq!(CustomError::DataNotFound.message(), "data not found");
    assert_eq!(CustomError::PasswordError.message(), "password not incorrept");
    assert_eq!(
        CustomError::Internal("no such table".to_string()).message(),
        "server error: `no such table`"
    );
}

#[test]
fn test_store_error_classification() {
    assert!(matches!(
        CustomError::from_store(StoreError::RowNotFound),
        CustomError::DataNotFound
    ));
    let e = CustomError::from_store(StoreError::Other("disk full".to_string()));
    match e {
        CustomError::Internal(m) => assert_eq!(m, "disk full"),
        _ => panic!("expected Internal"),
    }
}

#[test]
fn test_token_new() {
    let user = VoUser { id: 1, name: "n".to_string(), mail: "m".to_string(), ticker: 10 };
    let t = Token::new("abc".to_string(), user);
    assert_eq!(t.access_token, "abc");
    assert_eq!(t.user.id, 1);
}

#[test]
fn test_gen_user_token() {
    let user = VoUser { id: 2, name: "n".to_string(), mail: "m".to_string(), ticker: 11 };
    let t = gen_user_token("tok".to_string(), user);
    assert_eq!(t.access_token, "tok");
    assert_eq!(t.user.ticker, 11);
}

#[test]
fn test_token_expiry() {
    assert_eq!(token_expiry(1_000, false), 1_000 + 3600);
    assert_eq!(token_expiry(1_000, true), 1_000 + 604_800);
}

#[test]
fn test_validate_claims() {
    let user = VoUser { id: 1, name: "n".to_string(), mail: "m".to_string(), ticker: 0 };
    assert!(validate_claims(user.clone(), true).is_none());
    assert_eq!(validate_claims(user.clone(), false).map(|u| u.id), Some(1));
    assert!(validate_refresh_claims(user.clone(), false).is_none());
    assert_eq!(validate_refresh_claims(user, true).map(|u| u.id), Some(1));
}
