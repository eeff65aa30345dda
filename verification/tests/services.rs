use firm_api::dto::{DeviceHard, Firm, User};
use firm_api::service::{
    DeviceHardService, DeviceSoftService, FirmService, UserService, require_row_affected,
};
use firm_api::vo::{CustomError, VoHardCategory, VoLogin, VoUpdateUser, VoUser};

const KNOWN_PASSWORD: &str = "UEoC?5K3*xays2/B";
const KNOWN_HASH: &str = "$2b$12$dQu7D/KHYLC0GiZWLn7zV.7ceiccLA74aCd.u676aaRCUENIcLvCq";

fn stored_user() -> User {
    User {
        id: 1,
        name: "admin".to_string(),
        mail: "admin@example.com".to_string(),
        password: KNOWN_HASH.to_string(),
        update_time: 1_699_000_000,
    }
}

#[test]
fn test_bcrypt() {
    let svc = UserService;
    let data = VoLogin {
        email: "admin@example.com".to_string(),
        password: KNOWN_PASSWORD.to_string(),
    };
    let ret = svc.login(Some(stored_user()), &data);
    assert!(ret.is_ok());
}

#[test]
fn test_login_success_carries_stored_ticker() {
    let svc = UserService;
    let data = VoLogin {
        email: "admin@example.com".to_string(),
        password: KNOWN_PASSWORD.to_string(),
    };
    let user = svc.login(Some(stored_user()), &data).unwrap();
    assert_eq!(user.id, 1);
    assert_eq!(user.name, "admin");
    assert_eq!(user.mail, "admin@example.com");
    assert_eq!(user.ticker, 1_699_000_000);
}

#[test]
fn test_login_wrong_password() {
    let svc = UserService;
    let data = VoLogin {
        email: "admin@example.com".to_string(),
        password: "not the password".to_string(),
    };
    let ret = svc.login(Some(stored_user()), &data);
    assert!(matches!(ret, Err(CustomError::MailOrPasswordFail)));
}

#[test]
fn test_login_unknown_mail_indistinguishable() {
    let svc = UserService;
    let data = VoLogin {
        email: "nobody@example.com".to_string(),
        password: KNOWN_PASSWORD.to_string(),
    };
    let ret = svc.login(None, &data);
    assert!(matches!(ret, Err(CustomError::MailOrPasswordFail)));
}

#[test]
fn test_check_token_accepts_current_ticker() {
    let svc = UserService;
    let token_user = VoUser {
        id: 1,
        name: "admin".to_string(),
        mail: "admin@example.com".to_string(),
        ticker: 1_699_000_000,
    };
    let ret = svc.check_token(Some(stored_user()), &token_user);
    assert!(ret.is_ok());
    assert_eq!(ret.unwrap().id, 1);
}

#[test]
fn test_check_token_rejects_stale_ticker() {
    let svc = UserService;
    let token_user = VoUser {
        id: 1,
        name: "admin".to_string(),
        mail: "admin@example.com".to_string(),
        ticker: 1_698_000_000,
    };
    let ret = svc.check_token(Some(stored_user()), &token_user);
    assert!(matches!(ret, Err(CustomError::TokenError)));
}

#[test]
fn test_check_token_missing_row() {
    let svc = UserService;
    let token_user = VoUser {
        id: 1,
        name: "admin".to_string(),
        mail: "admin@example.com".to_string(),
        ticker: 1_699_000_000,
    };
    let ret = svc.check_token(None, &token_user);
    assert!(matches!(ret, Err(CustomError::TokenError)));
}

#[test]
fn test_change_pass_then_old_token_expires() {
    let svc = UserService;
    let user = stored_user();
    let t0 = user.update_time;
    let issued = VoUser::from_user(user.clone());
    assert_eq!(issued.ticker, t0);

    let change = VoUpdateUser {
        old_pass: KNOWN_PASSWORD.to_string(),
        new_pass: "fresh password".to_string(),
    };
    let t1 = t0 + 60;
    let pc = svc.change_pass(Some(user.clone()), change, t1).unwrap();
    assert_eq!(pc.id, 1);
    assert_eq!(pc.new_password, "fresh password");
    assert_eq!(pc.update_time, t1);

    let mut updated = user;
    updated.password = pc.new_password.clone();
    updated.update_time = pc.update_time;
    let ret = svc.check_token(Some(updated), &issued);
    assert!(matches!(ret, Err(CustomError::TokenError)));
}

#[test]
fn test_change_pass_wrong_old_password() {
    let svc = UserService;
    let change = VoUpdateUser {
        old_pass: "wrong".to_string(),
        new_pass: "fresh password".to_string(),
    };
    let ret = svc.change_pass(Some(stored_user()), change, 1_699_000_060);
    assert!(matches!(ret, Err(CustomError::PasswordError)));
}

#[test]
fn test_change_pass_missing_row() {
    let svc = UserService;
    let change = VoUpdateUser {
        old_pass: KNOWN_PASSWORD.to_string(),
        new_pass: "fresh password".to_string(),
    };
    let ret = svc.change_pass(None, change, 1_699_000_060);
    assert!(matches!(ret, Err(CustomError::MailOrPasswordFail)));
}

#[test]
fn test_row_affected_rule() {
    assert!(require_row_affected(1).is_ok());
    assert!(require_row_affected(7).is_ok());
    assert!(matches!(require_row_affected(0), Err(CustomError::DataNotFound)));
}

#[test]
fn test_update_delete_missing_id_is_not_found() {
    let hard = DeviceHardService;
    let soft = DeviceSoftService;
    let firm = FirmService;
    assert!(matches!(hard.update_device(0), Err(CustomError::DataNotFound)));
    assert!(matches!(soft.update_soft_version(0), Err(CustomError::DataNotFound)));
    assert!(matches!(firm.delete_firm(0), Err(CustomError::DataNotFound)));
    assert!(matches!(firm.update_firms_result(0), Err(CustomError::DataNotFound)));
    assert!(hard.update_device(1).is_ok());
    assert!(soft.update_soft_version(1).is_ok());
    assert!(firm.delete_firm(1).is_ok());
    assert!(firm.update_firms_result(1).is_ok());
    assert!(matches!(hard.add_device(0), Err(CustomError::DataNotFound)));
    assert!(hard.add_device(1).is_ok());
}

#[test]
fn test_user_statements() {
    let svc = UserService;
    assert_eq!(
        svc.login_sql(),
        "SELECT id, name, mail, password, update_time FROM user WHERE mail = ?"
    );
    assert_eq!(
        svc.user_by_id_sql(),
        "SELECT id, name, mail, password, update_time FROM user WHERE id = ?"
    );
    assert_eq!(
        svc.change_pass_sql(),
        "UPDATE user SET password = ?, update_time = ? WHERE id = ?"
    );
}

#[test]
fn test_hard_statements() {
    let svc = DeviceHardService;
    assert_eq!(
        svc.devices_sql(),
        "SELECT id, hard_version, name, category, has_ble, has_finger, has_stm32, desc FROM device_type"
    );
    assert_eq!(
        svc.add_device_sql(),
        "INSERT INTO device_type ( hard_version, name, category, has_ble, has_finger, has_stm32, desc) VALUES (?, ?, ?, ?, ?, ?, ?)"
    );
    assert_eq!(
        svc.update_device_sql(),
        "UPDATE device_type SET hard_version = ?, name = ?, category = ?, has_ble = ?, has_finger = ?, has_stm32 = ?, desc = ?  WHERE  id  = ?"
    );
}

#[test]
fn test_soft_statements() {
    let svc = DeviceSoftService;
    assert_eq!(svc.soft_versions_sql(), "SELECT id, name FROM version_type");
    assert_eq!(svc.add_soft_version_sql(), "INSERT INTO version_type (name) VALUES (?)");
    assert_eq!(
        svc.update_soft_version_sql(),
        "UPDATE version_type SET name = ?  WHERE  id  = ?"
    );
}

#[test]
fn test_firm_statements() {
    let svc = FirmService;
    assert_eq!(
        svc.firms_sql(),
        "SELECT id, hard_version, version_name, version_format, version_type, finger_level, url, desc, update_time, rely_version_type, min, max, des_en, des_ko, des_sp FROM firm ORDER BY update_time DESC "
    );
    assert_eq!(
        svc.firms_by_device_sql(),
        "SELECT id, hard_version, version_name, version_format, version_type, finger_level, url, desc, update_time, rely_version_type, min, max, des_en, des_ko, des_sp FROM firm WHERE hard_version = ? ORDER BY update_time DESC "
    );
    assert_eq!(svc.delete_firm_sql(), "DELETE FROM firm  WHERE id = ?");
}

fn sample_firm(id: i32, update_time: i64) -> Firm {
    Firm {
        id,
        hard_version: 3,
        version_name: format!("v{}", id),
        version_format: "semver".to_string(),
        version_type: 1,
        finger_level: 0,
        url: "u".to_string(),
        desc: "d".to_string(),
        update_time,
        rely_version_type: None,
        min: None,
        max: None,
        des_en: "en".to_string(),
        des_ko: "ko".to_string(),
        des_sp: "sp".to_string(),
    }
}

#[test]
fn test_firm_plans() {
    let svc = FirmService;
    let mut data = sample_firm(0, 9).clone();
    data.min = Some("1.0".to_string());
    let add = firm_api::vo::VoAddFirm {
        hard_version: data.hard_version,
        version_name: data.version_name.clone(),
        version_format: data.version_format.clone(),
        version_type: data.version_type,
        finger_level: data.finger_level,
        url: data.url.clone(),
        desc: data.desc.clone(),
        update_time: data.update_time,
        rely_version_type: None,
        min: None,
        max: Some("2.0".to_string()),
        des_en: data.des_en.clone(),
        des_ko: data.des_ko.clone(),
        des_sp: data.des_sp.clone(),
    };
    let (sql, normalized) = svc.add_firms(add);
    assert_eq!(
        sql,
        "INSERT INTO firm ( hard_version, version_name, version_format, version_type, finger_level, url, desc, update_time, rely_version_type, min, max, des_en, des_ko, des_sp) VALUES (?, ?, ?, ?, ?, ?, ?, ?, ?, ?, ?, ?, ?, ?)"
    );
    assert_eq!(sql.matches('?').count(), 14);
    assert_eq!(normalized.max, None);

    let upd = firm_api::vo::VoUpdateFirm {
        id: 4,
        hard_version: 3,
        version_name: "v4".to_string(),
        version_format: "semver".to_string(),
        version_type: 1,
        finger_level: 0,
        url: "u".to_string(),
        desc: "d".to_string(),
        update_time: 10,
        rely_version_type: Some(2),
        min: Some("1.0".to_string()),
        max: Some("2.0".to_string()),
        des_en: "en".to_string(),
        des_ko: "ko".to_string(),
        des_sp: "sp".to_string(),
    };
    let (sql, normalized) = svc.update_firms(upd);
    assert!(sql.starts_with("UPDATE firm SET hard_version = ?, version_name = ?,"));
    assert!(sql.ends_with(" WHERE  id  = ?"));
    assert_eq!(sql.matches('?').count(), 15);
    assert_eq!(normalized.max.as_deref(), Some("2.0"));
}

#[test]
fn test_devices_conversion_keeps_order() {
    let svc = DeviceHardService;
    let rows = vec![
        DeviceHard {
            id: 1,
            hard_version: "h1".to_string(),
            name: "first".to_string(),
            category: 1,
            has_ble: false,
            has_finger: false,
            has_stm32: false,
            desc: "".to_string(),
        },
        DeviceHard {
            id: 2,
            hard_version: "h2".to_string(),
            name: "second".to_string(),
            category: 2,
            has_ble: true,
            has_finger: true,
            has_stm32: true,
            desc: "x".to_string(),
        },
    ];
    let out = svc.devices(&rows);
    assert_eq!(out.len(), 2);
    assert_eq!(out[0].id, 1);
    assert_eq!(out[0].category, VoHardCategory::Lock);
    assert_eq!(out[1].id, 2);
    assert_eq!(out[1].category, VoHardCategory::Box);
}

#[test]
fn test_firms_conversion_keeps_order() {
    let svc = FirmService;
    let rows = vec![sample_firm(1, 30), sample_firm(2, 20), sample_firm(3, 10)];
    let out = svc.firms(&rows);
    assert_eq!(out.len(), 3);
    assert_eq!(out[0].id, 1);
    assert_eq!(out[0].update_time, 30);
    assert_eq!(out[2].id, 3);
    assert_eq!(out[2].update_time, 10);
}
