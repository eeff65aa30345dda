//! Transport-facing value shapes, the error taxonomy, and the firmware
//! dependency normalization rule.

use vstd::prelude::*;

verus! {

use vstd::string::StringExecFns;
use crate::dto::{DeviceHard, Firm, User};

/// A login response: the encoded access token together with the sanitized
/// user projection it was issued for.
#[derive(Clone, Debug)]
pub struct Token {
    pub access_token: String,
    pub user: VoUser,
}

impl Token {
    pub fn new(access_token: String, user: VoUser) -> (r: Token)
        ensures
            r.access_token == access_token,
            r.user == user,
    {
        Token { access_token, user }
    }
}

/// The sanitized user projection carried by tokens: never the password hash.
/// `ticker` is the stored row's `update_time`, used to invalidate tokens.
#[derive(Clone, Debug)]
pub struct VoUser {
    pub id: i32,
    pub name: String,
    pub mail: String,
    pub ticker: i64,
}

/// The projection a user row is reduced to before it leaves the service.
pub open spec fn user_projection(u: User) -> VoUser {
    VoUser { id: u.id, name: u.name, mail: u.mail, ticker: u.update_time }
}

impl VoUser {
    /// Reduces a stored row to its sanitized projection.
    pub fn from_user(u: User) -> (r: VoUser)
        ensures
            r == user_projection(u),
    {
        VoUser { id: u.id, name: u.name, mail: u.mail, ticker: u.update_time }
    }
}

/// A password-change request.
#[derive(Clone, Debug)]
pub struct VoUpdateUser {
    pub old_pass: String,
    pub new_pass: String,
}

/// A login request.
#[derive(Clone, Debug)]
pub struct VoLogin {
    pub email: String,
    pub password: String,
}

/// The combined hardware/software catalog payload.
pub struct BaseInfo {
    pub hard: Vec<VoDeviceHard>,
    pub soft: Vec<crate::dto::DeviceSoft>,
}

/// The error taxonomy every operation reports through.
#[derive(Clone, Debug)]
pub enum CustomError {
    TokenError,
    Internal(String),
    MailOrPasswordFail,
    DataNotFound,
    PasswordError,
}

/// A store failure as the caller reports it: either the row was missing, or
/// the store failed with a message.
#[derive(Clone, Debug)]
pub enum StoreError {
    RowNotFound,
    Other(String),
}

/// How a store failure is classified.
pub open spec fn store_error_class(e: StoreError) -> CustomError {
    match e {
        StoreError::RowNotFound => CustomError::DataNotFound,
        StoreError::Other(m) => CustomError::Internal(m),
    }
}

impl CustomError {
    /// The HTTP status code this error maps to.
    pub open spec fn spec_status_code(&self) -> u16 {
        match self {
            CustomError::TokenError => 401,
            CustomError::MailOrPasswordFail => 401,
            CustomError::PasswordError => 401,
            CustomError::DataNotFound => 404,
            CustomError::Internal(_) => 500,
        }
    }

    /// The message this error carries; `Internal` exposes the underlying
    /// store message deliberately.
    pub open spec fn spec_message(&self) -> Seq<char> {
        match self {
            CustomError::TokenError => "token expire"@,
            CustomError::Internal(m) => "server error: `"@ + m@ + "`"@,
            CustomError::MailOrPasswordFail => "mail or passwprd error"@,
            CustomError::DataNotFound => "data not found"@,
            CustomError::PasswordError => "password not incorrept"@,
        }
    }

    /// Classifies a store failure: a missing row is `DataNotFound`, anything
    /// else is wrapped as `Internal`.
    pub fn from_store(e: StoreError) -> (r: CustomError)
        ensures
            r == store_error_class(e),
    {
        match e {
            StoreError::RowNotFound => CustomError::DataNotFound,
            StoreError::Other(m) => CustomError::Internal(m),
        }
    }

    /// The HTTP status code this error maps to: authentication failures are
    /// 401, a missing row is 404, store failures are 500.
    pub fn status_code(&self) -> (r: u16)
        ensures
            r == self.spec_status_code(),
    {
        match self {
            CustomError::TokenError => 401,
            CustomError::MailOrPasswordFail => 401,
            CustomError::PasswordError => 401,
            CustomError::DataNotFound => 404,
            CustomError::Internal(_) => 500,
        }
    }

    /// Renders the error message.
    pub fn message(&self) -> (r: String)
        ensures
            r@ == self.spec_message(),
    {
        match self {
            CustomError::TokenError => String::from_str("token expire"),
            CustomError::Internal(m) => {
                let mut s = String::from_str("server error: `");
                s.append(m.as_str());
                s.append("`");
                proof {
                    assert(s@ =~= self.spec_message());
                }
                s
            },
            CustomError::MailOrPasswordFail => String::from_str("mail or passwprd error"),
            CustomError::DataNotFound => String::from_str("data not found"),
            CustomError::PasswordError => String::from_str("password not incorrept"),
        }
    }
}

/// A hardware category code: 1 is a lock, 2 is a box; unknown codes read as
/// locks.
#[derive(Clone, Copy, Debug, PartialEq, Eq, Structural)]
pub enum VoHardCategory {
    Lock,
    Box,
}

/// The category an integer code decodes to.
pub open spec fn category_of_code(code: int) -> VoHardCategory {
    if code == 2 {
        VoHardCategory::Box
    } else {
        VoHardCategory::Lock
    }
}

/// The integer code a category encodes to.
pub open spec fn category_code(c: VoHardCategory) -> int {
    match c {
        VoHardCategory::Lock => 1,
        VoHardCategory::Box => 2,
    }
}

impl VoHardCategory {
    /// Decodes a stored category code.
    pub fn from_code(code: i32) -> (r: VoHardCategory)
        ensures
            r == category_of_code(code as int),
    {
        match code {
            2 => VoHardCategory::Box,
            _ => VoHardCategory::Lock,
        }
    }

    /// Encodes this category for storage.
    pub fn code(&self) -> (r: i32)
        ensures
            r as int == category_code(*self),
    {
        match self {
            VoHardCategory::Lock => 1,
            VoHardCategory::Box => 2,
        }
    }
}

/// A hardware device type as it leaves the service.
#[derive(Clone, Debug)]
pub struct VoDeviceHard {
    pub id: i32,
    pub hard_version: String,
    pub name: String,
    pub category: VoHardCategory,
    pub has_ble: bool,
    pub has_finger: bool,
    pub has_stm32: bool,
    pub desc: String,
}

/// The projection a hardware row is reduced to.
pub open spec fn hard_projection(d: DeviceHard) -> VoDeviceHard {
    VoDeviceHard {
        id: d.id,
        hard_version: d.hard_version,
        name: d.name,
        category: category_of_code(d.category as int),
        has_ble: d.has_ble,
        has_finger: d.has_finger,
        has_stm32: d.has_stm32,
        desc: d.desc,
    }
}

impl VoDeviceHard {
    /// Reduces a stored hardware row to its transport shape.
    pub fn from_hard(d: &DeviceHard) -> (r: VoDeviceHard)
        ensures
            r == hard_projection(*d),
    {
        VoDeviceHard {
            id: d.id,
            hard_version: d.hard_version.clone(),
            name: d.name.clone(),
            category: VoHardCategory::from_code(d.category),
            has_ble: d.has_ble,
            has_finger: d.has_finger,
            has_stm32: d.has_stm32,
            desc: d.desc.clone(),
        }
    }
}

/// A hardware add request.
#[derive(Clone, Debug)]
pub struct VoAddHard {
    pub hard_version: String,
    pub name: String,
    pub category: VoHardCategory,
    pub has_ble: bool,
    pub has_finger: bool,
    pub has_stm32: bool,
    pub desc: String,
}

/// A hardware update request.
#[derive(Clone, Debug)]
pub struct VoUpdateHard {
    pub id: i32,
    pub hard_version: String,
    pub name: String,
    pub category: VoHardCategory,
    pub has_ble: bool,
    pub has_finger: bool,
    pub has_stm32: bool,
    pub desc: String,
}

/// A software-type add request.
#[derive(Clone, Debug)]
pub struct VoAddSoft {
    pub name: String,
}

/// A software-type update request.
#[derive(Clone, Debug)]
pub struct VoUpdateSoft {
    pub id: i32,
    pub name: String,
}

/// A firmware release as it leaves the service.
#[derive(Clone, Debug)]
pub struct VoFirm {
    pub id: i32,
    pub hard_version: i32,
    pub version_name: String,
    pub version_format: String,
    pub version_type: i32,
    pub finger_level: i32,
    pub url: String,
    pub desc: String,
    pub update_time: i64,
    pub rely_version_type: Option<i32>,
    pub min: Option<String>,
    pub max: Option<String>,
    pub des_en: String,
    pub des_ko: String,
    pub des_sp: String,
}

/// The projection a firmware row is reduced to.
pub open spec fn firm_projection(f: Firm) -> VoFirm {
    VoFirm {
        id: f.id,
        hard_version: f.hard_version,
        version_name: f.version_name,
        version_format: f.version_format,
        version_type: f.version_type,
        finger_level: f.finger_level,
        url: f.url,
        desc: f.desc,
        update_time: f.update_time,
        rely_version_type: f.rely_version_type,
        min: f.min,
        max: f.max,
        des_en: f.des_en,
        des_ko: f.des_ko,
        des_sp: f.des_sp,
    }
}

fn clone_opt_string(o: &Option<String>) -> (r: Option<String>)
    ensures
        r == *o,
{
    match o {
        Some(s) => Some(s.clone()),
        None => None,
    }
}

impl VoFirm {
    /// Reduces a stored firmware row to its transport shape.
    pub fn from_firm(f: &Firm) -> (r: VoFirm)
        ensures
            r == firm_projection(*f),
    {
        VoFirm {
            id: f.id,
            hard_version: f.hard_version,
            version_name: f.version_name.clone(),
            version_format: f.version_format.clone(),
            version_type: f.version_type,
            finger_level: f.finger_level,
            url: f.url.clone(),
            desc: f.desc.clone(),
            update_time: f.update_time,
            rely_version_type: f.rely_version_type,
            min: clone_opt_string(&f.min),
            max: clone_opt_string(&f.max),
            des_en: f.des_en.clone(),
            des_ko: f.des_ko.clone(),
            des_sp: f.des_sp.clone(),
        }
    }
}

/// A firmware add request.
#[derive(Clone, Debug)]
pub struct VoAddFirm {
    pub hard_version: i32,
    pub version_name: String,
    pub version_format: String,
    pub version_type: i32,
    pub finger_level: i32,
    pub url: String,
    pub desc: String,
    pub update_time: i64,
    pub rely_version_type: Option<i32>,
    pub min: Option<String>,
    pub max: Option<String>,
    pub des_en: String,
    pub des_ko: String,
    pub des_sp: String,
}

impl VoAddFirm {
    /// The normalized payload: the dependency triple collapses to all-absent
    /// unless `rely_version_type` or `min` is present; `max` alone is dropped.
    pub open spec fn checked(self) -> VoAddFirm {
        if self.rely_version_type is Some || self.min is Some {
            self
        } else {
            VoAddFirm {
                hard_version: self.hard_version,
                version_name: self.version_name,
                version_format: self.version_format,
                version_type: self.version_type,
                finger_level: self.finger_level,
                url: self.url,
                desc: self.desc,
                update_time: self.update_time,
                rely_version_type: None,
                min: None,
                max: None,
                des_en: self.des_en,
                des_ko: self.des_ko,
                des_sp: self.des_sp,
            }
        }
    }

    /// Normalizes the dependency triple before the payload is bound: partial
    /// dependency data never persists.
    pub fn check_data(self) -> (r: VoAddFirm)
        ensures
            r == self.checked(),
            r.rely_version_type is None && r.min is None ==> r.max is None,
    {
        if self.rely_version_type.is_some() || self.min.is_some() {
            self
        } else {
            VoAddFirm {
                hard_version: self.hard_version,
                version_name: self.version_name,
                version_format: self.version_format,
                version_type: self.version_type,
                finger_level: self.finger_level,
                url: self.url,
                desc: self.desc,
                update_time: self.update_time,
                rely_version_type: None,
                min: None,
                max: None,
                des_en: self.des_en,
                des_ko: self.des_ko,
                des_sp: self.des_sp,
            }
        }
    }
}

/// A firmware update request.
#[derive(Clone, Debug)]
pub struct VoUpdateFirm {
    pub id: i32,
    pub hard_version: i32,
    pub version_name: String,
    pub version_format: String,
    pub version_type: i32,
    pub finger_level: i32,
    pub url: String,
    pub desc: String,
    pub update_time: i64,
    pub rely_version_type: Option<i32>,
    pub min: Option<String>,
    pub max: Option<String>,
    pub des_en: String,
    pub des_ko: String,
    pub des_sp: String,
}

impl VoUpdateFirm {
    /// The normalized payload, under the same rule as `VoAddFirm::checked`.
    pub open spec fn checked(self) -> VoUpdateFirm {
        if self.rely_version_type is Some || self.min is Some {
            self
        } else {
            VoUpdateFirm {
                id: self.id,
                hard_version: self.hard_version,
                version_name: self.version_name,
                version_format: self.version_format,
                version_type: self.version_type,
                finger_level: self.finger_level,
                url: self.url,
                desc: self.desc,
                update_time: self.update_time,
                rely_version_type: None,
                min: None,
                max: None,
                des_en: self.des_en,
                des_ko: self.des_ko,
                des_sp: self.des_sp,
            }
        }
    }

    /// Normalizes the dependency triple before the payload is bound.
    pub fn check_data(self) -> (r: VoUpdateFirm)
        ensures
            r == self.checked(),
            r.rely_version_type is None && r.min is None ==> r.max is None,
    {
        if self.rely_version_type.is_some() || self.min.is_some() {
            self
        } else {
            VoUpdateFirm {
                id: self.id,
                hard_version: self.hard_version,
                version_name: self.version_name,
                version_format: self.version_format,
                version_type: self.version_type,
                finger_level: self.finger_level,
                url: self.url,
                desc: self.desc,
                update_time: self.update_time,
                rely_version_type: None,
                min: None,
                max: None,
                des_en: self.des_en,
                des_ko: self.des_ko,
                des_sp: self.des_sp,
            }
        }
    }
}

} // verus!
