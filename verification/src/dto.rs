//! Stored record shapes, as the backing store hands them to the library.
//!
//! Timestamps are held as integer seconds since the epoch; the caller that
//! talks to the store converts its native timestamp type at the boundary.

use vstd::prelude::*;

verus! {

/// An administrative user row.
#[derive(Clone, Debug)]
pub struct User {
    pub id: i32,
    pub name: String,
    pub mail: String,
    pub password: String,
    pub update_time: i64,
}

/// A hardware device-type row.
#[derive(Clone, Debug)]
pub struct DeviceHard {
    pub id: i32,
    pub hard_version: String,
    pub name: String,
    pub category: i32,
    pub has_ble: bool,
    pub has_finger: bool,
    pub has_stm32: bool,
    pub desc: String,
}

/// A software version-type row.
#[derive(Clone, Debug)]
pub struct DeviceSoft {
    pub id: i32,
    pub name: String,
}

/// A firmware release row.
#[derive(Clone, Debug)]
pub struct Firm {
    pub id: i32,
    pub hard_version: i32,
    pub version_name: String,
    pub version_format: String,
    pub version_type: i32,
    pub finger_level: i32,
    pub url: String,
    pub desc: String,
    pub update_time: i64,
    pub rely_version_type: Option<i32>,
    pub min: Option<String>,
    pub max: Option<String>,
    pub des_en: String,
    pub des_ko: String,
    pub des_sp: String,
}

} // verus!
