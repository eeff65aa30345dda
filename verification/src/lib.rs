//! Firmware and device-catalog management: a verified statement builder, the
//! record and transport shapes, and the domain rules for login, token
//! invalidation and catalog maintenance.

pub mod dto;
pub mod jwt;
pub mod service;
pub mod sql_helper;
pub mod vo;
