//! Business rules of a marketplace's request handlers and scheduled jobs:
//! what a request is refused for, what is written and answered, and what each
//! job selects and computes. The documents that they read are JSON values.
use vstd::prelude::*;

pub mod addresses;
pub mod admin;
pub mod auth;
pub mod chat;
pub mod coupons;
pub mod cron;
pub mod digital;
pub mod email;
pub mod error;
pub mod fields;
pub mod geocoding;
pub mod identity;
pub mod ids;
pub mod json;
pub mod lists;
pub mod rules;
pub mod text;
pub mod time;
