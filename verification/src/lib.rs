//! Automates a daily check-in on a WordPress loyalty site: authenticate,
//! pull the one-time token from the member page, and post the check-in.
//!
//! The crate holds the decision logic of that flow — request construction,
//! response interpretation, and the three-step workflow — as verified code.
//! Performing the HTTP round trips is left to the caller.

pub mod checkin;
pub mod config;
pub mod error;
pub mod pattern;
pub mod site;
