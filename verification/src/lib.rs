//! Verified core of a credit-loss density service.
//!
//! The service estimates the density of the aggregate loss of a loan
//! portfolio and answers over HTTP. This crate holds the parts of it that
//! are exact: how the density samples are laid out into the curve that is
//! reported, and how an outcome becomes a reply. The numerical transforms
//! work on floating-point numbers and live with the caller.

pub mod density;
pub mod error_body;
pub mod response;
