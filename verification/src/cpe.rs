//! Common Platform Enumeration (CPE) support.
//!
//! The [`wfn`] module holds the Well-Formed CPE Name aggregate; the
//! [`attribute`] module holds the value domain shared by its slots and the
//! validated payload types; the [`error`] module holds the validation
//! errors.

pub mod attribute;
pub mod error;
pub mod wfn;
