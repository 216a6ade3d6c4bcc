//! A library of Common Platform Enumeration (CPE) building blocks.
//!
//! The entry point is the [`cpe`] module, which holds the Well-Formed CPE
//! Name (WFN) data model of the CPE Naming Specification: a product is
//! described by a fixed set of named attributes, each holding an unset
//! value, the logical wildcard ANY, the logical sentinel NA, or a concrete
//! validated value.

pub mod cpe;
