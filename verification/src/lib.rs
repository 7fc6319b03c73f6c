//! Curated lists of clinical classification codes, with verified validation.
//!
//! The heart of the crate is the validation framework: a per-coding-system
//! grammar check (`opcs_validator`), the aggregate whole-list validation
//! protocol, and the structured error taxonomy (`validator_errors`) that
//! reports every invalid entry and why in one pass.

pub mod codelist;
pub mod errors;
pub mod metadata;
pub mod opcs_validator;
pub mod provenance;
pub mod validator_errors;
