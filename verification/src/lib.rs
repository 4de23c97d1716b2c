//! A declarative field-validation library.
//!
//! Consumers describe, per record, which named rules (`required`, `email`,
//! `min`) apply to which fields; [`plan::compile_plan`] turns such a
//! description into a [`plan::ValidationPlan`], and the plan's
//! [`plan::ValidationPlan::validate`] runs the bound checks in
//! field-declaration order, reporting the first failure.

pub mod plan;
pub mod resolve;
pub mod schema;
pub mod text;
pub mod validator;

pub use validator::Validator;
