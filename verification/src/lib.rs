//! Declarative field validation.
//!
//! A data-transfer object declares, by annotations on its fields, which of them must
//! satisfy a validation rule. The `compiler` module turns the description of such a
//! struct into a validation routine; `error` holds the failure vocabulary and its
//! mapping to status codes; `validation` holds the capabilities an object may offer.
pub mod compiler;
pub mod diagnostic;
pub mod error;
pub mod field_validation;
pub mod is_in_collection;
pub mod laws;
pub mod lit;
pub mod not_null;
pub mod quotation;
pub mod routine;
pub mod syntax;
pub mod text;
pub mod types;
pub mod validation;

pub use crate::error::{ValidationError, ValidationErrorResponse};
pub use crate::is_in_collection::is_in_collection;
pub use crate::not_null::is_not_null;
pub use crate::validation::{FieldValidation, StateValidation, Validation, ValidationResult};
