//! The capabilities that an object may offer: validation of its fields, of its
//! state, and of both.
use crate::error::{Failure, ValidationError};
use vstd::prelude::*;

verus! {

pub type ValidationResult<T> = std::result::Result<T, ValidationError>;

/// The failure that a validation result reports, if it reports one.
pub open spec fn failure_of(r: ValidationResult<()>) -> Option<Failure> {
    match r {
        Ok(_) => None,
        Err(e) => Some(e@),
    }
}

/// Validation of the state of an object as a whole. Only the owner of a type
/// knows which of its states are valid, so this is always written by hand.
pub trait StateValidation {
    /// Says whether the state of the object is safe to hand on.
    fn validate_state(&self) -> ValidationResult<()>;
}

/// Validating through a reference is validating the object itself: what comes
/// back is a result of the object's own validation.
impl<T: StateValidation> StateValidation for &T {
    fn validate_state(&self) -> (r: ValidationResult<()>)
        ensures
            call_ensures(T::validate_state, (*self,), r),
    {
        T::validate_state(*self)
    }
}

/// Validation of the fields of an object, one by one, by the rules that the
/// fields are annotated with.
pub trait FieldValidation {
    /// Says whether every field of the object satisfies its rules.
    fn validate_fields(&self) -> ValidationResult<()>;
}

/// Validating through a reference is validating the object itself: what comes
/// back is a result of the object's own validation.
impl<T: FieldValidation> FieldValidation for &T {
    fn validate_fields(&self) -> (r: ValidationResult<()>)
        ensures
            call_ensures(T::validate_fields, (*self,), r),
    {
        T::validate_fields(*self)
    }
}

/// Validation of an object in full: of its fields and of its state.
pub trait Validation: StateValidation + FieldValidation {
    /// Says whether the object is safe for consumption.
    fn validate(&self) -> ValidationResult<()>;
}

/// Validating through a reference is validating the object itself: what comes
/// back is a result of the object's own validation.
impl<T: Validation> Validation for &T {
    fn validate(&self) -> (r: ValidationResult<()>)
        ensures
            call_ensures(T::validate, (*self,), r),
    {
        T::validate(*self)
    }
}

} // verus!
