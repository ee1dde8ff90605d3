//! The failure vocabulary of validation and its wire-level response.
use vstd::prelude::*;

verus! {

/// Status code of a response to a field that does not match its rule.
pub const BAD_REQUEST: i32 = 400;

/// Status code of a response to an object whose state is invalid.
pub const UNPROCESSABLE_ENTITY: i32 = 422;

/// Status code of a response that carries no validation failure.
pub const INTERNAL_SERVER_ERROR: i32 = 500;

/// A validation failure: either a single field is structurally wrong, or the
/// object as a whole is in a state that the business rules forbid.
#[derive(Debug, PartialOrd, PartialEq)]
pub enum ValidationError {
    FieldMismatch(String),
    InvalidState(String),
}

/// The mathematical value of a [`ValidationError`]: its kind and the characters
/// of its message.
pub ghost enum Failure {
    FieldMismatch(Seq<char>),
    InvalidState(Seq<char>),
}

impl View for ValidationError {
    type V = Failure;

    open spec fn view(&self) -> Failure {
        match self {
            ValidationError::FieldMismatch(m) => Failure::FieldMismatch(m@),
            ValidationError::InvalidState(m) => Failure::InvalidState(m@),
        }
    }
}

impl Failure {
    /// The message that the failure carries.
    pub open spec fn text(self) -> Seq<char> {
        match self {
            Failure::FieldMismatch(m) => m,
            Failure::InvalidState(m) => m,
        }
    }

    /// The status code that the failure is reported under.
    pub open spec fn status(self) -> int {
        match self {
            Failure::FieldMismatch(_) => 400,
            Failure::InvalidState(_) => 422,
        }
    }
}

impl ValidationError {
    /// The message of the failure, as it would be displayed.
    pub fn message(&self) -> (r: String)
        ensures
            r@ == self@.text(),
    {
        match self {
            ValidationError::FieldMismatch(m) => m.clone(),
            ValidationError::InvalidState(m) => m.clone(),
        }
    }
}

/// The shape in which a validation failure crosses a service boundary.
#[derive(Clone, Debug)]
pub struct ValidationErrorResponse {
    pub error_code: i32,
    pub error_message: String,
}

impl ValidationErrorResponse {
    /// The response for a fault that is no validation failure:
    /// 500, "Internal Server Error".
    pub fn default() -> (r: Self)
        ensures
            r.error_code == INTERNAL_SERVER_ERROR,
            r.error_message@ == "Internal Server Error"@,
    {
        ValidationErrorResponse {
            error_code: INTERNAL_SERVER_ERROR,
            error_message: "Internal Server Error".to_string(),
        }
    }

    /// A response with the given status code and message.
    pub fn new(error_code: i32, error_message: String) -> (r: Self)
        ensures
            r.error_code == error_code,
            r.error_message == error_message,
    {
        ValidationErrorResponse { error_code, error_message }
    }
}

impl From<ValidationError> for ValidationErrorResponse {
    /// A field mismatch is a bad request (400), an invalid state an unprocessable
    /// entity (422); the message is carried over unchanged.
    fn from(e: ValidationError) -> (r: Self) {
        match e {
            ValidationError::FieldMismatch(m) => ValidationErrorResponse::new(BAD_REQUEST, m),
            ValidationError::InvalidState(m) => ValidationErrorResponse::new(
                UNPROCESSABLE_ENTITY,
                m,
            ),
        }
    }
}

impl vstd::std_specs::convert::FromSpecImpl<ValidationError> for ValidationErrorResponse {
    open spec fn obeys_from_spec() -> bool {
        true
    }

    open spec fn from_spec(e: ValidationError) -> Self {
        match e {
            ValidationError::FieldMismatch(m) => ValidationErrorResponse {
                error_code: BAD_REQUEST,
                error_message: m,
            },
            ValidationError::InvalidState(m) => ValidationErrorResponse {
                error_code: UNPROCESSABLE_ENTITY,
                error_message: m,
            },
        }
    }
}

} // verus!
