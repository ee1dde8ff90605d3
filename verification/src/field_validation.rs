//! The descriptor of a rule that a field asks for.
use crate::types::ValidationType;
use vstd::prelude::*;

verus! {

/// A rule requested for a field: the rule itself, the diagnostic code that a
/// failure of it is reported under, and an optional custom message.
#[derive(Debug)]
pub struct FieldValidation {
    pub code: String,
    pub message: Option<String>,
    pub validator: ValidationType,
}

/// The mathematical value of a [`FieldValidation`].
pub ghost struct RuleRequest {
    pub code: Seq<char>,
    pub message: Option<Seq<char>>,
    pub validator: ValidationType,
}

impl View for FieldValidation {
    type V = RuleRequest;

    open spec fn view(&self) -> RuleRequest {
        RuleRequest {
            code: self.code@,
            message: match self.message {
                Some(m) => Some(m@),
                None => None,
            },
            validator: self.validator,
        }
    }
}

/// The request for a rule as the registry describes it: under the rule's own
/// code and without a custom message.
pub open spec fn request_for(validator: ValidationType) -> RuleRequest {
    RuleRequest { code: validator.code_text(), message: None, validator }
}

impl FieldValidation {
    /// The request for the given rule, under the rule's own diagnostic code.
    pub fn new(validator: ValidationType) -> (r: FieldValidation)
        ensures
            r@ == request_for(validator),
    {
        FieldValidation { code: validator.code().to_string(), validator, message: None }
    }
}

} // verus!
