//! The rules that a field can be annotated with.
use crate::text::same_text;
use vstd::prelude::*;

verus! {

/// A validation rule of the registry.
#[derive(Clone, Copy, Debug, PartialEq, Eq, Structural)]
pub enum ValidationType {
    /// The field must hold a value: it cannot be `None`.
    NotNull,
}

/// The rule that is registered under a name, if there is one. Names are
/// compared exactly, case included.
pub open spec fn rule_named(name: Seq<char>) -> Option<ValidationType> {
    if name == "not_null"@ {
        Some(ValidationType::NotNull)
    } else {
        None
    }
}

impl ValidationType {
    /// The diagnostic code of the rule, as characters.
    pub open spec fn code_text(self) -> Seq<char> {
        match self {
            ValidationType::NotNull => "not_null"@,
        }
    }

    /// The diagnostic code of the rule.
    pub fn code(&self) -> (r: &'static str)
        ensures
            r@ == self.code_text(),
    {
        match *self {
            ValidationType::NotNull => "not_null",
        }
    }

    /// Looks a rule up by the name it is annotated with.
    pub fn lookup(name: &str) -> (r: Option<ValidationType>)
        ensures
            r == rule_named(name@),
    {
        if same_text(name, "not_null") {
            Some(ValidationType::NotNull)
        } else {
            None
        }
    }
}

} // verus!
