//! What the compiler reports when a definition cannot be given a validation
//! routine. Every such report is fatal: nothing is emitted beside it.
use vstd::prelude::*;

verus! {

/// What is wrong with the shape of an annotation.
#[derive(Clone, Copy, Debug, PartialEq, Eq, Structural)]
pub enum Flaw {
    /// The annotation holds neither a path, nor `path = literal`, nor a list.
    NotAMeta,
    /// A list holds a literal where an item with a name was expected.
    Literal,
    /// A name is a path of several segments where a single identifier was
    /// expected.
    QualifiedName,
    /// The new name of a rename is not a string.
    RenameNotText,
}

/// A report of the compiler.
#[derive(Debug, PartialEq)]
pub enum Diagnostic {
    /// The definition is an enum or a union.
    NotAStruct,
    /// The struct has a field without a name.
    UnnamedFields,
    /// The type of a field is neither a path nor a reference.
    UnsupportedType { field: String, ty: String },
    /// A rule annotation names a rule that the registry does not hold.
    UnknownRule { field: String, rule: String },
    /// A rule annotation names no rule at all.
    NoRules { field: String },
    /// An annotation is a bare path where a list was expected.
    UnexpectedPath { field: String },
    /// An annotation is `path = literal` where a list was expected.
    UnexpectedNameValue { field: String },
    /// An annotation is of a shape that cannot be read.
    Malformed { field: String, flaw: Flaw },
}

/// The mathematical value of a [`Diagnostic`].
pub ghost enum Problem {
    NotAStruct,
    UnnamedFields,
    UnsupportedType { field: Seq<char>, ty: Seq<char> },
    UnknownRule { field: Seq<char>, rule: Seq<char> },
    NoRules { field: Seq<char> },
    UnexpectedPath { field: Seq<char> },
    UnexpectedNameValue { field: Seq<char> },
    Malformed { field: Seq<char>, flaw: Flaw },
}

impl View for Diagnostic {
    type V = Problem;

    open spec fn view(&self) -> Problem {
        match self {
            Diagnostic::NotAStruct => Problem::NotAStruct,
            Diagnostic::UnnamedFields => Problem::UnnamedFields,
            Diagnostic::UnsupportedType { field, ty } => Problem::UnsupportedType {
                field: field@,
                ty: ty@,
            },
            Diagnostic::UnknownRule { field, rule } => Problem::UnknownRule {
                field: field@,
                rule: rule@,
            },
            Diagnostic::NoRules { field } => Problem::NoRules { field: field@ },
            Diagnostic::UnexpectedPath { field } => Problem::UnexpectedPath { field: field@ },
            Diagnostic::UnexpectedNameValue { field } => Problem::UnexpectedNameValue {
                field: field@,
            },
            Diagnostic::Malformed { field, flaw } => Problem::Malformed {
                field: field@,
                flaw: *flaw,
            },
        }
    }
}

impl Flaw {
    /// The sentence that describes the flaw.
    pub open spec fn text(self) -> Seq<char> {
        match self {
            Flaw::NotAMeta => "Received something other than a list of attributes"@,
            Flaw::Literal => "Found a literal while looking for a named item"@,
            Flaw::QualifiedName => "Expected a single identifier"@,
            Flaw::RenameNotText => "Expected a string as the new name"@,
        }
    }

    /// The sentence that describes the flaw.
    pub fn describe(&self) -> (r: &'static str)
        ensures
            r@ == self.text(),
    {
        match self {
            Flaw::NotAMeta => "Received something other than a list of attributes",
            Flaw::Literal => "Found a literal while looking for a named item",
            Flaw::QualifiedName => "Expected a single identifier",
            Flaw::RenameNotText => "Expected a string as the new name",
        }
    }
}

/// A message about an annotation of the field `field`.
pub open spec fn about_field(family: Seq<char>, field: Seq<char>, what: Seq<char>) -> Seq<char> {
    "Invalid attribute "@ + family + "on field `"@ + field + "`: "@ + what
}

impl Problem {
    /// The text of the report.
    pub open spec fn message(self) -> Seq<char> {
        match self {
            Problem::NotAStruct => "#[derive(FieldValidation)] can only be used with structs"@,
            Problem::UnnamedFields =>
                "struct has unnamed fields: #[derive(FieldValidate)] can only be used on structs with named fields"@,
            Problem::UnsupportedType { field, ty } => "Type `"@ + ty + "` of field `"@ + field
                + "` not supported"@,
            Problem::UnknownRule { field, rule } => about_field(
                "#[validate] "@,
                field,
                "Unexpected Validation: "@ + rule,
            ),
            Problem::NoRules { field } => about_field(
                "#[validate] "@,
                field,
                "there must be at least one validation rule"@,
            ),
            Problem::UnexpectedPath { field } => about_field(
                ""@,
                field,
                "Unexpected nested value"@,
            ),
            Problem::UnexpectedNameValue { field } => about_field(
                ""@,
                field,
                "Unexpected name=value argument"@,
            ),
            Problem::Malformed { field, flaw } => about_field(""@, field, flaw.text()),
        }
    }
}

/// A message about an annotation of the field `field`.
fn message_about_field(family: &str, field: &str, what: &str) -> (r: String)
    ensures
        r@ == about_field(family@, field@, what@),
{
    let mut out = String::from_str("Invalid attribute ");
    out.append(family);
    out.append("on field `");
    out.append(field);
    out.append("`: ");
    out.append(what);
    out
}

impl Diagnostic {
    /// The text of the report. It names the field and, where there is one, the
    /// type or the rule that the report is about.
    pub fn message(&self) -> (r: String)
        ensures
            r@ == self@.message(),
    {
        match self {
            Diagnostic::NotAStruct => String::from_str(
                "#[derive(FieldValidation)] can only be used with structs",
            ),
            Diagnostic::UnnamedFields => String::from_str(
                "struct has unnamed fields: #[derive(FieldValidate)] can only be used on structs with named fields",
            ),
            Diagnostic::UnsupportedType { field, ty } => {
                let mut out = String::from_str("Type `");
                out.append(ty.as_str());
                out.append("` of field `");
                out.append(field.as_str());
                out.append("` not supported");
                out
            },
            Diagnostic::UnknownRule { field, rule } => {
                let mut what = String::from_str("Unexpected Validation: ");
                what.append(rule.as_str());
                message_about_field("#[validate] ", field.as_str(), what.as_str())
            },
            Diagnostic::NoRules { field } => message_about_field(
                "#[validate] ",
                field.as_str(),
                "there must be at least one validation rule",
            ),
            Diagnostic::UnexpectedPath { field } => message_about_field(
                "",
                field.as_str(),
                "Unexpected nested value",
            ),
            Diagnostic::UnexpectedNameValue { field } => message_about_field(
                "",
                field.as_str(),
                "Unexpected name=value argument",
            ),
            Diagnostic::Malformed { field, flaw } => message_about_field(
                "",
                field.as_str(),
                flaw.describe(),
            ),
        }
    }
}

} // verus!
