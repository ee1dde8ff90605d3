//! Classification of field types and the text of the checks that are emitted.
use crate::field_validation::{FieldValidation, RuleRequest};
use crate::routine::{CheckView, CompiledCheck};
use crate::text::{same_text, starts_with};
use crate::types::ValidationType;
use vstd::prelude::*;

verus! {

/// The pattern of the string-like wrapper type: a `Cow` of a `str`, with any
/// lifetime written in lower-case letters.
pub const COW_TYPE: &'static str = "Cow<'[a-z]+,str>";

/// The type descriptors that count as numbers, optional wrappings included.
pub const NUMBER_TYPES: [&'static str; 36] = [
    "usize",
    "u8",
    "u16",
    "u32",
    "u64",
    "isize",
    "i8",
    "i16",
    "i32",
    "i64",
    "f32",
    "f64",
    "Option<usize>",
    "Option<u8>",
    "Option<u16>",
    "Option<u32>",
    "Option<u64>",
    "Option<isize>",
    "Option<i8>",
    "Option<i16>",
    "Option<i32>",
    "Option<i64>",
    "Option<f32>",
    "Option<f64>",
    "Option<Option<usize>>",
    "Option<Option<u8>>",
    "Option<Option<u16>>",
    "Option<Option<u32>>",
    "Option<Option<u64>>",
    "Option<Option<isize>>",
    "Option<Option<i8>>",
    "Option<Option<i16>>",
    "Option<Option<i32>>",
    "Option<Option<i64>>",
    "Option<Option<f32>>",
    "Option<Option<f64>>",
];

/// Whether the descriptor is one of the number types.
pub open spec fn is_number_type(ty: Seq<char>) -> bool {
    exists|i: int| 0 <= i < 36 && ty == (#[trigger] NUMBER_TYPES[i])@
}

/// Whether the descriptor is one of the number types.
pub fn number_type(ty: &str) -> (r: bool)
    ensures
        r == is_number_type(ty@),
{
    let mut i: usize = 0;
    while i < 36
        invariant
            i <= 36,
            forall|j: int| 0 <= j < i ==> ty@ != (#[trigger] NUMBER_TYPES[j])@,
        decreases 36 - i,
    {
        if same_text(ty, NUMBER_TYPES[i]) {
            return true;
        }
        i += 1;
    }
    false
}

/// What the regex crate answers when the pattern is compiled with its default
/// settings and the haystack is searched for a match: `None` where the
/// pattern does not compile, else whether there is a match anywhere in the
/// haystack.
pub uninterp spec fn pattern_match(pattern: Seq<char>, haystack: Seq<char>) -> Option<bool>;

/// Compiles the pattern and searches the haystack for a match of it.
///
/// Trusted: the body calls `regex::Regex::new` and, on the regex that it
/// gives, `regex::Regex::is_match`. The first returns an error for a pattern
/// that is invalid or too large and the second never fails; both depend on
/// their arguments alone. The contract gives that answer its name and claims
/// nothing else about it.
#[verifier::external_body]
fn regex_is_match(pattern: &str, haystack: &str) -> (r: Option<bool>)
    ensures
        r == pattern_match(pattern@, haystack@),
{
    match regex::Regex::new(pattern) {
        Ok(re) => Some(re.is_match(haystack)),
        Err(_) => None,
    }
}

/// Whether a type descriptor is that of the string-like wrapper type, by the
/// pattern [`COW_TYPE`].
pub open spec fn is_string_like(ty: Seq<char>) -> bool {
    pattern_match(COW_TYPE@, ty) == Some(true)
}

/// The semantic class of a field's type.
#[derive(Clone, Copy, Debug, PartialEq, Eq, Structural)]
pub enum TypeClass {
    /// An optional container.
    Optional,
    /// The string-like wrapper type.
    StringLike,
    /// A reference.
    Reference,
    /// A number.
    Numeric,
    /// Any other type: a plain owned value.
    Owned,
}

/// How the value of a field is handed to the check of a rule.
#[derive(Clone, Copy, Debug, PartialEq, Eq, Structural)]
pub enum PassingConvention {
    /// The optional container itself, unmodified: the rule inspects it.
    Unmodified,
    /// A reference to the value.
    ByReference,
    /// The value as it is, which is a reference already.
    AsIs,
    /// The value itself.
    ByValue,
}

/// The class of a type descriptor, given whether it is that of the
/// string-like wrapper type. The first of these that applies decides: a
/// descriptor that begins with `Option<` is optional; one that matches the
/// wrapper's pattern is string-like; one that begins with `&` is a reference;
/// one of [`NUMBER_TYPES`] is a number; any other is owned.
pub open spec fn class_of(ty: Seq<char>, string_like: bool) -> TypeClass {
    if "Option<"@.is_prefix_of(ty) {
        TypeClass::Optional
    } else if string_like {
        TypeClass::StringLike
    } else if "&"@.is_prefix_of(ty) {
        TypeClass::Reference
    } else if is_number_type(ty) {
        TypeClass::Numeric
    } else {
        TypeClass::Owned
    }
}

/// Classifies a type descriptor, given whether it matches the pattern of the
/// string-like wrapper type.
pub fn classify(ty: &str, string_like: bool) -> (r: TypeClass)
    ensures
        r == class_of(ty@, string_like),
{
    if starts_with(ty, "Option<") {
        TypeClass::Optional
    } else if string_like {
        TypeClass::StringLike
    } else if starts_with(ty, "&") {
        TypeClass::Reference
    } else if number_type(ty) {
        TypeClass::Numeric
    } else {
        TypeClass::Owned
    }
}

impl TypeClass {
    /// The convention by which a value of a type of this class is passed.
    pub open spec fn convention_of(self) -> PassingConvention {
        match self {
            TypeClass::Optional => PassingConvention::Unmodified,
            TypeClass::StringLike => PassingConvention::ByReference,
            TypeClass::Numeric => PassingConvention::ByReference,
            TypeClass::Reference => PassingConvention::AsIs,
            TypeClass::Owned => PassingConvention::ByValue,
        }
    }

    /// The convention by which a value of a type of this class is passed.
    pub fn convention(&self) -> (r: PassingConvention)
        ensures
            r == self.convention_of(),
    {
        match self {
            TypeClass::Optional => PassingConvention::Unmodified,
            TypeClass::StringLike => PassingConvention::ByReference,
            TypeClass::Numeric => PassingConvention::ByReference,
            TypeClass::Reference => PassingConvention::AsIs,
            TypeClass::Owned => PassingConvention::ByValue,
        }
    }
}

/// The expression that hands the field `ident` of the object to a check,
/// for a field whose type is of the given class. An optional container is
/// handed over itself, as the field `self.ident`; so is a reference, which
/// needs no further borrow, and an owned value. A number is borrowed, as
/// `&self.ident`, and the string-like wrapper is borrowed as the string that
/// it holds, `&self.ident.as_ref()`.
pub open spec fn parameter_text(ident: Seq<char>, class: TypeClass) -> Seq<char> {
    match class {
        TypeClass::Optional => "self."@ + ident,
        TypeClass::StringLike => "&self."@ + ident + ".as_ref()"@,
        TypeClass::Reference => "self."@ + ident,
        TypeClass::Numeric => "&self."@ + ident,
        TypeClass::Owned => "self."@ + ident,
    }
}

/// What the checks of one field are written from: the name that the field is
/// declared under, the name that it is known by outside, and the descriptor
/// of its type.
#[derive(Debug)]
pub struct FieldQuoter {
    ident: String,
    name: String,
    _type: String,
}

/// The mathematical value of a [`FieldQuoter`].
pub ghost struct QuoterView {
    pub ident: Seq<char>,
    pub name: Seq<char>,
    pub ty: Seq<char>,
}

impl View for FieldQuoter {
    type V = QuoterView;

    closed spec fn view(&self) -> QuoterView {
        QuoterView { ident: self.ident@, name: self.name@, ty: self._type@ }
    }
}

impl FieldQuoter {
    /// A quoter for the field `ident`, known outside as `name`, of the type
    /// that `_type` describes.
    pub fn new(ident: String, name: String, _type: String) -> (r: FieldQuoter)
        ensures
            r@ == (QuoterView { ident: ident@, name: name@, ty: _type@ }),
    {
        FieldQuoter { ident, name, _type }
    }

    /// The class of the field's type.
    pub fn class(&self) -> (r: TypeClass)
        ensures
            r == class_of(self@.ty, is_string_like(self@.ty)),
    {
        let string_like = match regex_is_match(COW_TYPE, self._type.as_str()) {
            Some(found) => found,
            None => false,
        };
        classify(self._type.as_str(), string_like)
    }

    /// The expression that hands the field's value to a check, by the
    /// convention of the field's type.
    pub fn quote_validate_parameter(&self) -> (r: String)
        ensures
            r@ == parameter_text(self@.ident, class_of(self@.ty, is_string_like(self@.ty))),
    {
        match self.class() {
            TypeClass::StringLike => {
                let mut out = String::from_str("&self.");
                out.append(self.ident.as_str());
                out.append(".as_ref()");
                out
            },
            TypeClass::Numeric => {
                let mut out = String::from_str("&self.");
                out.append(self.ident.as_str());
                out
            },
            TypeClass::Optional | TypeClass::Reference | TypeClass::Owned => {
                let mut out = String::from_str("self.");
                out.append(self.ident.as_str());
                out
            },
        }
    }
}

/// The statement that makes the error of a failed check: a field mismatch
/// under the code of the rule.
pub open spec fn err_text(code: Seq<char>) -> Seq<char> {
    "let mut err = ::validation::ValidationError::FieldMismatch(\""@ + code
        + "\".to_string());"@
}

/// The text of the check that the field `ident` holds a value: where it holds
/// none, the error is made and added to the errors. The rule is shown the
/// container of the field, not what is in it.
pub open spec fn not_null_text(ident: Seq<char>, code: Seq<char>) -> Seq<char> {
    "if !::validation::is_not_null(&self."@ + ident + ") { "@ + err_text(code)
        + " errors.push(err) }"@
}

/// The check of the rule `NotNull` on the field of the quoter, as requested.
/// It looks at the container of the field as it is declared, whatever the
/// field is known as outside.
pub open spec fn not_null_check(quoter: QuoterView, request: RuleRequest) -> CheckView {
    CheckView {
        ident: quoter.ident,
        name: quoter.name,
        convention: class_of(quoter.ty, is_string_like(quoter.ty)).convention_of(),
        validator: ValidationType::NotNull,
        code: request.code,
        source: not_null_text(quoter.ident, request.code),
    }
}

/// The check of the requested rule on the field of the quoter.
pub open spec fn check_for(quoter: QuoterView, request: RuleRequest) -> CheckView {
    match request.validator {
        ValidationType::NotNull => not_null_check(quoter, request),
    }
}

/// Adds the check of the requested rule on the field of the quoter to the
/// checks that have been made so far.
pub fn create_field_validation(
    field_quoter: &FieldQuoter,
    validation: &FieldValidation,
    validations: &mut Vec<CompiledCheck>,
)
    ensures
        final(validations)@.len() == old(validations)@.len() + 1,
        final(validations)@.drop_last() == old(validations)@,
        final(validations)@.last()@ == check_for(field_quoter@, validation@),
{
    match validation.validator {
        ValidationType::NotNull => {
            let check = create_not_null_validation(field_quoter, validation);
            validations.push(check);
            assert(validations@.drop_last() =~= old(validations)@);
        },
    }
}

/// Makes the check of the rule `NotNull` on the field of the quoter.
pub fn create_not_null_validation(
    field_quoter: &FieldQuoter,
    validation: &FieldValidation,
) -> (r: CompiledCheck)
    ensures
        r@ == not_null_check(field_quoter@, validation@),
{
    let quoted_error = quote_err(validation);
    let mut quoted = String::from_str("if !::validation::is_not_null(&self.");
    quoted.append(field_quoter.ident.as_str());
    quoted.append(") { ");
    quoted.append(quoted_error.as_str());
    quoted.append(" errors.push(err) }");
    CompiledCheck {
        ident: field_quoter.ident.clone(),
        name: field_quoter.name.clone(),
        convention: field_quoter.class().convention(),
        validator: ValidationType::NotNull,
        code: validation.code.clone(),
        source: quoted,
    }
}

/// The statement that makes the error of a failed check of the rule.
pub fn quote_err(validation: &FieldValidation) -> (r: String)
    ensures
        r@ == err_text(validation@.code),
{
    let mut out = String::from_str("let mut err = ::validation::ValidationError::FieldMismatch(\"");
    out.append(validation.code.as_str());
    out.append("\".to_string());");
    out
}

} // verus!
