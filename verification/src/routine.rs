//! The validation routine of a struct: the checks that the compiler has
//! synthesized for it, the source text that the routine is emitted as, and
//! what the routine reports of an object.
use crate::error::{Failure, ValidationError};
use crate::not_null::is_not_null;
use crate::quotation::PassingConvention;
use crate::text::same_text;
use crate::types::ValidationType;
use crate::validation::{failure_of, FieldValidation, ValidationResult};
use vstd::prelude::*;

verus! {

/// One check of one rule on one field. `ident` is the name that the field is
/// declared under and found by; `name` is the name that it is known by
/// outside, which a rename annotation can change. `convention` is how a value
/// of the field's type is handed to a check. `code` is what a failure of the
/// check is reported under, and `source` is the text that the check is
/// emitted as.
#[derive(Debug)]
pub struct CompiledCheck {
    pub ident: String,
    pub name: String,
    pub convention: PassingConvention,
    pub validator: ValidationType,
    pub code: String,
    pub source: String,
}

/// The mathematical value of a [`CompiledCheck`].
pub ghost struct CheckView {
    pub ident: Seq<char>,
    pub name: Seq<char>,
    pub convention: PassingConvention,
    pub validator: ValidationType,
    pub code: Seq<char>,
    pub source: Seq<char>,
}

impl View for CompiledCheck {
    type V = CheckView;

    open spec fn view(&self) -> CheckView {
        CheckView {
            ident: self.ident@,
            name: self.name@,
            convention: self.convention,
            validator: self.validator,
            code: self.code@,
            source: self.source@,
        }
    }
}

/// The values of a sequence of checks, in their order.
pub open spec fn check_views(checks: Seq<CompiledCheck>) -> Seq<CheckView> {
    Seq::new(checks.len(), |i: int| checks[i]@)
}

/// The validation routine of one struct: its checks in the order of the
/// fields, and within a field in the order of its rules. The texts are those
/// that the impl of the routine for the struct is written with.
#[derive(Debug)]
pub struct ValidationRoutine {
    pub target: String,
    pub impl_generics: String,
    pub type_generics: String,
    pub where_clause: String,
    pub checks: Vec<CompiledCheck>,
}

/// The mathematical value of a [`ValidationRoutine`].
pub ghost struct RoutineView {
    pub target: Seq<char>,
    pub impl_generics: Seq<char>,
    pub type_generics: Seq<char>,
    pub where_clause: Seq<char>,
    pub checks: Seq<CheckView>,
}

impl View for ValidationRoutine {
    type V = RoutineView;

    open spec fn view(&self) -> RoutineView {
        RoutineView {
            target: self.target@,
            impl_generics: self.impl_generics@,
            type_generics: self.type_generics@,
            where_clause: self.where_clause@,
            checks: check_views(self.checks@),
        }
    }
}

/// A field of an object, under the name that it is declared with. Its value
/// is held in an optional container; a field that cannot be absent always
/// holds `Some`.
#[derive(Debug)]
pub struct ObjectField<V> {
    pub ident: String,
    pub value: Option<V>,
}

/// An object that is to be validated, as the fields that it holds.
#[derive(Debug)]
pub struct ObjectInstance<V> {
    pub fields: Vec<ObjectField<V>>,
}

/// The container of the first of the fields from `from` on that is declared
/// as `ident`, if there is such a field.
pub open spec fn value_from<V>(
    fields: Seq<ObjectField<V>>,
    ident: Seq<char>,
    from: int,
) -> Option<Option<V>>
    decreases fields.len() - from,
{
    if from < 0 || from >= fields.len() {
        None
    } else if fields[from].ident@ == ident {
        Some(fields[from].value)
    } else {
        value_from(fields, ident, from + 1)
    }
}

impl<V> ObjectInstance<V> {
    /// The container of the field that is declared as `ident`: that of the
    /// first such field, if the object has one.
    pub open spec fn value_of(&self, ident: Seq<char>) -> Option<Option<V>> {
        value_from(self.fields@, ident, 0)
    }

    /// Whether the object holds a value in the field that is declared as
    /// `ident`. A field that the object does not have holds none.
    pub open spec fn holds(&self, ident: Seq<char>) -> bool {
        match self.value_of(ident) {
            Some(Some(_)) => true,
            _ => false,
        }
    }

    /// The container of the field that is declared as `ident`, if the object
    /// has such a field.
    pub fn field(&self, ident: &str) -> (r: Option<&Option<V>>)
        ensures
            match r {
                Some(value) => self.value_of(ident@) == Some(*value),
                None => self.value_of(ident@) is None,
            },
    {
        let n: usize = self.fields.len();
        let mut i: usize = 0;
        while i < n
            invariant
                n == self.fields@.len(),
                i <= n,
                self.value_of(ident@) == value_from(self.fields@, ident@, i as int),
            decreases n - i,
        {
            if same_text(self.fields[i].ident.as_str(), ident) {
                return Some(&self.fields[i].value);
            }
            i += 1;
        }
        None
    }
}

impl CheckView {
    /// Whether the object passes the check. The rule `NotNull` asks that the
    /// checked field holds a value: whatever the type of the field, it is the
    /// container of the field that the rule looks into.
    pub open spec fn satisfied_by<V>(self, object: ObjectInstance<V>) -> bool {
        match self.validator {
            ValidationType::NotNull => object.holds(self.ident),
        }
    }
}

/// The text of the checks, in their order, each followed by a space.
pub open spec fn checks_source(checks: Seq<CheckView>) -> Seq<char>
    decreases checks.len(),
{
    if checks.len() == 0 {
        Seq::empty()
    } else {
        checks_source(checks.drop_last()) + checks.last().source + " "@
    }
}

/// Whether an object passes every one of the checks.
pub open spec fn passes_all<V>(checks: Seq<CheckView>, object: ObjectInstance<V>) -> bool {
    forall|k: int| 0 <= k < checks.len() ==> (#[trigger] checks[k]).satisfied_by(object)
}

impl RoutineView {
    /// Whether the object passes every check of the routine.
    pub open spec fn passes<V>(self, object: ObjectInstance<V>) -> bool {
        passes_all(self.checks, object)
    }

    /// What the routine reports of an object: nothing if the object passes
    /// every check, and otherwise one field mismatch under the code
    /// `not_null`, whichever checks failed and however many.
    pub open spec fn verdict<V>(self, object: ObjectInstance<V>) -> Option<Failure> {
        if self.passes(object) {
            None
        } else {
            Some(Failure::FieldMismatch("not_null"@))
        }
    }

    /// The source text of the routine: an impl of the field validation
    /// capability for the struct, whose one method runs every check, collects
    /// the failures and reports one error if there is any.
    pub open spec fn source(self) -> Seq<char> {
        "impl "@ + self.impl_generics + " ::validation::FieldValidation for "@ + self.target + " "@
            + self.type_generics + " "@ + self.where_clause
            + " { fn validate_fields(&self) -> ::validation::ValidationResult<()> { let mut errors = ::std::vec::Vec::new(); "@
            + checks_source(self.checks)
            + "if errors.is_empty() { Ok(()) } else { let mut err = ::validation::ValidationError::FieldMismatch(\"not_null\".to_string()); Err(err) } } }"@
    }
}

impl ValidationRoutine {
    /// Runs every check of the routine on the object, collects the failures,
    /// and reports success if there is none. Otherwise it reports one field
    /// mismatch under the code `not_null`: the failures themselves, and which
    /// fields they are of, are not handed on.
    pub fn validate_fields<V>(&self, object: &ObjectInstance<V>) -> (r: ValidationResult<()>)
        ensures
            failure_of(r) == self@.verdict(*object),
    {
        let mut errors: Vec<ValidationError> = Vec::new();
        let n: usize = self.checks.len();
        let mut i: usize = 0;
        while i < n
            invariant
                n == self.checks@.len(),
                i <= n,
                errors@.len() == 0 <==> forall|k: int|
                    0 <= k < i ==> (#[trigger] self@.checks[k]).satisfied_by(*object),
            decreases n - i,
        {
            let check = &self.checks[i];
            assert(self@.checks[i as int] == check@);
            let passed = match check.validator {
                ValidationType::NotNull => match object.field(check.ident.as_str()) {
                    Some(value) => is_not_null(value),
                    None => false,
                },
            };
            if !passed {
                let err = ValidationError::FieldMismatch(check.code.clone());
                errors.push(err);
            }
            i += 1;
        }
        if errors.is_empty() {
            Ok(())
        } else {
            let err = ValidationError::FieldMismatch(ValidationType::NotNull.code().to_string());
            Err(err)
        }
    }

    /// The source text of the routine.
    pub fn emit(&self) -> (r: String)
        ensures
            r@ == self@.source(),
    {
        let mut checks = String::new();
        let n: usize = self.checks.len();
        let mut i: usize = 0;
        assert(self@.checks.take(0) =~= Seq::<CheckView>::empty());
        while i < n
            invariant
                n == self.checks@.len(),
                i <= n,
                checks@ == checks_source(self@.checks.take(i as int)),
            decreases n - i,
        {
            assert(self@.checks.take(i + 1).drop_last() =~= self@.checks.take(i as int));
            assert(self@.checks.take(i + 1).last() == self.checks@[i as int]@);
            checks.append(self.checks[i].source.as_str());
            checks.append(" ");
            i += 1;
        }
        assert(self@.checks.take(n as int) =~= self@.checks);
        let mut out = String::from_str("impl ");
        out.append(self.impl_generics.as_str());
        out.append(" ::validation::FieldValidation for ");
        out.append(self.target.as_str());
        out.append(" ");
        out.append(self.type_generics.as_str());
        out.append(" ");
        out.append(self.where_clause.as_str());
        out.append(
            " { fn validate_fields(&self) -> ::validation::ValidationResult<()> { let mut errors = ::std::vec::Vec::new(); ",
        );
        out.append(checks.as_str());
        out.append(
            "if errors.is_empty() { Ok(()) } else { let mut err = ::validation::ValidationError::FieldMismatch(\"not_null\".to_string()); Err(err) } } }",
        );
        out
    }
}

/// An object together with the validation routine of its type. It offers the
/// field validation capability: validating its fields is running the routine
/// on the object.
#[derive(Debug)]
pub struct Subject<V> {
    pub routine: ValidationRoutine,
    pub object: ObjectInstance<V>,
}

impl<V> FieldValidation for Subject<V> {
    fn validate_fields(&self) -> (r: ValidationResult<()>)
        ensures
            failure_of(r) == self.routine@.verdict(self.object),
    {
        self.routine.validate_fields(&self.object)
    }
}

} // verus!
